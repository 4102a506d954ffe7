//! Driver logic for a seven-colour e-paper panel: the colour model, the
//! packed frame buffer with rotation, the command sequences that take the
//! panel controller through its lifecycle, and the run that steps a host
//! through one of them.
use vstd::prelude::*;

pub mod color;
pub mod command;
pub mod framebuffer;
pub mod panel;
pub mod run;
pub mod shift_register;

pub use color::{OctColor, OutOfColorRangeParseError};
pub use framebuffer::{DisplayRotation, InkyFrameDisplay};
pub use panel::{Action, InkyFrame5_7};
pub use run::{Outcome, Run, Step};
pub use shift_register::{InkyFrameShiftRegister, RegisterStep};

verus! {

/// Width of the display
pub const WIDTH: u32 = 600;

/// Height of the display
pub const HEIGHT: u32 = 448;

/// Default Background Color
pub const DEFAULT_BACKGROUND_COLOR: OctColor = OctColor::White;

/// Tells whether the e-ink display is busy: the busy pin of one board, the
/// status shift register of another.
pub trait IsBusy {
    fn is_busy(&mut self) -> bool;
}

} // verus!
