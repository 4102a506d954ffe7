//! The panel controller's lifecycle as command sequences: each operation
//! yields the exact list of line changes, bus writes, delays and busy waits
//! that the host carries out in order, stopping at the first failed write.
use vstd::prelude::*;

use crate::color::{code, pack, OctColor};
use crate::command::{opcode, Command};
use crate::{DEFAULT_BACKGROUND_COLOR, HEIGHT, WIDTH};

verus! {

/// One step of an operation on the panel.
#[derive(Clone, Copy, PartialEq, Eq, Debug, Structural)]
pub enum Action {
    /// Drive the reset line low.
    ResetLow,
    /// Drive the reset line high.
    ResetHigh,
    /// Wait this many milliseconds.
    DelayMs(u32),
    /// Poll the busy signal until it reports that the panel is not busy.
    WaitUntilIdle,
    /// Drive the command line low, then write the command's opcode.
    Command(Command),
    /// Drive the command line high, then write this payload byte.
    Data(u8),
    /// Drive the command line high, then write every byte of the frame
    /// buffer handed to the run, one write each, in order.
    Frame,
    /// Drive the command line high, then write `byte` `count` times.
    Repeat(u8, u32),
}

/// Payload bytes, one data write each.
pub open spec fn payload(data: Seq<u8>) -> Seq<Action> {
    data.map_values(|b: u8| Action::Data(b))
}

/// A command followed by its payload.
pub open spec fn cmd_data_plan(c: Command, data: Seq<u8>) -> Seq<Action> {
    seq![Action::Command(c)] + payload(data)
}

/// Hardware reset: pulse the reset line low, then wait for the panel.
pub open spec fn reset_plan() -> Seq<Action> {
    seq![
        Action::ResetLow,
        Action::DelayMs(10),
        Action::ResetHigh,
        Action::DelayMs(10),
        Action::WaitUntilIdle,
    ]
}

/// The panel resolution: width, then height, each high byte first.
pub open spec fn resolution_plan() -> Seq<Action> {
    cmd_data_plan(
        Command::TconResolution,
        seq![(WIDTH >> 8u32) as u8, WIDTH as u8, (HEIGHT >> 8u32) as u8, HEIGHT as u8],
    )
}

/// The Vcom and data interval byte, whose top three bits carry the code of
/// the background colour.
pub open spec fn vcom_byte(background: OctColor) -> u8 {
    (0x17u8 | ((code(background) & 0b111u8) << 5u8)) as u8
}

/// Power-up initialisation: reset, then the fixed register settings.
pub open spec fn init_plan() -> Seq<Action> {
    reset_plan() + seq![Action::WaitUntilIdle] + cmd_data_plan(Command::PanelSetting, seq![0xEFu8, 0x08])
        + cmd_data_plan(Command::PowerSetting, seq![0x37u8, 0x00, 0x23, 0x23])
        + cmd_data_plan(Command::PowerOffSequenceSetting, seq![0x00u8])
        + cmd_data_plan(Command::BoosterSoftStart, seq![0xC7u8, 0xC7, 0x1D])
        + cmd_data_plan(Command::PllControl, seq![0x3Cu8])
        + cmd_data_plan(Command::TemperatureSensor, seq![0x00u8])
        + cmd_data_plan(Command::VcomAndDataIntervalSetting, seq![0x37u8])
        + cmd_data_plan(Command::TconSetting, seq![0x22u8]) + resolution_plan()
        + cmd_data_plan(Command::FlashMode, seq![0xAAu8]) + seq![Action::DelayMs(10)]
        + cmd_data_plan(Command::VcomAndDataIntervalSetting, seq![0x37u8])
}

/// What comes before the frame data: wait, the Vcom byte for the
/// background, the resolution, and the start of data transmission.
pub open spec fn frame_header_plan(background: OctColor) -> Seq<Action> {
    seq![Action::WaitUntilIdle] + cmd_data_plan(
        Command::VcomAndDataIntervalSetting,
        seq![vcom_byte(background)],
    ) + resolution_plan() + seq![Action::Command(Command::DataStartTransmission1)]
}

/// Loading a frame: the header, the frame buffer, and data stop.
pub open spec fn update_plan(background: OctColor) -> Seq<Action> {
    frame_header_plan(background) + seq![Action::Frame, Action::Command(Command::DataStop)]
}

/// Showing the loaded frame, with a busy wait around every phase.
pub open spec fn display_plan() -> Seq<Action> {
    seq![
        Action::WaitUntilIdle,
        Action::Command(Command::PowerOn),
        Action::WaitUntilIdle,
        Action::Command(Command::DisplayRefresh),
        Action::WaitUntilIdle,
        Action::Command(Command::PowerOff),
        Action::WaitUntilIdle,
    ]
}

/// Filling the panel with the background colour, streamed without a frame
/// buffer, then showing it.
pub open spec fn clear_plan(background: OctColor) -> Seq<Action> {
    frame_header_plan(background) + seq![
        Action::Repeat(pack(background, background), (WIDTH / 2 * HEIGHT) as u32),
        Action::Command(Command::DataStop),
    ] + display_plan()
}

/// What the panel sees of an action.
pub enum Signal {
    /// One bus write, with the level of the command line: high for data.
    Write(bool, u8),
    /// The reset line driven to a level.
    ResetLine(bool),
    /// A pause of this many milliseconds.
    Delay(u32),
    /// A wait until the panel is idle.
    Idle,
}

/// The signals of one action, `frame` being the buffer handed to the run.
pub open spec fn signals(a: Action, frame: Seq<u8>) -> Seq<Signal> {
    match a {
        Action::ResetLow => seq![Signal::ResetLine(false)],
        Action::ResetHigh => seq![Signal::ResetLine(true)],
        Action::DelayMs(ms) => seq![Signal::Delay(ms)],
        Action::WaitUntilIdle => seq![Signal::Idle],
        Action::Command(c) => seq![Signal::Write(false, opcode(c))],
        Action::Data(b) => seq![Signal::Write(true, b)],
        Action::Frame => frame.map_values(|b: u8| Signal::Write(true, b)),
        Action::Repeat(b, n) => Seq::new(n as nat, |_i: int| Signal::Write(true, b)),
    }
}

/// The signals of a whole run whose writes all succeed.
pub open spec fn wire(plan: Seq<Action>, frame: Seq<u8>) -> Seq<Signal>
    decreases plan.len(),
{
    if plan.len() == 0 {
        seq![]
    } else {
        wire(plan.drop_last(), frame) + signals(plan.last(), frame)
    }
}

/// The signals of two plans run one after the other.
pub(crate) proof fn lemma_wire_concat(a: Seq<Action>, b: Seq<Action>, frame: Seq<u8>)
    ensures
        wire(a + b, frame) == wire(a, frame) + wire(b, frame),
    decreases b.len(),
{
    if b.len() == 0 {
        assert(a + b =~= a);
    } else {
        assert((a + b).drop_last() =~= a + b.drop_last());
        lemma_wire_concat(a, b.drop_last(), frame);
    }
}

/// A plan without a frame action sends the same whatever frame the run has.
proof fn lemma_wire_frame_free(p: Seq<Action>, f: Seq<u8>, g: Seq<u8>)
    requires
        forall|i: int| 0 <= i < p.len() ==> p[i] != Action::Frame,
    ensures
        wire(p, f) == wire(p, g),
    decreases p.len(),
{
    if p.len() > 0 {
        lemma_wire_frame_free(p.drop_last(), f, g);
        assert(p.last() == p[p.len() - 1]);
    }
}

/// The bytes of a frame with every pixel the background colour.
pub open spec fn filled_frame(background: OctColor) -> Seq<u8> {
    Seq::new((WIDTH / 2 * HEIGHT) as nat, |_i: int| pack(background, background))
}

/// Clearing the panel sends exactly what loading and showing a frame whose
/// every pixel is the background colour sends, whatever frame the run has.
pub proof fn lemma_clear_is_filled_frame(background: OctColor, frame: Seq<u8>)
    ensures
        wire(clear_plan(background), frame) == wire(
            update_plan(background) + display_plan(),
            filled_frame(background),
        ),
{
    let head = frame_header_plan(background);
    let fill = filled_frame(background);
    let tail = seq![Action::Command(Command::DataStop)] + display_plan();
    let repeat = seq![Action::Repeat(pack(background, background), (WIDTH / 2 * HEIGHT) as u32)];
    let full = seq![Action::Frame];
    assert(clear_plan(background) =~= head + repeat + tail);
    assert(update_plan(background) + display_plan() =~= head + full + tail);
    lemma_wire_concat(head + repeat, tail, frame);
    lemma_wire_concat(head, repeat, frame);
    lemma_wire_concat(head + full, tail, fill);
    lemma_wire_concat(head, full, fill);
    assert forall|i: int| 0 <= i < head.len() implies head[i] != Action::Frame by {}
    assert forall|i: int| 0 <= i < tail.len() implies tail[i] != Action::Frame by {}
    lemma_wire_frame_free(head, frame, fill);
    lemma_wire_frame_free(tail, frame, fill);
    assert(repeat.drop_last() =~= seq![]);
    assert(full.drop_last() =~= seq![]);
    assert(wire(repeat.drop_last(), frame) == Seq::<Signal>::empty());
    assert(wire(full.drop_last(), fill) == Seq::<Signal>::empty());
    assert(repeat.last() == Action::Repeat(pack(background, background), (WIDTH / 2 * HEIGHT) as u32));
    assert(full.last() == Action::Frame);
    assert(signals(repeat.last(), frame) =~= signals(full.last(), fill));
    assert(wire(repeat, frame) =~= wire(full, fill));
}

/// Appends one action.
fn push_action(plan: &mut Vec<Action>, action: Action)
    ensures
        final(plan)@ == old(plan)@ + seq![action],
{
    plan.push(action);
    assert(plan@ =~= old(plan)@ + seq![action]);
}

/// Appends a command.
fn command(plan: &mut Vec<Action>, command: Command)
    ensures
        final(plan)@ == old(plan)@ + seq![Action::Command(command)],
{
    push_action(plan, Action::Command(command));
}

/// Appends payload bytes, one write each.
fn send_data(plan: &mut Vec<Action>, data: &[u8])
    ensures
        final(plan)@ == old(plan)@ + payload(data@),
{
    let mut i: usize = 0;
    while i < data.len()
        invariant
            i <= data@.len(),
            plan@ == old(plan)@ + payload(data@.take(i as int)),
        decreases data@.len() - i,
    {
        plan.push(Action::Data(data[i]));
        i = i + 1;
        assert(data@.take(i as int) =~= data@.take(i - 1).push(data@[i - 1]));
        assert(plan@ =~= old(plan)@ + payload(data@.take(i as int)));
    }
    assert(data@.take(data@.len() as int) =~= data@);
}

/// Appends a command and its payload bytes.
fn cmd_with_data(plan: &mut Vec<Action>, c: Command, data: &[u8])
    ensures
        final(plan)@ == old(plan)@ + cmd_data_plan(c, data@),
{
    command(plan, c);
    send_data(plan, data);
    assert(plan@ =~= old(plan)@ + cmd_data_plan(c, data@));
}

/// Appends `repetitions` writes of the same payload byte.
fn data_x_times(plan: &mut Vec<Action>, val: u8, repetitions: u32)
    ensures
        final(plan)@ == old(plan)@ + seq![Action::Repeat(val, repetitions)],
{
    push_action(plan, Action::Repeat(val, repetitions));
}

/// Appends a busy wait.
fn busy_wait(plan: &mut Vec<Action>)
    ensures
        final(plan)@ == old(plan)@ + seq![Action::WaitUntilIdle],
{
    push_action(plan, Action::WaitUntilIdle);
}

/// Appends the panel resolution.
fn send_resolution(plan: &mut Vec<Action>)
    ensures
        final(plan)@ == old(plan)@ + resolution_plan(),
{
    let w = WIDTH;
    let h = HEIGHT;
    cmd_with_data(plan, Command::TconResolution, &[(w >> 8) as u8, w as u8, (h >> 8) as u8, h as u8]);
}

/// Appends the hardware reset.
fn push_reset(plan: &mut Vec<Action>)
    ensures
        final(plan)@ == old(plan)@ + reset_plan(),
{
    push_action(plan, Action::ResetLow);
    push_action(plan, Action::DelayMs(10));
    push_action(plan, Action::ResetHigh);
    push_action(plan, Action::DelayMs(10));
    busy_wait(plan);
    assert(plan@ =~= old(plan)@ + reset_plan());
}

/// Appends the display sequence.
fn push_display(plan: &mut Vec<Action>)
    ensures
        final(plan)@ == old(plan)@ + display_plan(),
{
    busy_wait(plan);
    command(plan, Command::PowerOn);
    busy_wait(plan);
    command(plan, Command::DisplayRefresh);
    busy_wait(plan);
    command(plan, Command::PowerOff);
    busy_wait(plan);
    assert(plan@ =~= old(plan)@ + display_plan());
}

/// Driver for the Inky 5.7" seven-colour e-ink display. It holds the
/// background colour; each operation gives the actions that carry it out.
pub struct InkyFrame5_7 {
    color: OctColor,
}

impl InkyFrame5_7 {
    /// The background colour, folded into the Vcom byte of every frame.
    pub closed spec fn background(&self) -> OctColor {
        self.color
    }

    /// A driver with the default background colour. Run `init` before
    /// anything else.
    pub fn new() -> (r: InkyFrame5_7)
        ensures
            r.background() == DEFAULT_BACKGROUND_COLOR,
    {
        InkyFrame5_7 { color: DEFAULT_BACKGROUND_COLOR }
    }

    /// Power-up initialisation.
    pub fn init(&self) -> (r: Vec<Action>)
        ensures
            r@ == init_plan(),
    {
        let mut plan: Vec<Action> = Vec::new();
        push_reset(&mut plan);
        busy_wait(&mut plan);
        cmd_with_data(&mut plan, Command::PanelSetting, &[0xEF, 0x08]);
        cmd_with_data(&mut plan, Command::PowerSetting, &[0x37, 0x00, 0x23, 0x23]);
        cmd_with_data(&mut plan, Command::PowerOffSequenceSetting, &[0x00]);
        cmd_with_data(&mut plan, Command::BoosterSoftStart, &[0xC7, 0xC7, 0x1D]);
        cmd_with_data(&mut plan, Command::PllControl, &[0x3C]);
        cmd_with_data(&mut plan, Command::TemperatureSensor, &[0x00]);
        cmd_with_data(&mut plan, Command::VcomAndDataIntervalSetting, &[0x37]);
        cmd_with_data(&mut plan, Command::TconSetting, &[0x22]);
        send_resolution(&mut plan);
        cmd_with_data(&mut plan, Command::FlashMode, &[0xAA]);
        push_action(&mut plan, Action::DelayMs(10));
        cmd_with_data(&mut plan, Command::VcomAndDataIntervalSetting, &[0x37]);
        assert(plan@ =~= init_plan());
        plan
    }

    /// Powers the panel off; no payload.
    pub fn power_off(&self) -> (r: Vec<Action>)
        ensures
            r@ == seq![Action::Command(Command::PowerOff)],
    {
        let mut plan: Vec<Action> = Vec::new();
        command(&mut plan, Command::PowerOff);
        plan
    }

    /// Wakes the panel from deep sleep, which only a hardware reset leaves:
    /// the same as `init`.
    pub fn wake_up(&self) -> (r: Vec<Action>)
        ensures
            r@ == init_plan(),
    {
        self.init()
    }

    /// Puts the panel into deep sleep, with the check code it demands.
    pub fn sleep(&self) -> (r: Vec<Action>)
        ensures
            r@ == seq![Action::Command(Command::DeepSleep), Action::Data(0xA5)],
    {
        let mut plan: Vec<Action> = Vec::new();
        cmd_with_data(&mut plan, Command::DeepSleep, &[0xA5]);
        assert(plan@ =~= seq![Action::Command(Command::DeepSleep), Action::Data(0xA5)]);
        plan
    }

    /// Loads a frame: the frame buffer is the one handed to the run.
    pub fn update_frame(&self) -> (r: Vec<Action>)
        ensures
            r@ == update_plan(self.background()),
    {
        let mut plan: Vec<Action> = Vec::new();
        self.push_frame_header(&mut plan);
        push_action(&mut plan, Action::Frame);
        command(&mut plan, Command::DataStop);
        assert(plan@ =~= update_plan(self.background()));
        plan
    }

    /// Shows the loaded frame.
    pub fn display_frame(&self) -> (r: Vec<Action>)
        ensures
            r@ == display_plan(),
    {
        let mut plan: Vec<Action> = Vec::new();
        push_display(&mut plan);
        assert(plan@ =~= display_plan());
        plan
    }

    /// Loads a frame and shows it.
    pub fn update_and_display_frame(&self) -> (r: Vec<Action>)
        ensures
            r@ == update_plan(self.background()) + display_plan(),
    {
        let mut plan = self.update_frame();
        push_display(&mut plan);
        plan
    }

    /// Fills the panel with the background colour and shows it, streaming
    /// the repeated byte instead of a frame buffer.
    pub fn clear_frame(&self) -> (r: Vec<Action>)
        ensures
            r@ == clear_plan(self.background()),
    {
        let bg = OctColor::colors_byte(self.color, self.color);
        let mut plan: Vec<Action> = Vec::new();
        self.push_frame_header(&mut plan);
        data_x_times(&mut plan, bg, WIDTH / 2 * HEIGHT);
        command(&mut plan, Command::DataStop);
        push_display(&mut plan);
        assert(plan@ =~= clear_plan(self.background()));
        plan
    }

    /// Sets the background colour; it takes effect at the next frame.
    pub fn set_background_color(&mut self, color: OctColor)
        ensures
            final(self).background() == color,
    {
        self.color = color;
    }

    /// Width of the panel in pixels.
    pub fn width(&self) -> (r: u32)
        ensures
            r == WIDTH,
    {
        WIDTH
    }

    /// Height of the panel in pixels.
    pub fn height(&self) -> (r: u32)
        ensures
            r == HEIGHT,
    {
        HEIGHT
    }

    /// Resets the panel through the reset line, then waits until it is idle.
    pub fn reset(&self) -> (r: Vec<Action>)
        ensures
            r@ == reset_plan(),
    {
        let mut plan: Vec<Action> = Vec::new();
        push_reset(&mut plan);
        assert(plan@ =~= reset_plan());
        plan
    }

    /// Appends the Vcom and data interval setting for the background colour.
    fn update_vcom(&self, plan: &mut Vec<Action>)
        ensures
            final(plan)@ == old(plan)@ + cmd_data_plan(
                Command::VcomAndDataIntervalSetting,
                seq![vcom_byte(self.background())],
            ),
    {
        let bg_color = (self.color.get_nibble() & 0b111) << 5;
        cmd_with_data(plan, Command::VcomAndDataIntervalSetting, &[0x17 | bg_color]);
    }

    /// Appends everything that comes before the frame data.
    fn push_frame_header(&self, plan: &mut Vec<Action>)
        ensures
            final(plan)@ == old(plan)@ + frame_header_plan(self.background()),
    {
        busy_wait(plan);
        self.update_vcom(plan);
        send_resolution(plan);
        command(plan, Command::DataStartTransmission1);
        assert(plan@ =~= old(plan)@ + frame_header_plan(self.background()));
    }
}

} // verus!
