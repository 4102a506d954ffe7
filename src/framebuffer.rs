//! The packed frame buffer: two pixels per byte, addressed through a
//! rotation of the viewing frame.
use vstd::prelude::*;

use crate::color::{code, decode, lemma_code_round_trip, pack, OctColor, OutOfColorRangeParseError};
use crate::{DEFAULT_BACKGROUND_COLOR, HEIGHT, WIDTH};

verus! {

/// Rotation of the viewing frame, clockwise.
#[derive(Clone, Copy, PartialEq, Eq, Debug, Structural)]
pub enum DisplayRotation {
    /// No rotation
    Rotate0,
    /// Rotate by 90 degrees clockwise
    Rotate90,
    /// Rotate by 180 degrees clockwise
    Rotate180,
    /// Rotate 270 degrees clockwise
    Rotate270,
}

impl Default for DisplayRotation {
    fn default() -> (r: DisplayRotation)
        ensures
            r == DisplayRotation::Rotate0,
    {
        DisplayRotation::Rotate0
    }
}

/// Whether `(x, y)` of the rotated frame lies on a `w`×`h` panel: the frame
/// is transposed under a quarter turn.
pub open spec fn in_view(x: int, y: int, w: int, h: int, r: DisplayRotation) -> bool {
    &&& 0 <= x
    &&& 0 <= y
    &&& match r {
        DisplayRotation::Rotate0 | DisplayRotation::Rotate180 => x < w && y < h,
        DisplayRotation::Rotate90 | DisplayRotation::Rotate270 => y < w && x < h,
    }
}

/// The native (unrotated) coordinates of `(x, y)` of the rotated frame.
pub open spec fn native(x: int, y: int, w: int, h: int, r: DisplayRotation) -> (int, int) {
    match r {
        DisplayRotation::Rotate0 => (x, y),
        DisplayRotation::Rotate90 => (w - 1 - y, x),
        DisplayRotation::Rotate180 => (w - 1 - x, h - 1 - y),
        DisplayRotation::Rotate270 => (y, h - 1 - x),
    }
}

/// The byte that holds native pixel `(nx, ny)` on a panel `w` pixels wide.
pub open spec fn byte_index(nx: int, ny: int, w: int) -> int {
    nx / 2 + (w / 2) * ny
}

/// `byte` with one nibble replaced by `c`: the high one when `high`.
pub open spec fn with_nibble(byte: u8, high: bool, c: u8) -> u8 {
    if high {
        ((byte & 0x0f) | (c << 4u8)) as u8
    } else {
        ((byte & 0xf0) | c) as u8
    }
}

/// One nibble of `byte`: the high one when `high`.
pub open spec fn nibble_of(byte: u8, high: bool) -> u8 {
    if high {
        byte >> 4u8
    } else {
        byte & 0x0f
    }
}

/// The buffer after drawing colour `c` at `(x, y)` of the rotated frame:
/// a point off the panel, or one whose byte lies past the buffer, changes
/// nothing.
pub open spec fn painted(
    buf: Seq<u8>,
    w: int,
    h: int,
    r: DisplayRotation,
    x: int,
    y: int,
    c: OctColor,
) -> Seq<u8> {
    if in_view(x, y, w, h, r) {
        let (nx, ny) = native(x, y, w, h, r);
        let i = byte_index(nx, ny, w);
        if 0 <= i < buf.len() {
            buf.update(i, with_nibble(buf[i], nx % 2 == 0, code(c)))
        } else {
            buf
        }
    } else {
        buf
    }
}

/// On a panel of even width whose buffer holds `w / 2 * h` bytes, a point of
/// the rotated frame that lies on the panel has native coordinates on the
/// panel and a byte inside the buffer.
pub proof fn lemma_index_in_buffer(buf_len: int, w: int, h: int, r: DisplayRotation, x: int, y: int)
    requires
        in_view(x, y, w, h, r),
        w % 2 == 0,
        buf_len == (w / 2) * h,
    ensures
        ({
            let (nx, ny) = native(x, y, w, h, r);
            &&& 0 <= nx < w
            &&& 0 <= ny < h
            &&& 0 <= byte_index(nx, ny, w) < buf_len
        }),
{
    let (nx, ny) = native(x, y, w, h, r);
    let half = w / 2;
    assert(0 <= nx / 2 < half);
    assert(0 <= half * ny <= half * (h - 1)) by (nonlinear_arith)
        requires
            0 <= ny < h,
            0 <= half,
    ;
    assert(half * (h - 1) + half == half * h) by (nonlinear_arith);
}

/// Drawing a point that lies on the panel and reading back the nibble that
/// owns it gives the colour drawn; the other nibble of that byte, and every
/// other byte, keep their values.
pub proof fn lemma_read_back(
    buf: Seq<u8>,
    w: int,
    h: int,
    r: DisplayRotation,
    x: int,
    y: int,
    c: OctColor,
)
    requires
        in_view(x, y, w, h, r),
        w % 2 == 0,
        buf.len() == (w / 2) * h,
    ensures
        ({
            let (nx, ny) = native(x, y, w, h, r);
            let i = byte_index(nx, ny, w);
            let out = painted(buf, w, h, r, x, y, c);
            &&& 0 <= i < buf.len()
            &&& out.len() == buf.len()
            &&& nibble_of(out[i], nx % 2 == 0) == code(c)
            &&& decode(nibble_of(out[i], nx % 2 == 0)) == Ok::<OctColor, OutOfColorRangeParseError>(c)
            &&& nibble_of(out[i], nx % 2 != 0) == nibble_of(buf[i], nx % 2 != 0)
            &&& forall|j: int| 0 <= j < buf.len() && j != i ==> out[j] == buf[j]
        }),
{
    lemma_index_in_buffer(buf.len() as int, w, h, r, x, y);
    let (nx, ny) = native(x, y, w, h, r);
    let i = byte_index(nx, ny, w);
    let b = buf[i];
    let k = code(c);
    assert(k < 8 ==> (((b & 0x0f) | (k << 4u8)) as u8) >> 4u8 == k) by (bit_vector);
    assert(k < 8 ==> (((b & 0x0f) | (k << 4u8)) as u8) & 0x0f == b & 0x0f) by (bit_vector);
    assert(k < 8 ==> (((b & 0xf0) | k) as u8) & 0x0f == k) by (bit_vector);
    assert(k < 8 ==> (((b & 0xf0) | k) as u8) >> 4u8 == b >> 4u8) by (bit_vector);
    lemma_code_round_trip(c, 0);
}

/// Under a half turn the rotated frame maps to native coordinates by an
/// involution: drawing at a point under a half turn is drawing at its
/// native point unrotated, and the native point of the native point is the
/// point itself. So the two corners swap: `(0, 0)` unrotated addresses the
/// cell that `(w - 1, h - 1)` addresses under a half turn, and back.
pub proof fn lemma_half_turn(buf: Seq<u8>, w: int, h: int, c: OctColor)
    requires
        w >= 1,
        h >= 1,
    ensures
        forall|x: int, y: int|
            #![trigger painted(buf, w, h, DisplayRotation::Rotate180, x, y, c)]
            in_view(x, y, w, h, DisplayRotation::Rotate180) ==> {
                let (nx, ny) = native(x, y, w, h, DisplayRotation::Rotate180);
                &&& in_view(nx, ny, w, h, DisplayRotation::Rotate180)
                &&& native(nx, ny, w, h, DisplayRotation::Rotate180) == (x, y)
                &&& painted(buf, w, h, DisplayRotation::Rotate180, x, y, c)
                    == painted(buf, w, h, DisplayRotation::Rotate0, nx, ny, c)
            },
        painted(buf, w, h, DisplayRotation::Rotate0, 0, 0, c)
            == painted(buf, w, h, DisplayRotation::Rotate180, w - 1, h - 1, c),
        painted(buf, w, h, DisplayRotation::Rotate0, w - 1, h - 1, c)
            == painted(buf, w, h, DisplayRotation::Rotate180, 0, 0, c),
{
}

/// Drawing at a point off the panel leaves the buffer exactly as it was.
pub proof fn lemma_clipped(
    buf: Seq<u8>,
    w: int,
    h: int,
    r: DisplayRotation,
    x: int,
    y: int,
    c: OctColor,
)
    requires
        !in_view(x, y, w, h, r),
    ensures
        painted(buf, w, h, r, x, y, c) == buf,
{
}

/// Full size buffer for the panel, or for any other `width`×`height`.
pub struct InkyFrameDisplay {
    buffer: Vec<u8>,
    width: u32,
    height: u32,
    rotation: DisplayRotation,
}

impl View for InkyFrameDisplay {
    type V = Seq<u8>;

    closed spec fn view(&self) -> Seq<u8> {
        self.buffer@
    }
}

impl InkyFrameDisplay {
    /// Width in native pixels.
    pub closed spec fn spec_width(&self) -> u32 {
        self.width
    }

    /// Height in native pixels.
    pub closed spec fn spec_height(&self) -> u32 {
        self.height
    }

    /// The rotation that pixel writes go through.
    pub closed spec fn spec_rotation(&self) -> DisplayRotation {
        self.rotation
    }

    /// A `width`×`height` buffer of `width / 2 * height` bytes, every pixel
    /// `background`, unrotated.
    pub fn new(width: u32, height: u32, background: OctColor) -> (r: InkyFrameDisplay)
        requires
            (width / 2) as int * height as int <= usize::MAX,
        ensures
            r@ == Seq::new(((width / 2) as int * height as int) as nat, |_i: int| pack(background, background)),
            r.spec_width() == width,
            r.spec_height() == height,
            r.spec_rotation() == DisplayRotation::Rotate0,
    {
        let n: usize = ((width / 2) as usize) * (height as usize);
        let byte = OctColor::colors_byte(background, background);
        let mut buffer: Vec<u8> = Vec::new();
        let mut i: usize = 0;
        while i < n
            invariant
                i <= n,
                buffer@ == Seq::new(i as nat, |_i: int| byte),
            decreases n - i,
        {
            buffer.push(byte);
            i = i + 1;
            assert(buffer@ =~= Seq::new(i as nat, |_i: int| byte));
        }
        InkyFrameDisplay { buffer, width, height, rotation: DisplayRotation::Rotate0 }
    }

    /// A `width`×`height` panel over a buffer the caller filled; a pixel
    /// whose byte lies past its end is never drawn.
    pub fn with_buffer(width: u32, height: u32, buffer: Vec<u8>) -> (r: InkyFrameDisplay)
        ensures
            r@ == buffer@,
            r.spec_width() == width,
            r.spec_height() == height,
            r.spec_rotation() == DisplayRotation::Rotate0,
    {
        InkyFrameDisplay { buffer, width, height, rotation: DisplayRotation::Rotate0 }
    }

    /// Clears the buffer with the chosen background colour.
    pub fn clear_buffer(&mut self, background_color: OctColor)
        ensures
            final(self)@ == Seq::new(old(self)@.len(), |_i: int| pack(background_color, background_color)),
            final(self).spec_width() == old(self).spec_width(),
            final(self).spec_height() == old(self).spec_height(),
            final(self).spec_rotation() == old(self).spec_rotation(),
    {
        let byte = OctColor::colors_byte(background_color, background_color);
        let n = self.buffer.len();
        let mut i: usize = 0;
        while i < n
            invariant
                i <= n,
                n == old(self).buffer@.len(),
                self.buffer@.len() == n,
                self.width == old(self).width,
                self.height == old(self).height,
                self.rotation == old(self).rotation,
                forall|j: int| 0 <= j < i ==> self.buffer@[j] == byte,
            decreases n - i,
        {
            self.buffer.set(i, byte);
            i = i + 1;
        }
        assert(self.buffer@ =~= Seq::new(n as nat, |_i: int| byte));
    }

    /// Returns the buffer.
    pub fn buffer(&self) -> (r: &[u8])
        ensures
            r@ == self@,
    {
        self.buffer.as_slice()
    }

    /// Sets the rotation that later pixel writes go through; bytes already
    /// written stay as they are.
    pub fn set_rotation(&mut self, rotation: DisplayRotation)
        ensures
            final(self)@ == old(self)@,
            final(self).spec_width() == old(self).spec_width(),
            final(self).spec_height() == old(self).spec_height(),
            final(self).spec_rotation() == rotation,
    {
        self.rotation = rotation;
    }

    /// Gets the current rotation of the display.
    pub fn rotation(&self) -> (r: DisplayRotation)
        ensures
            r == self.spec_rotation(),
    {
        self.rotation
    }

    /// Width in native pixels.
    pub fn width(&self) -> (r: u32)
        ensures
            r == self.spec_width(),
    {
        self.width
    }

    /// Height in native pixels.
    pub fn height(&self) -> (r: u32)
        ensures
            r == self.spec_height(),
    {
        self.height
    }

    /// Draws `color` at `(x, y)` of the rotated frame, changing only the
    /// nibble of that pixel. A point off the panel is dropped silently.
    pub fn set_pixel(&mut self, x: i32, y: i32, color: OctColor)
        ensures
            final(self)@ == painted(
                old(self)@,
                old(self).spec_width() as int,
                old(self).spec_height() as int,
                old(self).spec_rotation(),
                x as int,
                y as int,
                color,
            ),
            final(self).spec_width() == old(self).spec_width(),
            final(self).spec_height() == old(self).spec_height(),
            final(self).spec_rotation() == old(self).spec_rotation(),
    {
        let width = self.width;
        let height = self.height;
        let rotation = self.rotation;
        if outside_display(x, y, width, height, rotation) {
            return;
        }
        let (index, upper) = find_oct_position(x as u32, y as u32, width, height, rotation);
        let nibble = color.get_nibble();
        if index < self.buffer.len() as u64 {
            let i = index as usize;
            let old_byte = self.buffer[i];
            let new_byte = if upper {
                (old_byte & 0x0f) | (nibble << 4)
            } else {
                (old_byte & 0xf0) | nibble
            };
            self.buffer.set(i, new_byte);
        }
    }
}

impl Default for InkyFrameDisplay {
    fn default() -> (r: InkyFrameDisplay)
        ensures
            r@ == Seq::new(
                (WIDTH / 2) as nat * HEIGHT as nat,
                |_i: int| pack(DEFAULT_BACKGROUND_COLOR, DEFAULT_BACKGROUND_COLOR),
            ),
            r.spec_width() == WIDTH,
            r.spec_height() == HEIGHT,
            r.spec_rotation() == DisplayRotation::Rotate0,
    {
        InkyFrameDisplay::new(WIDTH, HEIGHT, DEFAULT_BACKGROUND_COLOR)
    }
}

/// Whether `(x, y)` of the rotated frame lies off the panel.
fn outside_display(x: i32, y: i32, width: u32, height: u32, rotation: DisplayRotation) -> (r: bool)
    ensures
        r == !in_view(x as int, y as int, width as int, height as int, rotation),
{
    if x < 0 || y < 0 {
        return true;
    }
    let (x, y) = (x as u32, y as u32);
    match rotation {
        DisplayRotation::Rotate0 | DisplayRotation::Rotate180 => x >= width || y >= height,
        DisplayRotation::Rotate90 | DisplayRotation::Rotate270 => y >= width || x >= height,
    }
}

/// The byte index of a point on the panel, and whether its pixel sits in
/// the high nibble.
fn find_oct_position(x: u32, y: u32, width: u32, height: u32, rotation: DisplayRotation) -> (r: (
    u64,
    bool,
))
    requires
        in_view(x as int, y as int, width as int, height as int, rotation),
    ensures
        ({
            let (nx, ny) = native(x as int, y as int, width as int, height as int, rotation);
            r.0 == byte_index(nx, ny, width as int) && r.1 == (nx % 2 == 0)
        }),
{
    let (new_x, new_y) = find_rotation(x, y, width, height, rotation);
    let half: u64 = (width / 2) as u64;
    proof {
        assert(half * (new_y as u64) <= 0xffff_ffff * 0xffff_ffff) by (nonlinear_arith)
            requires
                half <= 0xffff_ffff,
                new_y <= 0xffff_ffff,
        ;
    }
    ((new_x / 2) as u64 + half * (new_y as u64), new_x % 2 == 0)
}

/// The native coordinates of a point on the panel.
fn find_rotation(x: u32, y: u32, width: u32, height: u32, rotation: DisplayRotation) -> (r: (
    u32,
    u32,
))
    requires
        in_view(x as int, y as int, width as int, height as int, rotation),
    ensures
        (r.0 as int, r.1 as int) == native(x as int, y as int, width as int, height as int, rotation),
{
    match rotation {
        DisplayRotation::Rotate0 => (x, y),
        DisplayRotation::Rotate90 => (width - 1 - y, x),
        DisplayRotation::Rotate180 => (width - 1 - x, height - 1 - y),
        DisplayRotation::Rotate270 => (y, height - 1 - x),
    }
}

} // verus!
