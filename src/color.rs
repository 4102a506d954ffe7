//! The panel's quantised colour space: eight colours, each a 3-bit code
//! that travels on the wire as one nibble.
use vstd::prelude::*;

verus! {

/// Raised when a nibble does not name one of the eight colours.
#[derive(Debug, PartialEq, Eq, Structural)]
pub struct OutOfColorRangeParseError(pub u8);

/// The colours the panel can show.
#[derive(Clone, Copy, PartialEq, Eq, Debug, Structural)]
pub enum OctColor {
    /// Black Color
    Black,
    /// White Color
    White,
    /// Green Color
    Green,
    /// Blue Color
    Blue,
    /// Red Color
    Red,
    /// Yellow Color
    Yellow,
    /// Orange Color
    Orange,
    /// HiZ / Clean Color
    HiZ,
}

/// The on-wire code of a colour.
pub open spec fn code(c: OctColor) -> u8 {
    match c {
        OctColor::Black => 0,
        OctColor::White => 1,
        OctColor::Green => 2,
        OctColor::Blue => 3,
        OctColor::Red => 4,
        OctColor::Yellow => 5,
        OctColor::Orange => 6,
        OctColor::HiZ => 7,
    }
}

/// The colour whose code is `n` (meaningful for `n < 8`).
pub open spec fn color_of(n: u8) -> OctColor {
    if n == 0 {
        OctColor::Black
    } else if n == 1 {
        OctColor::White
    } else if n == 2 {
        OctColor::Green
    } else if n == 3 {
        OctColor::Blue
    } else if n == 4 {
        OctColor::Red
    } else if n == 5 {
        OctColor::Yellow
    } else if n == 6 {
        OctColor::Orange
    } else {
        OctColor::HiZ
    }
}

/// Two colours packed into one byte: the first in the high nibble.
pub open spec fn pack(high: OctColor, low: OctColor) -> u8 {
    ((code(high) << 4u8) | code(low)) as u8
}

/// What decoding a nibble gives: only the low four bits are read.
pub open spec fn decode(nibble: u8) -> Result<OctColor, OutOfColorRangeParseError> {
    let n = (nibble & 0xf) as u8;
    if n < 8 {
        Ok(color_of(n))
    } else {
        Err(OutOfColorRangeParseError(n))
    }
}

/// What splitting a byte gives: the low nibble is checked first.
pub open spec fn split(byte: u8) -> Result<(OctColor, OctColor), OutOfColorRangeParseError> {
    match decode((byte & 0xf) as u8) {
        Err(e) => Err(e),
        Ok(low) => match decode(((byte >> 4u8) & 0xf) as u8) {
            Err(e) => Err(e),
            Ok(high) => Ok((high, low)),
        },
    }
}

/// The approximate RGB triple that stands for a colour.
pub open spec fn rgb_of(c: OctColor) -> (u8, u8, u8) {
    match c {
        OctColor::White => (0xff, 0xff, 0xff),
        OctColor::Black => (0x00, 0x00, 0x00),
        OctColor::Green => (0x00, 0xff, 0x00),
        OctColor::Blue => (0x00, 0x00, 0xff),
        OctColor::Red => (0xff, 0x00, 0x00),
        OctColor::Yellow => (0xff, 0xff, 0x00),
        OctColor::Orange => (0xff, 0x80, 0x00),
        OctColor::HiZ => (0x80, 0x80, 0x80),
    }
}

/// Squared Euclidean distance between two RGB triples.
pub open spec fn dist(a: (u8, u8, u8), b: (u8, u8, u8)) -> int {
    (a.0 - b.0) * (a.0 - b.0) + (a.1 - b.1) * (a.1 - b.1) + (a.2 - b.2) * (a.2 - b.2)
}

/// `c` is the palette colour closest to `p`, the first in palette order
/// among equally close ones.
pub open spec fn is_nearest(c: OctColor, p: (u8, u8, u8)) -> bool {
    &&& forall|d: OctColor| dist(rgb_of(c), p) <= #[trigger] dist(rgb_of(d), p)
    &&& forall|d: OctColor| code(d) < code(c) ==> dist(rgb_of(c), p) < #[trigger] dist(rgb_of(d), p)
}

impl OctColor {
    /// Gets the nibble representation of the colour as needed by the display.
    pub fn get_nibble(self) -> (r: u8)
        ensures
            r == code(self),
    {
        match self {
            OctColor::Black => 0,
            OctColor::White => 1,
            OctColor::Green => 2,
            OctColor::Blue => 3,
            OctColor::Red => 4,
            OctColor::Yellow => 5,
            OctColor::Orange => 6,
            OctColor::HiZ => 7,
        }
    }

    /// Converts two colours into a single byte for the display.
    pub fn colors_byte(a: OctColor, b: OctColor) -> (r: u8)
        ensures
            r == pack(a, b),
    {
        a.get_nibble() << 4 | b.get_nibble()
    }

    /// Takes the nibble (lower 4 bits) and converts it to a colour if possible.
    pub fn from_nibble(nibble: u8) -> (r: Result<OctColor, OutOfColorRangeParseError>)
        ensures
            r == decode(nibble),
    {
        let n = nibble & 0xf;
        match n {
            0x00 => Ok(OctColor::Black),
            0x01 => Ok(OctColor::White),
            0x02 => Ok(OctColor::Green),
            0x03 => Ok(OctColor::Blue),
            0x04 => Ok(OctColor::Red),
            0x05 => Ok(OctColor::Yellow),
            0x06 => Ok(OctColor::Orange),
            0x07 => Ok(OctColor::HiZ),
            e => Err(OutOfColorRangeParseError(e)),
        }
    }

    /// Splits the nibbles of a byte and converts both to colours if possible;
    /// the pair is (high, low).
    pub fn split_byte(byte: u8) -> (r: Result<(OctColor, OctColor), OutOfColorRangeParseError>)
        ensures
            r == split(byte),
    {
        let low = match OctColor::from_nibble(byte & 0xf) {
            Ok(c) => c,
            Err(e) => return Err(e),
        };
        let high = match OctColor::from_nibble((byte >> 4) & 0xf) {
            Ok(c) => c,
            Err(e) => return Err(e),
        };
        Ok((high, low))
    }

    /// Maps a two-level colour: a lit pixel is Black, an unlit one White.
    pub fn from_binary(on: bool) -> (r: OctColor)
        ensures
            r == (if on {
                OctColor::Black
            } else {
                OctColor::White
            }),
    {
        if on {
            OctColor::Black
        } else {
            OctColor::White
        }
    }

    /// Converts to the limited range of RGB values.
    pub fn rgb(self) -> (r: (u8, u8, u8))
        ensures
            r == rgb_of(self),
    {
        match self {
            OctColor::White => (0xff, 0xff, 0xff),
            OctColor::Black => (0x00, 0x00, 0x00),
            OctColor::Green => (0x00, 0xff, 0x00),
            OctColor::Blue => (0x00, 0x00, 0xff),
            OctColor::Red => (0xff, 0x00, 0x00),
            OctColor::Yellow => (0xff, 0xff, 0x00),
            OctColor::Orange => (0xff, 0x80, 0x00),
            OctColor::HiZ => (0x80, 0x80, 0x80),
        }
    }

    /// Snaps an RGB triple to the nearest palette colour by squared
    /// Euclidean distance; ties go to the colour that comes first in palette
    /// order (Black first). A triple that is exactly a palette colour's
    /// triple gives that colour.
    pub fn nearest(rgb: (u8, u8, u8)) -> (r: OctColor)
        ensures
            is_nearest(r, rgb),
            forall|c: OctColor| rgb_of(c) == rgb ==> r == c,
    {
        let mut best = OctColor::Black;
        let mut best_d = distance(best.rgb(), rgb);
        let mut i: u8 = 1;
        while i < 8
            invariant
                1 <= i <= 8,
                code(best) < i,
                best_d == dist(rgb_of(best), rgb),
                forall|d: OctColor| code(d) < i ==> best_d <= #[trigger] dist(rgb_of(d), rgb),
                forall|d: OctColor| code(d) < code(best) ==> best_d < #[trigger] dist(rgb_of(d), rgb),
            decreases 8 - i,
        {
            let c = palette(i);
            let d = distance(c.rgb(), rgb);
            if d < best_d {
                best = c;
                best_d = d;
            }
            i = i + 1;
        }
        proof {
            assert forall|c: OctColor| rgb_of(c) == rgb implies best == c by {
                lemma_dist_zero(rgb_of(c), rgb);
                lemma_dist_zero(rgb_of(best), rgb);
            }
        }
        best
    }
}

/// Every colour survives encoding to its nibble and decoding back, and
/// every nibble from 0 to 7 survives decoding to a colour and encoding back.
pub proof fn lemma_code_round_trip(c: OctColor, n: u8)
    ensures
        decode(code(c)) == Ok::<OctColor, OutOfColorRangeParseError>(c),
        n < 8 ==> decode(n) == Ok::<OctColor, OutOfColorRangeParseError>(color_of(n)),
        n < 8 ==> code(color_of(n)) == n,
{
    let k = code(c);
    assert(k < 8 ==> k & 0xf == k) by (bit_vector);
    assert(n < 8 ==> n & 0xf == n) by (bit_vector);
}

/// A nibble from 8 to 15 is refused, and the error carries that nibble.
pub proof fn lemma_out_of_range(n: u8)
    requires
        8 <= n <= 15,
    ensures
        decode(n) == Err::<OctColor, OutOfColorRangeParseError>(OutOfColorRangeParseError(n)),
{
    assert(8 <= n <= 15 ==> n & 0xf == n) by (bit_vector);
}

/// Splitting a packed byte gives back the two colours that were packed.
pub proof fn lemma_pack_split(high: OctColor, low: OctColor)
    ensures
        split(pack(high, low)) == Ok::<(OctColor, OctColor), OutOfColorRangeParseError>((high, low)),
{
    let (h, l) = (code(high), code(low));
    let b = pack(high, low);
    assert(h < 8 && l < 8 ==> (((h << 4u8) | l) as u8) & 0xf == l) by (bit_vector);
    assert(h < 8 && l < 8 ==> (((((h << 4u8) | l) as u8) >> 4u8) & 0xf) == h) by (bit_vector);
    lemma_code_round_trip(high, 0);
    lemma_code_round_trip(low, 0);
}

/// The distance is zero exactly between equal triples.
proof fn lemma_dist_zero(a: (u8, u8, u8), b: (u8, u8, u8))
    ensures
        (dist(a, b) == 0) == (a == b),
{
    let (x, y, z) = ((a.0 - b.0) as int, (a.1 - b.1) as int, (a.2 - b.2) as int);
    assert(x * x >= 0 && y * y >= 0 && z * z >= 0) by (nonlinear_arith);
    assert(x != 0 ==> x * x > 0) by (nonlinear_arith);
    assert(y != 0 ==> y * y > 0) by (nonlinear_arith);
    assert(z != 0 ==> z * z > 0) by (nonlinear_arith);
}

/// Square of the difference of two channel values.
fn square_diff(a: u8, b: u8) -> (r: u32)
    ensures
        r == (a - b) * (a - b),
        r <= 255 * 255,
{
    let d: u32 = if a >= b {
        (a - b) as u32
    } else {
        (b - a) as u32
    };
    proof {
        assert(d * d <= 255 * 255) by (nonlinear_arith)
            requires
                d <= 255,
        ;
        assert(d * d == (a - b) * (a - b)) by (nonlinear_arith)
            requires
                d == a - b || d == b - a,
        ;
    }
    d * d
}

/// Squared distance between two RGB triples.
fn distance(a: (u8, u8, u8), b: (u8, u8, u8)) -> (r: u32)
    ensures
        r == dist(a, b),
{
    square_diff(a.0, b.0) + square_diff(a.1, b.1) + square_diff(a.2, b.2)
}

/// The colour with code `n`, for `n` below eight.
fn palette(n: u8) -> (r: OctColor)
    requires
        n < 8,
    ensures
        r == color_of(n),
        code(r) == n,
{
    assert(n & 0xf == n) by (bit_vector)
        requires
            n < 8,
    ;
    match OctColor::from_nibble(n) {
        Ok(c) => c,
        Err(_) => OctColor::HiZ,
    }
}

} // verus!
