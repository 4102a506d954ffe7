use inky_frame::{DisplayRotation, InkyFrameDisplay, OctColor, HEIGHT, WIDTH};

const ROTATIONS: [DisplayRotation; 4] = [
    DisplayRotation::Rotate0,
    DisplayRotation::Rotate90,
    DisplayRotation::Rotate180,
    DisplayRotation::Rotate270,
];

#[test]
fn toy_buffer_scenario() {
    let mut d = InkyFrameDisplay::with_buffer(4, 2, vec![0x00, 0x00]);
    assert_eq!(d.buffer(), &[0x00, 0x00]);
    d.clear_buffer(OctColor::White);
    assert_eq!(d.buffer(), &[0x11, 0x11]);
    d.set_pixel(0, 0, OctColor::Black);
    assert_eq!(d.buffer(), &[0x01, 0x11]);
    d.set_pixel(1, 0, OctColor::Green);
    assert_eq!(d.buffer(), &[0x02, 0x11]);
}

#[test]
fn default_is_full_size_white() {
    let d = InkyFrameDisplay::default();
    assert_eq!(d.buffer().len(), (WIDTH / 2 * HEIGHT) as usize);
    assert!(d.buffer().iter().all(|b| *b == 0x11));
    assert_eq!(d.width(), 600);
    assert_eq!(d.height(), 448);
    assert_eq!(d.rotation(), DisplayRotation::Rotate0);
}

fn nibble(buf: &[u8], nx: u32, ny: u32, w: u32) -> u8 {
    let b = buf[(nx / 2 + (w / 2) * ny) as usize];
    if nx % 2 == 0 {
        b >> 4
    } else {
        b & 0x0f
    }
}

#[test]
fn written_pixel_reads_back_in_every_rotation() {
    let (w, h) = (6u32, 4u32);
    for r in ROTATIONS {
        let (vw, vh) = match r {
            DisplayRotation::Rotate0 | DisplayRotation::Rotate180 => (w, h),
            _ => (h, w),
        };
        for x in 0..vw {
            for y in 0..vh {
                let mut d = InkyFrameDisplay::new(w, h, OctColor::White);
                d.set_rotation(r);
                let before = d.buffer().to_vec();
                d.set_pixel(x as i32, y as i32, OctColor::Red);
                let (nx, ny) = match r {
                    DisplayRotation::Rotate0 => (x, y),
                    DisplayRotation::Rotate90 => (w - 1 - y, x),
                    DisplayRotation::Rotate180 => (w - 1 - x, h - 1 - y),
                    DisplayRotation::Rotate270 => (y, h - 1 - x),
                };
                let after = d.buffer();
                assert_eq!(OctColor::from_nibble(nibble(after, nx, ny, w)), Ok(OctColor::Red));
                assert_eq!(nibble(after, nx ^ 1, ny, w), nibble(&before, nx ^ 1, ny, w));
                let i = (nx / 2 + (w / 2) * ny) as usize;
                for j in 0..after.len() {
                    if j != i {
                        assert_eq!(after[j], before[j]);
                    }
                }
            }
        }
    }
}

#[test]
fn half_turn_swaps_corners() {
    let (w, h) = (4u32, 2u32);
    let mut a = InkyFrameDisplay::new(w, h, OctColor::White);
    a.set_pixel(0, 0, OctColor::Blue);
    let mut b = InkyFrameDisplay::new(w, h, OctColor::White);
    b.set_rotation(DisplayRotation::Rotate180);
    b.set_pixel((w - 1) as i32, (h - 1) as i32, OctColor::Blue);
    assert_eq!(a.buffer(), b.buffer());
    assert_eq!(a.buffer(), &[0x31, 0x11, 0x11, 0x11]);

    let mut c = InkyFrameDisplay::new(w, h, OctColor::White);
    c.set_pixel((w - 1) as i32, (h - 1) as i32, OctColor::Blue);
    let mut d = InkyFrameDisplay::new(w, h, OctColor::White);
    d.set_rotation(DisplayRotation::Rotate180);
    d.set_pixel(0, 0, OctColor::Blue);
    assert_eq!(c.buffer(), d.buffer());
    assert_eq!(c.buffer(), &[0x11, 0x11, 0x11, 0x13]);
}

#[test]
fn quarter_turn_addressing() {
    let (w, h) = (4u32, 2u32);
    let mut d = InkyFrameDisplay::new(w, h, OctColor::White);
    d.set_rotation(DisplayRotation::Rotate90);
    // (0, 0) under a quarter turn is native (w - 1, 0).
    d.set_pixel(0, 0, OctColor::Green);
    assert_eq!(d.buffer(), &[0x11, 0x12, 0x11, 0x11]);
    let mut e = InkyFrameDisplay::new(w, h, OctColor::White);
    e.set_rotation(DisplayRotation::Rotate270);
    // (0, 0) under three quarter turns is native (0, h - 1).
    e.set_pixel(0, 0, OctColor::Green);
    assert_eq!(e.buffer(), &[0x11, 0x11, 0x21, 0x11]);
}

#[test]
fn out_of_bounds_changes_nothing() {
    let (w, h) = (4u32, 2u32);
    for r in ROTATIONS {
        let mut d = InkyFrameDisplay::new(w, h, OctColor::White);
        d.set_rotation(r);
        d.set_pixel(0, 1, OctColor::Black);
        let before = d.buffer().to_vec();
        let (vw, vh) = match r {
            DisplayRotation::Rotate0 | DisplayRotation::Rotate180 => (w as i32, h as i32),
            _ => (h as i32, w as i32),
        };
        for (x, y) in [(vw, 0), (0, vh), (-1, 0), (0, -1), (vw + 5, vh + 5), (i32::MIN, i32::MAX)] {
            d.set_pixel(x, y, OctColor::Red);
            assert_eq!(d.buffer(), &before[..]);
        }
    }
}

#[test]
fn last_write_wins() {
    let mut d = InkyFrameDisplay::new(4, 2, OctColor::White);
    d.set_pixel(3, 1, OctColor::Red);
    d.set_pixel(3, 1, OctColor::Yellow);
    assert_eq!(d.buffer(), &[0x11, 0x11, 0x11, 0x15]);
}

#[test]
fn rotation_does_not_touch_stored_bytes() {
    let mut d = InkyFrameDisplay::new(4, 2, OctColor::White);
    d.set_pixel(2, 0, OctColor::Orange);
    let before = d.buffer().to_vec();
    d.set_rotation(DisplayRotation::Rotate270);
    assert_eq!(d.buffer(), &before[..]);
    assert_eq!(d.rotation(), DisplayRotation::Rotate270);
}

#[test]
fn byte_past_short_buffer_is_dropped() {
    // With an odd width the last pixel's byte lies past the buffer.
    let mut d = InkyFrameDisplay::new(5, 2, OctColor::White);
    assert_eq!(d.buffer().len(), 4);
    d.set_pixel(4, 1, OctColor::Black);
    assert_eq!(d.buffer(), &[0x11, 0x11, 0x11, 0x11]);
}

#[test]
fn clear_overwrites_everything() {
    let mut d = InkyFrameDisplay::new(6, 2, OctColor::White);
    d.set_pixel(1, 1, OctColor::Red);
    d.clear_buffer(OctColor::HiZ);
    assert_eq!(d.buffer(), &[0x77; 6]);
}

#[test]
fn supplied_buffer_shorter_than_panel() {
    let mut d = InkyFrameDisplay::with_buffer(4, 2, vec![0x11, 0x11]);
    d.set_pixel(0, 1, OctColor::Red);
    assert_eq!(d.buffer(), &[0x11, 0x11]);
    d.set_pixel(3, 0, OctColor::Red);
    assert_eq!(d.buffer(), &[0x11, 0x14]);
}
