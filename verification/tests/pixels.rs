use touchboard::neopixel::{Rainbow, Rgb, Rgbw};

fn positions(rainbow: &Rainbow) -> Vec<u8> {
    (0..6).map(|i| rainbow.position(i)).collect()
}

#[test]
fn pixels_are_spread_over_the_wheel() {
    let rainbow = Rainbow::new();
    assert_eq!(positions(&rainbow), vec![0, 42, 85, 128, 170, 213]);
}

#[test]
fn a_tick_moves_every_pixel_by_two() {
    let mut rainbow = Rainbow::new();
    rainbow.advance();
    assert_eq!(positions(&rainbow), vec![2, 44, 87, 130, 172, 215]);
    for _ in 0..21 {
        rainbow.advance();
    }
    assert_eq!(positions(&rainbow), vec![44, 86, 129, 172, 214, 1]);
}

#[test]
fn the_rainbow_repeats() {
    let mut rainbow = Rainbow::new();
    rainbow.advance();
    let before = positions(&rainbow);
    for n in 1..=128 {
        rainbow.advance();
        assert_eq!(positions(&rainbow) == before, n == 128);
    }
}

#[test]
fn a_frame_asks_the_wheel_for_each_position() {
    let mut rainbow = Rainbow::new();
    rainbow.advance();
    let frame = rainbow.frame(|p| Rgb { r: p, g: 255 - p, b: 7 });
    assert_eq!(frame[0], Rgbw { r: 2, g: 253, b: 7, w: 0 });
    assert_eq!(frame[5], Rgbw { r: 215, g: 40, b: 7, w: 0 });
    for (i, pixel) in frame.iter().enumerate() {
        assert_eq!(pixel.r, rainbow.position(i));
        assert_eq!(pixel.w, 0);
    }
}
