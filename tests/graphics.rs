use epd3in71bw::{Color, Display3in71, DisplayRotation, BUFFER_LEN, DEFAULT_BACKGROUND_COLOR, HEIGHT, WIDTH};

fn draw_line(display: &mut Display3in71, from: (i32, i32), to: (i32, i32), color: Color) {
    let (x0, y0) = from;
    let (x1, y1) = to;
    if x0 == x1 {
        for y in y0.min(y1)..=y0.max(y1) {
            display.draw_pixel(x0, y, color);
        }
    } else {
        for x in x0.min(x1)..=x0.max(x1) {
            display.draw_pixel(x, y0, color);
        }
    }
}

fn assert_only_first_byte_black(display: &Display3in71) {
    let buffer = display.buffer();
    assert_eq!(buffer[0], Color::Black.get_byte_value());
    for &byte in buffer.iter().skip(1) {
        assert_eq!(byte, DEFAULT_BACKGROUND_COLOR.get_byte_value());
    }
}

// test buffer length
#[test]
fn graphics_size() {
    let display = Display3in71::default();
    assert_eq!(display.buffer().len(), 12480);
}

// test default background color on all bytes
#[test]
fn graphics_default() {
    let display = Display3in71::default();
    for &byte in display.buffer() {
        assert_eq!(byte, DEFAULT_BACKGROUND_COLOR.get_byte_value());
    }
}

#[test]
fn graphics_rotation_0() {
    let mut display = Display3in71::default();
    draw_line(&mut display, (0, 0), (7, 0), Color::Black);
    assert_only_first_byte_black(&display);
}

#[test]
fn graphics_rotation_90() {
    let mut display = Display3in71::default();
    display.set_rotation(DisplayRotation::Rotate90);
    draw_line(&mut display, (0, 232), (0, 239), Color::Black);
    assert_only_first_byte_black(&display);
}

#[test]
fn graphics_rotation_180() {
    let mut display = Display3in71::default();
    display.set_rotation(DisplayRotation::Rotate180);
    draw_line(&mut display, (232, 415), (239, 415), Color::Black);
    assert_only_first_byte_black(&display);
}

#[test]
fn graphics_rotation_270() {
    let mut display = Display3in71::default();
    display.set_rotation(DisplayRotation::Rotate270);
    draw_line(&mut display, (415, 0), (415, 7), Color::Black);
    assert_only_first_byte_black(&display);
}

#[test]
fn buffer_length_is_kept_under_every_rotation() {
    for rotation in [
        DisplayRotation::Rotate0,
        DisplayRotation::Rotate90,
        DisplayRotation::Rotate180,
        DisplayRotation::Rotate270,
    ] {
        let mut display = Display3in71::new();
        display.set_rotation(rotation);
        assert_eq!(display.rotation(), rotation);
        assert_eq!(display.buffer().len(), (WIDTH * HEIGHT / 8) as usize);
        assert_eq!(display.buffer().len(), BUFFER_LEN as usize);
        assert!(display.buffer().iter().all(|&b| b == 0xff));
    }
}

#[test]
fn origin_pixel_clears_top_bit_of_first_byte() {
    let mut display = Display3in71::new();
    display.draw_pixel(0, 0, Color::Black);
    assert_eq!(display.buffer()[0], 0x7f);
    assert!(display.buffer()[1..].iter().all(|&b| b == 0xff));
}

#[test]
fn single_pixel_under_rotations_lands_on_rotated_spot() {
    // (x, y) = (3, 5): physical (3, 5) unrotated.
    let mut d0 = Display3in71::new();
    d0.draw_pixel(3, 5, Color::Black);
    assert_eq!(d0.buffer()[5 * 30], 0xef);

    // Rotate90: physical (239 - 5, 3) = (234, 3): byte 29 + 90, bit 2.
    let mut d90 = Display3in71::new();
    d90.set_rotation(DisplayRotation::Rotate90);
    d90.draw_pixel(3, 5, Color::Black);
    assert_eq!(d90.buffer()[29 + 3 * 30], 0xdf);

    // Rotate180: physical (236, 410): byte 29 + 410 * 30, bit 4.
    let mut d180 = Display3in71::new();
    d180.set_rotation(DisplayRotation::Rotate180);
    d180.draw_pixel(3, 5, Color::Black);
    assert_eq!(d180.buffer()[29 + 410 * 30], 0xf7);

    // Rotate270: physical (5, 412): byte 412 * 30, bit 5.
    let mut d270 = Display3in71::new();
    d270.set_rotation(DisplayRotation::Rotate270);
    d270.draw_pixel(3, 5, Color::Black);
    assert_eq!(d270.buffer()[412 * 30], 0xfb);

    for d in [&d0, &d90, &d180, &d270] {
        let changed = d.buffer().iter().filter(|&&b| b != 0xff).count();
        assert_eq!(changed, 1);
    }
}

#[test]
fn pixels_off_the_panel_are_ignored() {
    let mut display = Display3in71::new();
    display.draw_pixel(-1, 0, Color::Black);
    display.draw_pixel(0, -1, Color::Black);
    display.draw_pixel(240, 0, Color::Black);
    display.draw_pixel(0, 416, Color::Black);
    display.set_rotation(DisplayRotation::Rotate90);
    display.draw_pixel(0, 240, Color::Black);
    display.draw_pixel(416, 0, Color::Black);
    assert!(display.buffer().iter().all(|&b| b == 0xff));
}

#[test]
fn white_pixel_sets_its_bit_again() {
    let mut display = Display3in71::new();
    display.draw_pixel(9, 0, Color::Black);
    assert_eq!(display.buffer()[1], 0xbf);
    display.draw_pixel(9, 0, Color::White);
    assert_eq!(display.buffer()[1], 0xff);
}

#[test]
fn mutable_buffer_writes_through() {
    let mut display = Display3in71::new();
    display.get_mut_buffer()[7] = 0x12;
    assert_eq!(display.buffer()[7], 0x12);
    assert_eq!(display.size(), (240, 416));
}
