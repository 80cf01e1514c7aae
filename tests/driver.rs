use epd3in71bw::{
    Color, Command, Display3in71, EPD3in71bw, EpdError, RefreshLut, Signal, Step, WaveformSet,
    BUFFER_LEN, DEFAULT_BACKGROUND_COLOR, HEIGHT, WIDTH,
};

fn tables(tag: u8) -> WaveformSet {
    WaveformSet {
        vcom: vec![tag, 0x01],
        white_to_white: vec![tag, 0x02],
        black_to_white: vec![tag, 0x03],
        white_to_black: vec![tag, 0x04],
        black_to_black: vec![tag, 0x05],
    }
}

fn driver() -> EPD3in71bw {
    EPD3in71bw::new(tables(0xf0), tables(0x0f)).0
}

/// Each bus write, with whether it went out as data.
fn wire(epd: &EPD3in71bw, steps: &[Step]) -> Vec<(bool, Vec<u8>)> {
    let mut dc = false;
    let mut out = Vec::new();
    for step in steps {
        for signal in epd.frame_step(step) {
            match signal {
                Signal::DataCommand(level) => dc = level,
                Signal::Write(bytes) => out.push((dc, bytes)),
                Signal::WriteRepeated(b, n) => out.push((dc, vec![b; n as usize])),
                _ => {}
            }
        }
    }
    out
}

fn cmd(c: u8) -> (bool, Vec<u8>) {
    (false, vec![c])
}

fn data(d: &[u8]) -> (bool, Vec<u8>) {
    (true, d.to_vec())
}

/// The image a panel shows after these steps, starting from `shown`.
fn shown_after(steps: &[Step], shown: Vec<u8>) -> Vec<u8> {
    let (mut old, mut new, mut shown) = (Vec::new(), Vec::new(), shown);
    let mut target = 0u8;
    for step in steps {
        match step {
            Step::Command(Command::DataStartTransmission1) => {
                target = 1;
                old.clear();
            }
            Step::Command(Command::DataStartTransmission2) => {
                target = 2;
                new.clear();
            }
            Step::Command(Command::DisplayRefresh) => {
                target = 0;
                shown = new.clone();
            }
            Step::Command(_) => target = 0,
            Step::Data(d) => match target {
                1 => old.extend_from_slice(d),
                2 => new.extend_from_slice(d),
                _ => {}
            },
            Step::DataRepeated(b, n) => match target {
                1 => old.extend(std::iter::repeat(*b).take(*n as usize)),
                2 => new.extend(std::iter::repeat(*b).take(*n as usize)),
                _ => {}
            },
            _ => {}
        }
    }
    let _ = old;
    shown
}

#[test]
fn epd_size() {
    assert_eq!(WIDTH, 240);
    assert_eq!(HEIGHT, 416);
    assert_eq!(DEFAULT_BACKGROUND_COLOR, Color::White);
}

#[test]
fn new_runs_the_power_on_sequence() {
    let (epd, steps) = EPD3in71bw::new(tables(1), tables(2));
    assert_eq!(steps[0], Step::Reset(200));
    assert_eq!(steps[6], Step::DelayMs(5));
    assert_eq!(steps[7], Step::WaitUntilIdle);
    assert_eq!(steps.last(), Some(&Step::WaitUntilIdle));
    assert_eq!(
        wire(&epd, &steps),
        vec![
            cmd(0x01),
            data(&[0x03, 0x00, 0x2b, 0x2b, 0xff]),
            cmd(0x06),
            data(&[0x17, 0x17, 0x1d]),
            cmd(0x04),
            cmd(0x00),
            data(&[0x1f]),
            cmd(0x50),
            data(&[0x23, 0x07]),
            cmd(0x61),
            data(&[0xf0]),
            data(&[0x01]),
            data(&[0xa0]),
        ]
    );
    assert_eq!(*epd.background_color(), Color::White);
    assert_eq!(epd.width(), 240);
    assert_eq!(epd.height(), 416);
}

#[test]
fn wake_up_repeats_init() {
    let (epd, steps) = EPD3in71bw::new(tables(1), tables(2));
    assert_eq!(epd.wake_up(), steps);
    assert_eq!(epd.init(), steps);
}

#[test]
fn sleep_sequence_in_order() {
    let epd = driver();
    let steps = epd.sleep();
    assert_eq!(steps.len(), 14);
    assert_eq!(steps[0], Step::WaitUntilIdle);
    assert_eq!(steps[11], Step::WaitUntilIdle);
    assert_eq!(
        wire(&epd, &steps),
        vec![
            cmd(0x50),
            data(&[0x17]),
            cmd(0x82),
            cmd(0x00),
            cmd(0x01),
            data(&[0x00]),
            data(&[0x00]),
            data(&[0x00]),
            data(&[0x00]),
            cmd(0x02),
            cmd(0x07),
            data(&[0xa5]),
        ]
    );
}

#[test]
fn update_frame_sends_fill_then_image() {
    let mut epd = driver();
    epd.set_background_color(Color::Black);
    let image: Vec<u8> = (0..BUFFER_LEN).map(|i| (i % 251) as u8).collect();
    let steps = epd.update_frame(&image).unwrap();
    assert_eq!(
        steps,
        vec![
            Step::WaitUntilIdle,
            Step::Command(Command::DataStartTransmission1),
            Step::DataRepeated(0x00, 12480),
            Step::Command(Command::DataStartTransmission2),
            Step::Data(image.clone()),
        ]
    );
}

#[test]
fn update_frame_rejects_wrong_length() {
    let epd = driver();
    assert_eq!(epd.update_frame(&vec![0xff; 12479]), Err(EpdError::InvalidBufferSize));
    assert_eq!(epd.update_frame(&vec![0xff; 12481]), Err(EpdError::InvalidBufferSize));
    assert_eq!(epd.update_frame(&Vec::new()), Err(EpdError::InvalidBufferSize));
    assert_eq!(
        epd.update_and_display_frame(&vec![0xff; 15000]),
        Err(EpdError::InvalidBufferSize)
    );
}

#[test]
fn update_and_display_refreshes_without_second_wait() {
    let epd = driver();
    let image = vec![0xaa; 12480];
    let mut expected = epd.update_frame(&image).unwrap();
    expected.push(Step::Command(Command::DisplayRefresh));
    assert_eq!(epd.update_and_display_frame(&image).unwrap(), expected);
}

#[test]
fn partial_update_is_unsupported() {
    let epd = driver();
    assert_eq!(
        epd.update_partial_frame(&vec![0; 8], 0, 0, 8, 8),
        Err(EpdError::Unsupported)
    );
}

#[test]
fn display_frame_waits_then_refreshes() {
    let epd = driver();
    assert_eq!(
        epd.display_frame(),
        vec![Step::WaitUntilIdle, Step::Command(Command::DisplayRefresh)]
    );
}

#[test]
fn clear_frame_fills_both_planes() {
    let epd = driver();
    let steps = epd.clear_frame();
    assert_eq!(
        wire(&epd, &steps),
        vec![
            cmd(0x61),
            data(&[0xf0]),
            data(&[0x01]),
            data(&[0xa0]),
            cmd(0x10),
            data(&vec![0xff; 12480]),
            cmd(0x13),
            data(&vec![0xff; 12480]),
        ]
    );
}

#[test]
fn clear_then_display_shows_a_blank_frame() {
    let epd = driver();
    let mut cleared = epd.clear_frame();
    cleared.extend(epd.display_frame());
    let mut fresh = epd.update_frame(&Display3in71::new().buffer().to_vec()).unwrap();
    fresh.extend(epd.display_frame());
    let before = vec![0x5a; 12480];
    let a = shown_after(&cleared, before.clone());
    let b = shown_after(&fresh, before);
    assert_eq!(a, b);
    assert_eq!(a, vec![0xff; 12480]);
}

#[test]
fn lut_reselect_sends_same_full_tables() {
    let mut epd = driver();
    let first = epd.set_lut(Some(RefreshLut::Full));
    let quick = epd.set_lut(Some(RefreshLut::Quick));
    let third = epd.set_lut(Some(RefreshLut::Full));
    assert_eq!(first, third);
    assert_ne!(first, quick);
    assert_eq!(
        wire(&epd, &first),
        vec![
            cmd(0x20),
            data(&[0xf0, 0x01]),
            cmd(0x21),
            data(&[0xf0, 0x02]),
            cmd(0x22),
            data(&[0xf0, 0x03]),
            cmd(0x23),
            data(&[0xf0, 0x04]),
            cmd(0x24),
            data(&[0xf0, 0x05]),
        ]
    );
    assert_eq!(quick[2], Step::Data(vec![0x0f, 0x01]));
    assert_eq!(epd.set_lut(None), third);
}

#[test]
fn busy_is_active_low() {
    let epd = driver();
    assert!(epd.is_busy(false));
    assert!(!epd.is_busy(true));
}

#[test]
fn command_framing_selects_and_releases_the_chip() {
    let epd = driver();
    assert_eq!(
        epd.frame_step(&Step::Command(Command::ResolutionSetting)),
        vec![
            Signal::ChipSelect(false),
            Signal::DataCommand(false),
            Signal::Write(vec![0x61]),
            Signal::ChipSelect(true),
        ]
    );
    assert_eq!(
        epd.frame_step(&Step::Data(vec![1, 2, 3])),
        vec![
            Signal::ChipSelect(false),
            Signal::DataCommand(true),
            Signal::Write(vec![1, 2, 3]),
            Signal::ChipSelect(true),
        ]
    );
    assert_eq!(
        epd.frame_step(&Step::Reset(200)),
        vec![
            Signal::ResetLine(true),
            Signal::DelayMs(10),
            Signal::ResetLine(false),
            Signal::DelayMs(200),
            Signal::ResetLine(true),
            Signal::DelayMs(200),
        ]
    );
    assert_eq!(epd.frame_step(&Step::WaitUntilIdle), vec![Signal::WaitWhileBusy(true)]);
}

#[test]
fn color_bytes_and_opcodes() {
    assert_eq!(Color::White.get_byte_value(), 0xff);
    assert_eq!(Color::Black.get_byte_value(), 0x00);
    assert_eq!(Command::DataStartTransmission1.address(), 0x10);
    assert_eq!(Command::DeepSleep.address(), 0x07);
    assert_eq!(Command::VcmDcSetting.address(), 0x82);
}
