use vstd::prelude::*;
use crate::color::{Color, RefreshLut};
use crate::command::Command;
use crate::interface::{frame, framing, is_busy, steps_view, Signal, Step, StepView};

verus! {

/// Width of the panel in pixels.
pub const WIDTH: u32 = 240;

/// Height of the panel in pixels.
pub const HEIGHT: u32 = 416;

/// Bytes in one full image plane: eight pixels per byte.
pub const BUFFER_LEN: u32 = WIDTH / 8 * HEIGHT;

/// Background color of a newly made driver and framebuffer.
pub const DEFAULT_BACKGROUND_COLOR: Color = Color::White;

/// This panel pulls its busy line low while it is busy.
pub const IS_BUSY_LOW: bool = true;

/// Milliseconds the reset line is held low during power-on.
pub const RESET_HOLD_MS: u8 = 200;

/// Milliseconds the power stage gets after it is switched on.
pub const POWER_ON_DELAY_MS: u8 = 5;

/// What the driver refuses to do.
#[derive(Clone, Copy, Debug, PartialEq, Eq, Structural)]
pub enum EpdError {
    /// The image is not exactly one full plane long.
    InvalidBufferSize,
    /// The panel could do it, but this driver does not.
    Unsupported,
}

/// The five waveform tables of one refresh mode, one per pixel transition.
pub struct WaveformSet {
    pub vcom: Vec<u8>,
    pub white_to_white: Vec<u8>,
    pub black_to_white: Vec<u8>,
    pub white_to_black: Vec<u8>,
    pub black_to_black: Vec<u8>,
}

/// The driver's state: background color, refresh mode, and the waveform
/// tables of both modes.
pub struct EPD3in71bw {
    color: Color,
    refresh: RefreshLut,
    full: WaveformSet,
    quick: WaveformSet,
}

// ---------------------------------------------------------------------------
// The command sequences, as the panel sees them.

/// A one-byte payload.
pub open spec fn data1(b: u8) -> StepView {
    StepView::Data(seq![b])
}

/// The resolution command. The high byte of the width is left out on
/// purpose: this panel revision does not take it.
pub open spec fn resolution_plan() -> Seq<StepView> {
    seq![
        StepView::Command(Command::ResolutionSetting),
        data1((WIDTH % 256) as u8),
        data1((HEIGHT / 256) as u8),
        data1((HEIGHT % 256) as u8),
    ]
}

/// Power-on: reset, power rails, booster, power on, panel and VCOM
/// settings, resolution.
pub open spec fn init_plan() -> Seq<StepView> {
    seq![
        StepView::Reset(RESET_HOLD_MS),
        StepView::Command(Command::PowerSetting),
        StepView::Data(seq![0x03u8, 0x00u8, 0x2bu8, 0x2bu8, 0xffu8]),
        StepView::Command(Command::BoosterSoftStart),
        StepView::Data(seq![0x17u8, 0x17u8, 0x1du8]),
        StepView::Command(Command::PowerOn),
        StepView::DelayMs(POWER_ON_DELAY_MS),
        StepView::WaitUntilIdle,
        StepView::Command(Command::PanelSetting),
        data1(0x1fu8),
        StepView::Command(Command::VcomAndDataIntervalSetting),
        StepView::Data(seq![0x23u8, 0x07u8]),
    ] + resolution_plan() + seq![StepView::WaitUntilIdle]
}

/// Power-down in the order that keeps the panel safe, ending in deep sleep.
pub open spec fn sleep_plan() -> Seq<StepView> {
    seq![
        StepView::WaitUntilIdle,
        StepView::Command(Command::VcomAndDataIntervalSetting),
        data1(0x17u8),
        StepView::Command(Command::VcmDcSetting),
        StepView::Command(Command::PanelSetting),
        StepView::Command(Command::PowerSetting),
        data1(0x00u8),
        data1(0x00u8),
        data1(0x00u8),
        data1(0x00u8),
        StepView::Command(Command::PowerOff),
        StepView::WaitUntilIdle,
        StepView::Command(Command::DeepSleep),
        data1(0xa5u8),
    ]
}

/// A whole plane of one color.
pub open spec fn fill_plane(c: Color) -> StepView {
    StepView::DataRepeated(c.spec_byte_value(), BUFFER_LEN)
}

/// The old-image plane flat in the background color, the new one from `image`.
pub open spec fn update_plan(c: Color, image: Seq<u8>) -> Seq<StepView> {
    seq![
        StepView::WaitUntilIdle,
        StepView::Command(Command::DataStartTransmission1),
        fill_plane(c),
        StepView::Command(Command::DataStartTransmission2),
        StepView::Data(image),
    ]
}

/// Refresh the panel from its image planes.
pub open spec fn display_plan() -> Seq<StepView> {
    seq![StepView::WaitUntilIdle, StepView::Command(Command::DisplayRefresh)]
}

/// Both image planes flat in the background color.
pub open spec fn clear_plan(c: Color) -> Seq<StepView> {
    seq![StepView::WaitUntilIdle] + resolution_plan() + seq![
        StepView::Command(Command::DataStartTransmission1),
        fill_plane(c),
        StepView::Command(Command::DataStartTransmission2),
        fill_plane(c),
    ]
}

/// The five tables of one mode, each after its command.
pub open spec fn lut_plan(w: WaveformSet) -> Seq<StepView> {
    seq![
        StepView::WaitUntilIdle,
        StepView::Command(Command::LutForVcom),
        StepView::Data(w.vcom@),
        StepView::Command(Command::LutWhiteToWhite),
        StepView::Data(w.white_to_white@),
        StepView::Command(Command::LutBlackToWhite),
        StepView::Data(w.black_to_white@),
        StepView::Command(Command::LutWhiteToBlack),
        StepView::Data(w.white_to_black@),
        StepView::Command(Command::LutBlackToBlack),
        StepView::Data(w.black_to_black@),
    ]
}

// ---------------------------------------------------------------------------
// Building step sequences.

fn push_step(r: &mut Vec<Step>, s: Step)
    ensures
        steps_view(final(r)@) == steps_view(old(r)@).push(s@),
{
    r.push(s);
    assert(steps_view(r@) =~= steps_view(old(r)@).push(s@));
}

fn push_command(r: &mut Vec<Step>, c: Command)
    ensures
        steps_view(final(r)@) == steps_view(old(r)@).push(StepView::Command(c)),
{
    push_step(r, Step::Command(c));
}

fn push_data1(r: &mut Vec<Step>, b: u8)
    ensures
        steps_view(final(r)@) == steps_view(old(r)@).push(data1(b)),
{
    let d = vec![b];
    assert(d@ =~= seq![b]);
    push_step(r, Step::Data(d));
}

fn push_resolution(r: &mut Vec<Step>)
    ensures
        steps_view(final(r)@) == steps_view(old(r)@) + resolution_plan(),
{
    let ghost start = steps_view(r@);
    push_command(r, Command::ResolutionSetting);
    push_data1(r, (WIDTH % 256) as u8);
    push_data1(r, (HEIGHT / 256) as u8);
    push_data1(r, (HEIGHT % 256) as u8);
    assert(steps_view(r@) =~= start + resolution_plan());
}

fn push_fill(r: &mut Vec<Step>, c: Color)
    ensures
        steps_view(final(r)@) == steps_view(old(r)@).push(fill_plane(c)),
{
    push_step(r, Step::DataRepeated(c.get_byte_value(), BUFFER_LEN));
}

fn push_payload(r: &mut Vec<Step>, bytes: &Vec<u8>)
    ensures
        steps_view(final(r)@) == steps_view(old(r)@).push(StepView::Data(bytes@)),
{
    push_step(r, Step::Data(crate::interface::copy_bytes(bytes)));
}

fn update_steps(c: Color, buffer: &Vec<u8>) -> (r: Vec<Step>)
    ensures
        steps_view(r@) == update_plan(c, buffer@),
{
    let mut r: Vec<Step> = Vec::new();
    push_step(&mut r, Step::WaitUntilIdle);
    push_command(&mut r, Command::DataStartTransmission1);
    push_fill(&mut r, c);
    push_command(&mut r, Command::DataStartTransmission2);
    push_payload(&mut r, buffer);
    assert(steps_view(r@) =~= update_plan(c, buffer@));
    r
}

fn lut_steps(w: &WaveformSet) -> (r: Vec<Step>)
    ensures
        steps_view(r@) == lut_plan(*w),
{
    let mut r: Vec<Step> = Vec::new();
    push_step(&mut r, Step::WaitUntilIdle);
    push_command(&mut r, Command::LutForVcom);
    push_payload(&mut r, &w.vcom);
    push_command(&mut r, Command::LutWhiteToWhite);
    push_payload(&mut r, &w.white_to_white);
    push_command(&mut r, Command::LutBlackToWhite);
    push_payload(&mut r, &w.black_to_white);
    push_command(&mut r, Command::LutWhiteToBlack);
    push_payload(&mut r, &w.white_to_black);
    push_command(&mut r, Command::LutBlackToBlack);
    push_payload(&mut r, &w.black_to_black);
    assert(steps_view(r@) =~= lut_plan(*w));
    r
}

impl EPD3in71bw {
    /// The background color used to fill image planes.
    pub closed spec fn spec_color(&self) -> Color {
        self.color
    }

    /// The refresh mode whose tables `set_lut` sends.
    pub closed spec fn spec_refresh(&self) -> RefreshLut {
        self.refresh
    }

    /// The tables of the given refresh mode.
    pub closed spec fn spec_tables(&self, m: RefreshLut) -> WaveformSet {
        match m {
            RefreshLut::Full => self.full,
            RefreshLut::Quick => self.quick,
        }
    }

    /// The mode that is current after `set_lut(m)`.
    pub open spec fn spec_mode_after(&self, m: Option<RefreshLut>) -> RefreshLut {
        match m {
            Some(mode) => mode,
            None => self.spec_refresh(),
        }
    }

    /// The driver after `set_lut(m)`: only the current mode changes.
    pub closed spec fn spec_set_lut(self, m: Option<RefreshLut>) -> EPD3in71bw {
        EPD3in71bw { refresh: self.spec_mode_after(m), ..self }
    }

    /// The tables of both modes are the same in `self` and `other`.
    pub open spec fn same_tables(&self, other: &EPD3in71bw) -> bool {
        &&& self.spec_tables(RefreshLut::Full) == other.spec_tables(RefreshLut::Full)
        &&& self.spec_tables(RefreshLut::Quick) == other.spec_tables(RefreshLut::Quick)
    }

    /// A driver in the power-on state: white background, full refresh, and
    /// the given tables for each mode. Its first result is to be followed
    /// by the steps of its second, which power the panel on.
    pub fn new(full: WaveformSet, quick: WaveformSet) -> (r: (EPD3in71bw, Vec<Step>))
        ensures
            r.0.spec_color() == DEFAULT_BACKGROUND_COLOR,
            r.0.spec_refresh() == RefreshLut::Full,
            r.0.spec_tables(RefreshLut::Full) == full,
            r.0.spec_tables(RefreshLut::Quick) == quick,
            steps_view(r.1@) == init_plan(),
    {
        let epd = EPD3in71bw { color: DEFAULT_BACKGROUND_COLOR, refresh: RefreshLut::Full, full, quick };
        let steps = epd.init();
        (epd, steps)
    }

    /// The power-on sequence.
    pub fn init(&self) -> (r: Vec<Step>)
        ensures
            steps_view(r@) == init_plan(),
    {
        let mut r: Vec<Step> = Vec::new();
        push_step(&mut r, Step::Reset(RESET_HOLD_MS));
        push_command(&mut r, Command::PowerSetting);
        let power = vec![0x03u8, 0x00, 0x2b, 0x2b, 0xff];
        assert(power@ =~= seq![0x03u8, 0x00u8, 0x2bu8, 0x2bu8, 0xffu8]);
        push_step(&mut r, Step::Data(power));
        push_command(&mut r, Command::BoosterSoftStart);
        let booster = vec![0x17u8, 0x17, 0x1d];
        assert(booster@ =~= seq![0x17u8, 0x17u8, 0x1du8]);
        push_step(&mut r, Step::Data(booster));
        push_command(&mut r, Command::PowerOn);
        push_step(&mut r, Step::DelayMs(POWER_ON_DELAY_MS));
        push_step(&mut r, Step::WaitUntilIdle);
        push_command(&mut r, Command::PanelSetting);
        push_data1(&mut r, 0x1f);
        push_command(&mut r, Command::VcomAndDataIntervalSetting);
        let interval = vec![0x23u8, 0x07];
        assert(interval@ =~= seq![0x23u8, 0x07u8]);
        push_step(&mut r, Step::Data(interval));
        push_resolution(&mut r);
        push_step(&mut r, Step::WaitUntilIdle);
        assert(steps_view(r@) =~= init_plan());
        r
    }

    /// Wakes the panel from deep sleep: the power-on sequence again.
    pub fn wake_up(&self) -> (r: Vec<Step>)
        ensures
            steps_view(r@) == init_plan(),
    {
        self.init()
    }

    /// Powers the panel down and puts it in deep sleep.
    pub fn sleep(&self) -> (r: Vec<Step>)
        ensures
            steps_view(r@) == sleep_plan(),
    {
        let mut r: Vec<Step> = Vec::new();
        push_step(&mut r, Step::WaitUntilIdle);
        push_command(&mut r, Command::VcomAndDataIntervalSetting);
        push_data1(&mut r, 0x17);
        push_command(&mut r, Command::VcmDcSetting);
        push_command(&mut r, Command::PanelSetting);
        push_command(&mut r, Command::PowerSetting);
        let mut i: u32 = 0;
        while i < 4
            invariant
                i <= 4,
                steps_view(r@) == sleep_plan().subrange(0, 6 + i as int),
            decreases 4 - i,
        {
            push_data1(&mut r, 0x00);
            i += 1;
            assert(steps_view(r@) =~= sleep_plan().subrange(0, 6 + i as int));
        }
        push_command(&mut r, Command::PowerOff);
        push_step(&mut r, Step::WaitUntilIdle);
        push_command(&mut r, Command::DeepSleep);
        push_data1(&mut r, 0xa5);
        assert(steps_view(r@) =~= sleep_plan());
        r
    }

    /// Stages `buffer` as the next image; `buffer` must hold exactly one
    /// full plane. A buffer of another length gives no steps at all.
    pub fn update_frame(&self, buffer: &Vec<u8>) -> (r: Result<Vec<Step>, EpdError>)
        ensures
            buffer@.len() == BUFFER_LEN <==> r.is_ok(),
            r matches Ok(steps) ==> steps_view(steps@) == update_plan(self.spec_color(), buffer@),
            r matches Err(e) ==> e == EpdError::InvalidBufferSize,
    {
        if buffer.len() != BUFFER_LEN as usize {
            return Err(EpdError::InvalidBufferSize);
        }
        Ok(update_steps(self.color, buffer))
    }

    /// Updating a window of the panel is not supported by this driver.
    #[allow(unused_variables)]
    pub fn update_partial_frame(
        &self,
        buffer: &Vec<u8>,
        x: u32,
        y: u32,
        width: u32,
        height: u32,
    ) -> (r: Result<Vec<Step>, EpdError>)
        ensures
            r matches Err(e) && e == EpdError::Unsupported,
    {
        Err(EpdError::Unsupported)
    }

    /// Refreshes the panel from its staged image planes.
    pub fn display_frame(&self) -> (r: Vec<Step>)
        ensures
            steps_view(r@) == display_plan(),
    {
        let mut r: Vec<Step> = Vec::new();
        push_step(&mut r, Step::WaitUntilIdle);
        push_command(&mut r, Command::DisplayRefresh);
        assert(steps_view(r@) =~= display_plan());
        r
    }

    /// Stages `buffer` and refreshes right after, without a second wait.
    pub fn update_and_display_frame(&self, buffer: &Vec<u8>) -> (r: Result<Vec<Step>, EpdError>)
        ensures
            buffer@.len() == BUFFER_LEN <==> r.is_ok(),
            r matches Ok(steps) ==> steps_view(steps@) == update_plan(self.spec_color(), buffer@)
                + seq![StepView::Command(Command::DisplayRefresh)],
            r matches Err(e) ==> e == EpdError::InvalidBufferSize,
    {
        match self.update_frame(buffer) {
            Ok(steps) => {
                let mut steps = steps;
                push_command(&mut steps, Command::DisplayRefresh);
                Ok(steps)
            },
            Err(e) => Err(e),
        }
    }

    /// Fills both image planes with the background color.
    pub fn clear_frame(&self) -> (r: Vec<Step>)
        ensures
            steps_view(r@) == clear_plan(self.spec_color()),
    {
        let mut r: Vec<Step> = Vec::new();
        push_step(&mut r, Step::WaitUntilIdle);
        push_resolution(&mut r);
        push_command(&mut r, Command::DataStartTransmission1);
        push_fill(&mut r, self.color);
        push_command(&mut r, Command::DataStartTransmission2);
        push_fill(&mut r, self.color);
        assert(steps_view(r@) =~= clear_plan(self.spec_color()));
        r
    }

    /// Sets the color that fills image planes.
    pub fn set_background_color(&mut self, color: Color)
        ensures
            final(self).spec_color() == color,
            final(self).spec_refresh() == old(self).spec_refresh(),
            final(self).same_tables(old(self)),
    {
        self.color = color;
    }

    /// The color that fills image planes.
    pub fn background_color(&self) -> (r: &Color)
        ensures
            *r == self.spec_color(),
    {
        &self.color
    }

    /// Width of the panel in pixels.
    pub fn width(&self) -> (r: u32)
        ensures
            r == WIDTH,
    {
        WIDTH
    }

    /// Height of the panel in pixels.
    pub fn height(&self) -> (r: u32)
        ensures
            r == HEIGHT,
    {
        HEIGHT
    }

    /// Makes `refresh` the current mode, if given, and sends the current
    /// mode's tables to the panel.
    pub fn set_lut(&mut self, refresh: Option<RefreshLut>) -> (r: Vec<Step>)
        ensures
            *final(self) == old(self).spec_set_lut(refresh),
            final(self).spec_refresh() == old(self).spec_mode_after(refresh),
            final(self).spec_color() == old(self).spec_color(),
            final(self).same_tables(old(self)),
            steps_view(r@) == lut_plan(old(self).spec_tables(old(self).spec_mode_after(refresh))),
    {
        if let Some(mode) = refresh {
            self.refresh = mode;
        }
        match self.refresh {
            RefreshLut::Full => lut_steps(&self.full),
            RefreshLut::Quick => lut_steps(&self.quick),
        }
    }

    /// Whether the panel is busy, from one reading of its busy line.
    pub fn is_busy(&self, line_high: bool) -> (r: bool)
        ensures
            r == !line_high,
    {
        is_busy(line_high, IS_BUSY_LOW)
    }

    /// The line actions for one step, with this panel's busy polarity.
    pub fn frame_step(&self, step: &Step) -> (r: Vec<Signal>)
        ensures
            r@.map_values(|x: Signal| x@) == framing(step@, IS_BUSY_LOW),
    {
        frame(step, IS_BUSY_LOW)
    }
}

// ---------------------------------------------------------------------------
// What the panel shows.

/// The image plane that data bytes currently go to.
pub enum Plane {
    Old,
    New,
    Neither,
}

/// The part of the panel's state that decides what it shows: its two image
/// planes, the plane being filled, and the image last refreshed onto the
/// glass.
pub struct PanelImage {
    pub receiving: Plane,
    pub old_plane: Seq<u8>,
    pub new_plane: Seq<u8>,
    pub shown: Seq<u8>,
}

/// `n` copies of `b`.
pub open spec fn repeat(b: u8, n: nat) -> Seq<u8> {
    Seq::new(n, |i: int| b)
}

/// Data goes to the plane being filled.
pub open spec fn receive(p: PanelImage, d: Seq<u8>) -> PanelImage {
    match p.receiving {
        Plane::Old => PanelImage { old_plane: p.old_plane + d, ..p },
        Plane::New => PanelImage { new_plane: p.new_plane + d, ..p },
        Plane::Neither => p,
    }
}

/// The effect of one step. A transmission command starts its plane over;
/// a refresh shows the new-image plane; any other command ends the filling
/// of a plane.
pub open spec fn apply(p: PanelImage, s: StepView) -> PanelImage {
    match s {
        StepView::Command(Command::DataStartTransmission1) => PanelImage {
            receiving: Plane::Old,
            old_plane: Seq::empty(),
            ..p
        },
        StepView::Command(Command::DataStartTransmission2) => PanelImage {
            receiving: Plane::New,
            new_plane: Seq::empty(),
            ..p
        },
        StepView::Command(Command::DisplayRefresh) => PanelImage {
            receiving: Plane::Neither,
            shown: p.new_plane,
            ..p
        },
        StepView::Command(_) => PanelImage { receiving: Plane::Neither, ..p },
        StepView::Data(d) => receive(p, d),
        StepView::DataRepeated(b, n) => receive(p, repeat(b, n as nat)),
        _ => p,
    }
}

/// The effect of a sequence of steps, in order.
pub open spec fn run(p: PanelImage, s: Seq<StepView>) -> PanelImage
    decreases s.len(),
{
    if s.len() == 0 {
        p
    } else {
        apply(run(p, s.drop_last()), s.last())
    }
}

/// Running two sequences one after the other is running their concatenation.
pub proof fn lemma_run_append(p: PanelImage, a: Seq<StepView>, b: Seq<StepView>)
    ensures
        run(p, a + b) == run(run(p, a), b),
    decreases b.len(),
{
    if b.len() == 0 {
        assert(a + b =~= a);
    } else {
        assert((a + b).drop_last() =~= a + b.drop_last());
        lemma_run_append(p, a, b.drop_last());
    }
}

/// The contents of a newly made framebuffer: every byte in the default
/// background color.
pub open spec fn blank_image() -> Seq<u8> {
    repeat(DEFAULT_BACKGROUND_COLOR.spec_byte_value(), BUFFER_LEN as nat)
}

/// Clearing and refreshing shows a flat image of the background color,
/// whatever the panel held before.
pub proof fn lemma_clear_shows_background(p: PanelImage, c: Color)
    ensures
        run(p, clear_plan(c) + display_plan()).shown == repeat(c.spec_byte_value(), BUFFER_LEN as nat),
{
    let head = seq![StepView::WaitUntilIdle] + resolution_plan();
    let tail = seq![
        StepView::Command(Command::DataStartTransmission1),
        fill_plane(c),
        StepView::Command(Command::DataStartTransmission2),
        fill_plane(c),
    ];
    assert(clear_plan(c) == head + tail);
    lemma_run_append(p, clear_plan(c), display_plan());
    lemma_run_append(p, head, tail);
    reveal_with_fuel(run, 5);
    let q = run(p, head);
    assert(run(q, tail).new_plane =~= repeat(c.spec_byte_value(), BUFFER_LEN as nat));
}

/// Clearing the panel and refreshing shows the same image as staging a new,
/// untouched framebuffer of the default background and refreshing: both
/// end blank, from any earlier panel state.
pub proof fn lemma_clear_matches_blank_frame(p: PanelImage)
    ensures
        run(p, clear_plan(DEFAULT_BACKGROUND_COLOR) + display_plan()).shown
            == run(p, update_plan(DEFAULT_BACKGROUND_COLOR, blank_image()) + display_plan()).shown,
        run(p, clear_plan(DEFAULT_BACKGROUND_COLOR) + display_plan()).shown == blank_image(),
{
    lemma_clear_shows_background(p, DEFAULT_BACKGROUND_COLOR);
    let u = update_plan(DEFAULT_BACKGROUND_COLOR, blank_image());
    lemma_run_append(p, u, display_plan());
    reveal_with_fuel(run, 6);
    assert(run(p, u).new_plane =~= blank_image());
}

/// Selecting the full tables, then the quick ones, then the full ones again
/// sends the same full tables both times, unchanged, and leaves the driver
/// as the first selection did.
pub proof fn lemma_lut_reselect(d: EPD3in71bw)
    ensures
        ({
            let d1 = d.spec_set_lut(Some(RefreshLut::Full));
            let d2 = d1.spec_set_lut(Some(RefreshLut::Quick));
            let first = lut_plan(d.spec_tables(d.spec_mode_after(Some(RefreshLut::Full))));
            let third = lut_plan(d2.spec_tables(d2.spec_mode_after(Some(RefreshLut::Full))));
            &&& first == lut_plan(d.spec_tables(RefreshLut::Full))
            &&& third == first
            &&& d2.spec_set_lut(Some(RefreshLut::Full)) == d1
        }),
{
}

} // verus!
