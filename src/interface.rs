use vstd::prelude::*;
use crate::command::Command;

verus! {

/// One step of the panel protocol, as the driver issues it.
#[derive(Debug, PartialEq, Eq)]
pub enum Step {
    /// Pulse the reset line, holding it low for the given milliseconds.
    Reset(u8),
    /// Send an opcode in command framing.
    Command(Command),
    /// Send a payload in data framing.
    Data(Vec<u8>),
    /// Send one byte the given number of times in data framing.
    DataRepeated(u8, u32),
    /// Poll the busy line until the panel reports idle.
    WaitUntilIdle,
    /// Pause for the given milliseconds.
    DelayMs(u8),
}

/// What a [`Step`] stands for, with its payload as a sequence.
pub enum StepView {
    Reset(u8),
    Command(Command),
    Data(Seq<u8>),
    DataRepeated(u8, u32),
    WaitUntilIdle,
    DelayMs(u8),
}

impl View for Step {
    type V = StepView;

    open spec fn view(&self) -> StepView {
        match self {
            Step::Reset(ms) => StepView::Reset(*ms),
            Step::Command(c) => StepView::Command(*c),
            Step::Data(d) => StepView::Data(d@),
            Step::DataRepeated(v, n) => StepView::DataRepeated(*v, *n),
            Step::WaitUntilIdle => StepView::WaitUntilIdle,
            Step::DelayMs(ms) => StepView::DelayMs(*ms),
        }
    }
}

/// The views of a sequence of steps.
pub open spec fn steps_view(s: Seq<Step>) -> Seq<StepView> {
    s.map_values(|x: Step| x@)
}

/// One action on the bus or on a control line.
#[derive(Debug, PartialEq, Eq)]
pub enum Signal {
    /// Drive chip-select high (`true`, deselected) or low (`false`, selected).
    ChipSelect(bool),
    /// Drive the data/command line high (`true`, data) or low (`false`, command).
    DataCommand(bool),
    /// Drive the reset line high (`true`) or low (`false`).
    ResetLine(bool),
    /// Write these bytes over the bus.
    Write(Vec<u8>),
    /// Write this byte over the bus the given number of times.
    WriteRepeated(u8, u32),
    /// Pause for the given milliseconds.
    DelayMs(u8),
    /// Poll the busy line until it reads idle; `true` when low means busy.
    WaitWhileBusy(bool),
}

/// What a [`Signal`] stands for, with its bytes as a sequence.
pub enum SignalView {
    ChipSelect(bool),
    DataCommand(bool),
    ResetLine(bool),
    Write(Seq<u8>),
    WriteRepeated(u8, u32),
    DelayMs(u8),
    WaitWhileBusy(bool),
}

impl View for Signal {
    type V = SignalView;

    open spec fn view(&self) -> SignalView {
        match self {
            Signal::ChipSelect(b) => SignalView::ChipSelect(*b),
            Signal::DataCommand(b) => SignalView::DataCommand(*b),
            Signal::ResetLine(b) => SignalView::ResetLine(*b),
            Signal::Write(d) => SignalView::Write(d@),
            Signal::WriteRepeated(v, n) => SignalView::WriteRepeated(*v, *n),
            Signal::DelayMs(ms) => SignalView::DelayMs(*ms),
            Signal::WaitWhileBusy(b) => SignalView::WaitWhileBusy(*b),
        }
    }
}

/// Milliseconds the reset line is held high before the pulse.
pub const RESET_SETTLE_MS: u8 = 10;

/// Milliseconds the panel gets to come out of reset.
pub const RESET_RECOVER_MS: u8 = 200;

/// The line actions that carry out one protocol step.
///
/// A command or payload is written with chip-select asserted and the
/// data/command line at the matching level; the reset pulse takes the line
/// high, low for `hold` milliseconds, and high again.
pub open spec fn framing(s: StepView, busy_low: bool) -> Seq<SignalView> {
    match s {
        StepView::Reset(hold) => seq![
            SignalView::ResetLine(true),
            SignalView::DelayMs(RESET_SETTLE_MS),
            SignalView::ResetLine(false),
            SignalView::DelayMs(hold),
            SignalView::ResetLine(true),
            SignalView::DelayMs(RESET_RECOVER_MS),
        ],
        StepView::Command(c) => seq![
            SignalView::ChipSelect(false),
            SignalView::DataCommand(false),
            SignalView::Write(seq![c.spec_address()]),
            SignalView::ChipSelect(true),
        ],
        StepView::Data(d) => seq![
            SignalView::ChipSelect(false),
            SignalView::DataCommand(true),
            SignalView::Write(d),
            SignalView::ChipSelect(true),
        ],
        StepView::DataRepeated(v, n) => seq![
            SignalView::ChipSelect(false),
            SignalView::DataCommand(true),
            SignalView::WriteRepeated(v, n),
            SignalView::ChipSelect(true),
        ],
        StepView::WaitUntilIdle => seq![SignalView::WaitWhileBusy(busy_low)],
        StepView::DelayMs(ms) => seq![SignalView::DelayMs(ms)],
    }
}

/// A copy of a byte payload.
pub fn copy_bytes(b: &Vec<u8>) -> (r: Vec<u8>)
    ensures
        r@ == b@,
{
    let mut r: Vec<u8> = Vec::with_capacity(b.len());
    let mut i: usize = 0;
    while i < b.len()
        invariant
            i <= b.len(),
            r@ == b@.subrange(0, i as int),
        decreases b.len() - i,
    {
        r.push(b[i]);
        i += 1;
        assert(r@ =~= b@.subrange(0, i as int));
    }
    assert(r@ =~= b@);
    r
}

/// Lowers one protocol step into line actions; `busy_low` tells whether the
/// panel signals busy by pulling its busy line low.
pub fn frame(step: &Step, busy_low: bool) -> (r: Vec<Signal>)
    ensures
        r@.map_values(|x: Signal| x@) == framing(step@, busy_low),
{
    let r: Vec<Signal>;
    match step {
        Step::Reset(hold) => {
            r = vec![
                Signal::ResetLine(true),
                Signal::DelayMs(RESET_SETTLE_MS),
                Signal::ResetLine(false),
                Signal::DelayMs(*hold),
                Signal::ResetLine(true),
                Signal::DelayMs(RESET_RECOVER_MS),
            ];
        },
        Step::Command(c) => {
            let op = vec![c.address()];
            assert(op@ =~= seq![c.spec_address()]);
            r = vec![
                Signal::ChipSelect(false),
                Signal::DataCommand(false),
                Signal::Write(op),
                Signal::ChipSelect(true),
            ];
        },
        Step::Data(d) => {
            r = vec![
                Signal::ChipSelect(false),
                Signal::DataCommand(true),
                Signal::Write(copy_bytes(d)),
                Signal::ChipSelect(true),
            ];
        },
        Step::DataRepeated(v, n) => {
            r = vec![
                Signal::ChipSelect(false),
                Signal::DataCommand(true),
                Signal::WriteRepeated(*v, *n),
                Signal::ChipSelect(true),
            ];
        },
        Step::WaitUntilIdle => {
            r = vec![Signal::WaitWhileBusy(busy_low)];
        },
        Step::DelayMs(ms) => {
            r = vec![Signal::DelayMs(*ms)];
        },
    }
    assert(r@.map_values(|x: Signal| x@) =~= framing(step@, busy_low));
    r
}

/// Whether the panel is busy, from one reading of its busy line.
pub fn is_busy(line_high: bool, busy_low: bool) -> (r: bool)
    ensures
        r == (if busy_low { !line_high } else { line_high }),
{
    if busy_low {
        !line_high
    } else {
        line_high
    }
}

} // verus!
