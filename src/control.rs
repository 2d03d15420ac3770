//! The control loop's decisions: what to do next, given the loop's phase and
//! what the last action produced.

use vstd::prelude::*;

use crate::status::DeviceError;

verus! {

/// Pause between two frames, in microseconds.
pub const FRAME_DELAY_US: u64 = 10_000_000;

/// Faults that stop bring-up.
#[derive(Clone, Copy, Debug, PartialEq, Eq, Structural)]
pub enum BootFault {
    /// The clock tree did not lock to the requested frequency.
    ClockLock,
    /// The display controller's reset and configuration handshake failed.
    DisplayHandshake,
}

/// Phase of the control loop.
#[derive(Clone, Copy, Debug, PartialEq, Eq, Structural)]
pub enum Phase {
    /// Peripherals are being brought up.
    Booting,
    /// Frames are sampled and drawn.
    Running,
    /// Terminal: the device idles forever.
    Panicked,
}

/// What the last action produced.
#[derive(Clone, Copy, Debug)]
pub enum Event {
    /// Bring-up finished, or failed with a fault.
    BroughtUp(Result<(), BootFault>),
    /// A frame was sampled and drawn, or stopped at a fault.
    FrameDone(Result<(), DeviceError>),
    /// The pause between frames is over.
    DelayElapsed,
    /// A fault that nothing handles.
    Fault,
}

/// What the loop does next.
#[derive(Clone, Copy, Debug, PartialEq, Eq, Structural)]
pub enum Action {
    /// Read the chips afresh and draw a frame.
    Sample,
    /// Report how the frame went, then block for `delay_us` microseconds.
    Pause { delay_us: u64, frame_ok: bool },
    /// Emit the diagnostic once and park.
    Halt,
    /// Nothing to do.
    Idle,
}

pub open spec fn step_of(phase: Phase, event: Event) -> (Phase, Action) {
    match (phase, event) {
        (Phase::Booting, Event::BroughtUp(Ok(()))) => (Phase::Running, Action::Sample),
        (Phase::Booting, Event::BroughtUp(Err(_))) => (Phase::Panicked, Action::Halt),
        (Phase::Booting, Event::Fault) => (Phase::Panicked, Action::Halt),
        (Phase::Booting, _) => (Phase::Booting, Action::Idle),
        (Phase::Running, Event::FrameDone(r)) => (
            Phase::Running,
            Action::Pause { delay_us: FRAME_DELAY_US, frame_ok: r is Ok },
        ),
        (Phase::Running, Event::DelayElapsed) => (Phase::Running, Action::Sample),
        (Phase::Running, Event::Fault) => (Phase::Panicked, Action::Halt),
        (Phase::Running, Event::BroughtUp(_)) => (Phase::Running, Action::Idle),
        (Phase::Panicked, _) => (Phase::Panicked, Action::Idle),
    }
}

/// The next phase and action of the loop.
pub fn step(phase: Phase, event: Event) -> (r: (Phase, Action))
    ensures
        r == step_of(phase, event),
{
    match (phase, event) {
        (Phase::Booting, Event::BroughtUp(Ok(()))) => (Phase::Running, Action::Sample),
        (Phase::Booting, Event::BroughtUp(Err(_))) => (Phase::Panicked, Action::Halt),
        (Phase::Booting, Event::Fault) => (Phase::Panicked, Action::Halt),
        (Phase::Booting, _) => (Phase::Booting, Action::Idle),
        (Phase::Running, Event::FrameDone(r)) => (
            Phase::Running,
            Action::Pause { delay_us: FRAME_DELAY_US, frame_ok: r.is_ok() },
        ),
        (Phase::Running, Event::DelayElapsed) => (Phase::Running, Action::Sample),
        (Phase::Running, Event::Fault) => (Phase::Panicked, Action::Halt),
        (Phase::Running, Event::BroughtUp(_)) => (Phase::Running, Action::Idle),
        (Phase::Panicked, _) => (Phase::Panicked, Action::Idle),
    }
}

/// The phase after a sequence of events, and the actions taken on the way.
pub open spec fn run(phase: Phase, events: Seq<Event>) -> (Phase, Seq<Action>)
    decreases events.len(),
{
    if events.len() == 0 {
        (phase, Seq::empty())
    } else {
        let (p, acts) = run(phase, events.drop_last());
        let (q, a) = step_of(p, events.last());
        (q, acts.push(a))
    }
}

/// A frame that failed on a read of the power chip does not stop the loop:
/// it pauses, and once the pause is over the next frame samples afresh.
pub proof fn lemma_read_failure_keeps_sampling()
    ensures
        step_of(Phase::Running, Event::FrameDone(Err(DeviceError::PmuError))) == (
            Phase::Running,
            Action::Pause { delay_us: FRAME_DELAY_US, frame_ok: false },
        ),
        step_of(
            step_of(Phase::Running, Event::FrameDone(Err(DeviceError::PmuError))).0,
            Event::DelayElapsed,
        ) == (Phase::Running, Action::Sample),
{
}

/// Every frame while running, whatever its outcome, leaves the loop running.
pub proof fn lemma_frames_never_stop_the_loop(r: Result<(), DeviceError>)
    ensures
        step_of(Phase::Running, Event::FrameDone(r)).0 == Phase::Running,
        step_of(step_of(Phase::Running, Event::FrameDone(r)).0, Event::DelayElapsed)
            == (Phase::Running, Action::Sample),
{
}

/// Once panicked, the loop stays panicked and never samples again, whatever
/// happens next.
pub proof fn lemma_panicked_is_terminal(events: Seq<Event>)
    ensures
        run(Phase::Panicked, events).0 == Phase::Panicked,
        forall|i: int|
            0 <= i < events.len() ==> #[trigger] run(Phase::Panicked, events).1[i]
                == Action::Idle,
        run(Phase::Panicked, events).1.len() == events.len(),
    decreases events.len(),
{
    if events.len() > 0 {
        lemma_panicked_is_terminal(events.drop_last());
    }
}

/// A failed display handshake during bring-up halts the device: the loop
/// panics, halts once, and never reaches sampling afterwards.
pub proof fn lemma_display_failure_halts(events: Seq<Event>)
    ensures
        step_of(Phase::Booting, Event::BroughtUp(Err(BootFault::DisplayHandshake))) == (
            Phase::Panicked,
            Action::Halt,
        ),
        run(Phase::Booting, seq![Event::BroughtUp(Err(BootFault::DisplayHandshake))] + events).0
            == Phase::Panicked,
        forall|i: int|
            0 <= i < events.len() + 1 ==> #[trigger] run(
                Phase::Booting,
                seq![Event::BroughtUp(Err(BootFault::DisplayHandshake))] + events,
            ).1[i] != Action::Sample,
    decreases events.len(),
{
    let first = seq![Event::BroughtUp(Err(BootFault::DisplayHandshake))];
    lemma_run_split(Phase::Booting, first, events);
    reveal_with_fuel(run, 2);
    assert(first.drop_last().len() == 0);
    lemma_panicked_is_terminal(events);
}

/// Running two sequences of events in turn is running their concatenation.
proof fn lemma_run_split(phase: Phase, a: Seq<Event>, b: Seq<Event>)
    ensures
        run(phase, a + b).0 == run(run(phase, a).0, b).0,
        run(phase, a + b).1 == run(phase, a).1 + run(run(phase, a).0, b).1,
    decreases b.len(),
{
    if b.len() == 0 {
        assert(a + b =~= a);
        assert(run(phase, a).1 + Seq::<Action>::empty() =~= run(phase, a).1);
    } else {
        lemma_run_split(phase, a, b.drop_last());
        assert((a + b).drop_last() =~= a + b.drop_last());
        let (p, acts) = run(run(phase, a).0, b.drop_last());
        assert(run(phase, a).1 + acts.push(step_of(p, b.last()).1) =~= (run(phase, a).1
            + acts).push(step_of(p, b.last()).1));
    }
}

} // verus!
