use twatch_status::control::{step, Action, BootFault, Event, Phase, FRAME_DELAY_US};
use twatch_status::status::DeviceError;

#[test]
fn bring_up_starts_sampling() {
    assert_eq!(step(Phase::Booting, Event::BroughtUp(Ok(()))), (Phase::Running, Action::Sample));
}

#[test]
fn display_handshake_failure_halts() {
    let (p, a) = step(Phase::Booting, Event::BroughtUp(Err(BootFault::DisplayHandshake)));
    assert_eq!((p, a), (Phase::Panicked, Action::Halt));
    for e in [Event::DelayElapsed, Event::BroughtUp(Ok(())), Event::FrameDone(Ok(())), Event::Fault] {
        assert_eq!(step(p, e), (Phase::Panicked, Action::Idle));
    }
}

#[test]
fn clock_lock_failure_halts() {
    assert_eq!(
        step(Phase::Booting, Event::BroughtUp(Err(BootFault::ClockLock))),
        (Phase::Panicked, Action::Halt)
    );
}

#[test]
fn read_failure_keeps_loop_running() {
    let (p, a) = step(Phase::Running, Event::FrameDone(Err(DeviceError::PmuError)));
    assert_eq!(p, Phase::Running);
    assert_eq!(a, Action::Pause { delay_us: FRAME_DELAY_US, frame_ok: false });
    assert_eq!(step(p, Event::DelayElapsed), (Phase::Running, Action::Sample));
}

#[test]
fn good_frame_pauses_ten_seconds() {
    assert_eq!(
        step(Phase::Running, Event::FrameDone(Ok(()))),
        (Phase::Running, Action::Pause { delay_us: 10_000_000, frame_ok: true })
    );
}

#[test]
fn unhandled_fault_while_running_halts() {
    assert_eq!(step(Phase::Running, Event::Fault), (Phase::Panicked, Action::Halt));
}

#[test]
fn second_bring_up_is_ignored() {
    assert_eq!(step(Phase::Running, Event::BroughtUp(Ok(()))), (Phase::Running, Action::Idle));
}
