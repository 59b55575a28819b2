use easyloop::driver::{run, run_forever, Driveable, RunError};
use easyloop::registry::{handle, is_running, LoopError, Registry};
use easyloop::sched::{interval, spawn, spawn_fn, timeout, timeout_at, Spawnable};
use std::cell::Cell;
use std::rc::Rc;
use std::time::{Duration, Instant};

/// Work that is already settled: driving it returns the stored outcome.
struct Ready<T, E>(Result<T, E>);

impl<T, E> Driveable for Ready<T, E> {
    type Item = T;
    type Error = E;
    fn drive_on(self, _core: &mut tokio_core::reactor::Core) -> Result<T, E> {
        self.0
    }
}

/// A spawnable that records whether it was ever registered.
struct Marker(Rc<Cell<bool>>);

impl Spawnable for Marker {
    fn schedule(self, _h: &tokio_core::reactor::Handle) {
        self.0.set(true);
    }
}

#[test]
fn fresh_slot_is_not_running() {
    let reg = Registry::new();
    assert!(!is_running(&reg));
    assert!(matches!(handle(&reg), Err(LoopError::NotRunning)));
}

#[test]
fn helpers_refuse_outside_scope() {
    let reg = Registry::new();
    let dur = Duration::from_millis(10);
    assert!(matches!(timeout(&reg, dur), Err(LoopError::NotRunning)));
    assert!(matches!(
        timeout_at(&reg, Instant::now() + dur),
        Err(LoopError::NotRunning)
    ));
    assert!(matches!(interval(&reg, dur), Err(LoopError::NotRunning)));

    let registered = Rc::new(Cell::new(false));
    let r = spawn(&reg, Marker(registered.clone()));
    assert!(matches!(r, Err(LoopError::NotRunning)));
    assert!(!registered.get());

    let invoked = Rc::new(Cell::new(false));
    let invoked2 = invoked.clone();
    let registered2 = Rc::new(Cell::new(false));
    let registered3 = registered2.clone();
    let r = spawn_fn(&reg, move || {
        invoked2.set(true);
        Marker(registered3)
    });
    assert!(matches!(r, Err(LoopError::NotRunning)));
    assert!(!invoked.get());
    assert!(!registered2.get());
}

#[test]
fn running_inside_scope_only() {
    let mut reg = Registry::new();
    assert!(!is_running(&reg));
    let r = run(&mut reg, |c: &Registry| {
        assert!(is_running(c));
        assert!(handle(c).is_ok());
        Ready(Ok::<u32, u32>(7))
    });
    assert!(matches!(r, Ok(7)));
    assert!(!is_running(&reg));
    assert!(matches!(handle(&reg), Err(LoopError::NotRunning)));
}

#[test]
fn run_propagates_success_verbatim() {
    let mut reg = Registry::new();
    let r = run(&mut reg, |_c: &Registry| Ready(Ok::<u32, u32>(12345)));
    assert!(matches!(r, Ok(12345)));
    assert!(!is_running(&reg));
}

#[test]
fn run_propagates_error_verbatim() {
    let mut reg = Registry::new();
    let r = run(&mut reg, |_c: &Registry| Ready(Err::<u32, u32>(41)));
    assert!(matches!(r, Err(RunError::Settled(41))));
    assert!(!is_running(&reg));
}

#[test]
fn run_forever_propagates_init_error() {
    let mut reg = Registry::new();
    let r = run_forever(&mut reg, |_c: &Registry| Err::<(), u32>(9));
    assert!(matches!(r, Err(RunError::Settled(9))));
    assert!(!is_running(&reg));
}

#[test]
fn run_forever_sees_running_scope() {
    let mut reg = Registry::new();
    let r = run_forever(&mut reg, |c: &Registry| {
        assert!(is_running(c));
        // Fail initialization so the call returns instead of running on.
        Err::<(), u8>(1)
    });
    assert!(matches!(r, Err(RunError::Settled(1))));
    assert!(!is_running(&reg));
}

#[test]
fn far_deadline_is_refused_not_panicked() {
    let mut reg = Registry::new();
    let r = run(&mut reg, |c: &Registry| {
        let huge = Duration::from_secs(u64::MAX);
        assert!(matches!(timeout(c, huge), Err(LoopError::DeadlineOverflow)));
        assert!(matches!(interval(c, huge), Err(LoopError::DeadlineOverflow)));
        Ready(Ok::<u8, u8>(0))
    });
    assert!(matches!(r, Ok(0)));
    assert!(!is_running(&reg));
}

#[test]
fn two_slots_are_independent() {
    let mut reg_a = Registry::new();
    let reg_b = Registry::new();
    let r = run(&mut reg_a, |ca: &Registry| {
        assert!(is_running(ca));
        assert!(!is_running(&reg_b));
        assert!(matches!(handle(&reg_b), Err(LoopError::NotRunning)));
        Ready(Ok::<u8, u8>(0))
    });
    assert!(matches!(r, Ok(0)));
    assert!(!is_running(&reg_a));
    assert!(!is_running(&reg_b));
}
