//! Scheduling helpers: each reads the installed handle and forwards to
//! the reactor's native primitive, refusing outside a driving scope.

use vstd::prelude::*;

verus! {

use crate::reactor::{defer_spawn, new_interval, new_timeout, new_timeout_at};
use crate::registry::{LoopError, Registry};

/// A unit of work that can be registered with a reactor through a handle,
/// to run there alongside, and independently of, whoever registered it.
/// Implement it for the work to be handed to `spawn` or produced for
/// `spawn_fn`; an implementation registers `self` with the reactor behind
/// `h` and returns at once.
pub trait Spawnable: Sized {
    /// Registers `self` with the reactor behind `h`, without blocking.
    fn schedule(self, h: &tokio_core::reactor::Handle);
}

/// Builds a one-shot timer on the reactor currently driving this slot's
/// scope, set to settle at the moment `dur` from now. Outside a driving
/// scope the call refuses; inside one it succeeds, unless that moment
/// lies beyond the latest representable point in time.
pub fn timeout(reg: &Registry, dur: std::time::Duration) -> (r: Result<
    tokio_core::reactor::Timeout,
    LoopError,
>)
    ensures
        !reg.is_set() ==> r == Err::<tokio_core::reactor::Timeout, LoopError>(
            LoopError::NotRunning,
        ),
        reg.is_set() ==> (r is Ok || r == Err::<tokio_core::reactor::Timeout, LoopError>(
            LoopError::DeadlineOverflow,
        )),
{
    match reg.peek() {
        None => Err(LoopError::NotRunning),
        Some(h) => match new_timeout(dur, h) {
            Some(t) => Ok(t),
            None => Err(LoopError::DeadlineOverflow),
        },
    }
}

/// As `timeout`, but the timer settles at the absolute instant `at`,
/// already given in full. Inside a driving scope the call always
/// succeeds: the reactor constructs an absolute timer unconditionally.
pub fn timeout_at(reg: &Registry, at: std::time::Instant) -> (r: Result<
    tokio_core::reactor::Timeout,
    LoopError,
>)
    ensures
        r is Ok <==> reg.is_set(),
        r matches Err(e) ==> e == LoopError::NotRunning,
{
    match reg.peek() {
        None => Err(LoopError::NotRunning),
        Some(h) => Ok(new_timeout_at(at, h).unwrap()),
    }
}

/// Builds an unbounded tick stream on the reactor currently driving this
/// slot's scope, first ticking the moment `dur` from now and then every
/// `dur`; it ends only when its consumer stops consuming it. Outside a
/// driving scope the call refuses; inside one it succeeds, unless the
/// first tick's moment lies beyond the latest representable point in
/// time.
pub fn interval(reg: &Registry, dur: std::time::Duration) -> (r: Result<
    tokio_core::reactor::Interval,
    LoopError,
>)
    ensures
        !reg.is_set() ==> r == Err::<tokio_core::reactor::Interval, LoopError>(
            LoopError::NotRunning,
        ),
        reg.is_set() ==> (r is Ok || r == Err::<tokio_core::reactor::Interval, LoopError>(
            LoopError::DeadlineOverflow,
        )),
{
    match reg.peek() {
        None => Err(LoopError::NotRunning),
        Some(h) => match new_interval(dur, h) {
            Some(t) => Ok(t),
            None => Err(LoopError::DeadlineOverflow),
        },
    }
}

/// Registers `s` with the reactor currently driving this slot's scope, to
/// run there alongside, and independently of, the caller's own
/// continuation. Side effect only. Outside a driving scope the call
/// refuses and nothing is registered.
pub fn spawn<S: Spawnable>(reg: &Registry, s: S) -> (r: Result<(), LoopError>)
    ensures
        r is Ok <==> reg.is_set(),
        r matches Err(e) ==> e == LoopError::NotRunning,
{
    match reg.peek() {
        Some(h) => {
            s.schedule(h);
            Ok(())
        },
        None => Err(LoopError::NotRunning),
    }
}

/// As `spawn`, but the work is produced lazily: `f` is invoked once, at the
/// point the reactor is ready to begin driving work, rather than eagerly
/// here, and what it produces is registered then. Outside a driving scope
/// the call refuses and `f` is never invoked.
pub fn spawn_fn<F, S>(reg: &Registry, f: F) -> (r: Result<(), LoopError>) where
    F: FnOnce() -> S + 'static,
    S: Spawnable + 'static,

    requires
        call_requires(f, ()),
    ensures
        r is Ok <==> reg.is_set(),
        r matches Err(e) ==> e == LoopError::NotRunning,
{
    match reg.peek() {
        Some(h) => {
            defer_spawn(
                h,
                (move |hh: &tokio_core::reactor::Handle|
                    {
                        let s = f();
                        s.schedule(hh);
                    }),
            );
            Ok(())
        },
        None => Err(LoopError::NotRunning),
    }
}

} // verus!
