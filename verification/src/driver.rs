//! The driver: builds a reactor, installs its handle for the extent of
//! one call, drives work to settlement, and empties the slot again on
//! every return path, propagating the settled outcome verbatim.

use vstd::prelude::*;

verus! {

use crate::reactor::{core_handle, drive_forever, new_core};
use crate::registry::Registry;

/// A unit of work a driving call can run to settlement: driving the reactor
/// advances it until it settles to a success or an error value. The library
/// implements this for its own timers; a caller whose initialization
/// produces some other kind of work implements it for that work.
pub trait Driveable: Sized {
    /// What the work settles to on success.
    type Item;

    /// What the work settles to on failure.
    type Error;

    /// Drives `core` until `self` settles, and returns the settled outcome.
    fn drive_on(self, core: &mut tokio_core::reactor::Core) -> Result<Self::Item, Self::Error>;
}

/// The error a driving call returns.
pub enum RunError<E> {
    /// The reactor could not be built. This is fatal to the call and is
    /// surfaced at once; no installation had happened yet.
    Create(std::io::Error),
    /// The driven work settled with this error, handed back verbatim.
    Settled(E),
}

/// Empties the slot and hands the settled outcome back: a success value is
/// returned as it is, and an error value verbatim, wrapped only to tell it
/// apart from a construction failure. Every return path of a driving call
/// goes through here, so no path leaves a handle installed.
pub fn conclude_run<T, E>(reg: &mut Registry, settled: Result<T, E>) -> (r: Result<T, RunError<E>>)
    ensures
        !final(reg).is_set(),
        match settled {
            Ok(v) => r == Ok::<T, RunError<E>>(v),
            Err(e) => r == Err::<T, RunError<E>>(RunError::Settled(e)),
        },
{
    reg.clear();
    match settled {
        Ok(v) => Ok(v),
        Err(e) => Err(RunError::Settled(e)),
    }
}

/// Builds a reactor, installs its handle into `reg` for the extent of the
/// call, obtains the work to drive from `init` (which may schedule against
/// `reg` meanwhile), drives the reactor until that work settles, and hands
/// the settled outcome back through `conclude_run`. Whichever way the call
/// ends, the slot is empty again when it returns. Nesting a second driving
/// call inside `init` or inside the driven work is not supported. An
/// unwind out of `init` or the driven work bypasses the teardown here, so
/// a caller who catches unwinds gives each driving call a fresh slot.
pub fn run<I, D>(reg: &mut Registry, init: I) -> (r: Result<D::Item, RunError<D::Error>>) where
    I: FnOnce(&Registry) -> D,
    D: Driveable,

    requires
        !old(reg).is_set(),
        forall|c: &Registry| c.is_set() ==> #[trigger] call_requires(init, (c,)),
    ensures
        !final(reg).is_set(),
        r matches Err(RunError::Create(_)) ==> *final(reg) == *old(reg),
{
    match new_core() {
        Err(e) => Err(RunError::Create(e)),
        Ok(mut core) => {
            let h = core_handle(&core);
            reg.install(h);
            let fut = init(&*reg);
            let settled = fut.drive_on(&mut core);
            conclude_run(reg, settled)
        },
    }
}

/// Empties the slot and settles a `run_forever` call: a failed
/// initialization hands its error back verbatim, while after a successful
/// one the reactor is driven indefinitely on work that never resolves, so
/// the success path is only ever reached by outside teardown.
pub fn settle_forever<E>(
    reg: &mut Registry,
    core: &mut tokio_core::reactor::Core,
    started: Result<(), E>,
) -> (r: Result<(), RunError<E>>)
    ensures
        !final(reg).is_set(),
        match started {
            Ok(_) => r == Ok::<(), RunError<E>>(()),
            Err(e) => r == Err::<(), RunError<E>>(RunError::Settled(e)),
        },
{
    match started {
        Ok(_) => {
            drive_forever(core);
            reg.clear();
            Ok(())
        },
        Err(e) => {
            reg.clear();
            Err(RunError::Settled(e))
        },
    }
}

/// Builds a reactor, installs its handle into `reg` for the extent of the
/// call, and runs `init` once, expecting it to schedule its work against
/// `reg`. If `init` fails, its error is handed back verbatim; if it
/// succeeds, the reactor is driven indefinitely to service what was
/// scheduled, and the call does not return. On the paths that do return,
/// the slot is empty again. Nesting a second driving call inside `init` is
/// not supported, and an unwind out of `init` bypasses the teardown here,
/// so a caller who catches unwinds gives each driving call a fresh slot.
pub fn run_forever<I, E>(reg: &mut Registry, init: I) -> (r: Result<(), RunError<E>>) where
    I: FnOnce(&Registry) -> Result<(), E>,

    requires
        !old(reg).is_set(),
        forall|c: &Registry| c.is_set() ==> #[trigger] call_requires(init, (c,)),
    ensures
        !final(reg).is_set(),
        r matches Err(RunError::Create(_)) ==> *final(reg) == *old(reg),
{
    match new_core() {
        Err(e) => Err(RunError::Create(e)),
        Ok(mut core) => {
            let h = core_handle(&core);
            reg.install(h);
            let started = init(&*reg);
            settle_forever(reg, &mut core, started)
        },
    }
}

} // verus!
