//! The trusted boundary: declarations of the reactor engine's types and
//! thin wrappers around the calls the library makes into it. Everything
//! else in the crate is verified against the contracts stated here.

use vstd::prelude::*;

verus! {

/// tokio_core's event loop. Opaque here: it is created, handed out as a
/// handle, and driven, all through the trusted functions below.
#[verifier::external_type_specification]
#[verifier::external_body]
pub struct ExCore(tokio_core::reactor::Core);

/// A cheap capability referencing one reactor. Opaque here.
#[verifier::external_type_specification]
#[verifier::external_body]
pub struct ExHandle(tokio_core::reactor::Handle);

/// A one-shot timer future tied to one reactor. Opaque here.
#[verifier::external_type_specification]
#[verifier::external_body]
pub struct ExTimeout(tokio_core::reactor::Timeout);

/// A periodic tick stream tied to one reactor. Opaque here.
#[verifier::external_type_specification]
#[verifier::external_body]
pub struct ExInterval(tokio_core::reactor::Interval);

/// The error type the reactor reports from construction. Opaque here.
#[verifier::external_type_specification]
#[verifier::external_body]
pub struct ExIoError(std::io::Error);

/// An absolute point in time, for timers with an absolute deadline.
#[verifier::external_type_specification]
#[verifier::external_body]
pub struct ExInstant(std::time::Instant);

/// Relies on tokio_core::reactor::Core::new: builds a fresh reactor, or
/// reports the resource failure that kept one from being built.
#[verifier::external_body]
pub(crate) fn new_core() -> Result<tokio_core::reactor::Core, std::io::Error> {
    tokio_core::reactor::Core::new()
}

/// Relies on tokio_core::reactor::Core::handle: returns a handle that
/// references this reactor.
#[verifier::external_body]
pub(crate) fn core_handle(core: &tokio_core::reactor::Core) -> tokio_core::reactor::Handle {
    core.handle()
}

/// Relies on the derived Clone of tokio_core::reactor::Handle: a clone is
/// an equivalent capability, referencing the same reactor as the original.
#[verifier::external_body]
pub(crate) fn clone_handle(h: &tokio_core::reactor::Handle) -> (r: tokio_core::reactor::Handle)
    ensures
        r == *h,
{
    h.clone()
}

/// Relies on std's Instant::checked_add and on tokio_core's
/// Timeout::new_at: the timer's deadline is the moment `dur` from now;
/// `None` comes back exactly when that moment cannot be represented, and
/// otherwise the timer, whose construction new_at never refuses in the
/// version built against.
#[verifier::external_body]
pub(crate) fn new_timeout(
    dur: std::time::Duration,
    h: &tokio_core::reactor::Handle,
) -> Option<tokio_core::reactor::Timeout> {
    let at = std::time::Instant::now().checked_add(dur)?;
    tokio_core::reactor::Timeout::new_at(at, h).ok()
}

/// Relies on tokio_core::reactor::Timeout::new_at: a one-shot timer on the
/// reactor behind `h`, settling at the absolute instant `at`. In the
/// version built against, construction is unconditional, so the call
/// always succeeds.
#[verifier::external_body]
pub(crate) fn new_timeout_at(
    at: std::time::Instant,
    h: &tokio_core::reactor::Handle,
) -> (r: Result<tokio_core::reactor::Timeout, std::io::Error>)
    ensures
        r is Ok,
{
    tokio_core::reactor::Timeout::new_at(at, h)
}

/// Relies on std's Instant::checked_add and on tokio_core's
/// Interval::new_at: the first tick is due the moment `dur` from now and
/// one more every `dur` after it; `None` comes back exactly when that
/// first moment cannot be represented, and otherwise the stream, whose
/// construction new_at never refuses in the version built against.
#[verifier::external_body]
pub(crate) fn new_interval(
    dur: std::time::Duration,
    h: &tokio_core::reactor::Handle,
) -> Option<tokio_core::reactor::Interval> {
    let at = std::time::Instant::now().checked_add(dur)?;
    tokio_core::reactor::Interval::new_at(at, dur, h).ok()
}

/// Relies on tokio_core::reactor::Handle::spawn_fn: runs `f` once, handing
/// it a clone of the handle, at the point the reactor is ready to begin
/// driving work, rather than eagerly here; what `f` schedules then runs on
/// the reactor this handle references. If the reactor is gone by then,
/// nothing is registered and `f` is never invoked.
#[verifier::external_body]
pub(crate) fn defer_spawn<F>(h: &tokio_core::reactor::Handle, f: F) where
    F: FnOnce(&tokio_core::reactor::Handle) + 'static,
 {
    let h2 = h.clone();
    h.spawn_fn(move || {
        f(&h2);
        Ok::<(), ()>(())
    })
}

/// Relies on tokio_core::reactor::Core::run: drives the reactor, servicing
/// timers and spawned work, until the one-shot timer `t` settles, and
/// returns the settled outcome. A second, nested drive on one thread is
/// refused loudly by the reactor.
#[verifier::external_body]
pub(crate) fn drive_timeout(
    core: &mut tokio_core::reactor::Core,
    t: tokio_core::reactor::Timeout,
) -> Result<(), std::io::Error> {
    core.run(t)
}

impl crate::driver::Driveable for tokio_core::reactor::Timeout {
    type Item = ();

    type Error = std::io::Error;

    fn drive_on(self, core: &mut tokio_core::reactor::Core) -> Result<(), std::io::Error> {
        drive_timeout(core, self)
    }
}

/// Relies on tokio_core::reactor::Core::run and futures::empty: the empty
/// future never resolves, so the reactor runs indefinitely, servicing
/// spawned work, and this call does not return. A second, nested drive on
/// one thread is refused loudly by the reactor.
#[verifier::external_body]
pub(crate) fn drive_forever(core: &mut tokio_core::reactor::Core) {
    let _: Result<(), ()> = core.run(futures::empty());
}

} // verus!
