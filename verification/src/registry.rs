//! The scoped handle registry: one slot, holding at most one reactor
//! handle, populated only by the driver and only for the extent of one
//! driving call, plus the read-only accessors against it.

use vstd::prelude::*;

verus! {

use crate::reactor::clone_handle;

/// The error an accessor or scheduling helper returns instead of acting.
pub enum LoopError {
    /// No reactor is driving the caller's scope, so there is no handle to
    /// schedule against. Helpers refuse rather than hand out a stale or
    /// default handle.
    NotRunning,
    /// The deadline asked for lies beyond the latest representable point
    /// in time, so no timer can be set for it.
    DeadlineOverflow,
}

/// One scoped registry slot. It holds the handle of the reactor currently
/// driving this slot's scope, or nothing when no drive is in progress.
/// Each slot is an independent value: what one holds says nothing about
/// any other.
pub struct Registry {
    slot: Option<tokio_core::reactor::Handle>,
}

impl Registry {
    /// The handle this slot holds, if any.
    pub closed spec fn installed(&self) -> Option<tokio_core::reactor::Handle> {
        self.slot
    }

    /// Whether a drive is in progress in this slot's scope.
    pub open spec fn is_set(&self) -> bool {
        self.installed() is Some
    }

    /// A fresh slot, holding nothing.
    pub fn new() -> (r: Registry)
        ensures
            !r.is_set(),
    {
        Registry { slot: None }
    }

    /// Installs the driving reactor's handle. Only the driver populates a
    /// slot, and never on top of an existing installation: nesting drives
    /// in one scope is not supported.
    pub(crate) fn install(&mut self, h: tokio_core::reactor::Handle)
        requires
            !old(self).is_set(),
        ensures
            final(self).installed() == Some(h),
    {
        self.slot = Some(h);
    }

    /// Empties the slot. The driver calls this on every return path, so a
    /// finished drive never leaves a stale handle behind.
    pub(crate) fn clear(&mut self)
        ensures
            !final(self).is_set(),
    {
        self.slot = None;
    }

    /// Borrows the installed handle without extracting it.
    pub(crate) fn peek(&self) -> (r: Option<&tokio_core::reactor::Handle>)
        ensures
            match r {
                Some(h) => self.installed() == Some(*h),
                None => !self.is_set(),
            },
    {
        match &self.slot {
            Some(h) => Some(h),
            None => None,
        }
    }
}

/// Returns `true` if and only if a reactor is currently driving this slot's
/// scope: exactly when `handle` would succeed. Callers branch on this
/// instead of risking `handle`'s refusal.
pub fn is_running(reg: &Registry) -> (r: bool)
    ensures
        r == reg.is_set(),
{
    match &reg.slot {
        Some(_) => true,
        None => false,
    }
}

/// Returns the handle of the reactor currently driving this slot's scope:
/// the installed handle itself, never one from anywhere else. Outside a
/// driving scope there is no handle, and the call refuses.
pub fn handle(reg: &Registry) -> (r: Result<tokio_core::reactor::Handle, LoopError>)
    ensures
        r is Ok <==> reg.is_set(),
        r matches Ok(h) ==> reg.installed() == Some(h),
        r matches Err(e) ==> e == LoopError::NotRunning,
{
    match reg.peek() {
        Some(h) => Ok(clone_handle(h)),
        None => Err(LoopError::NotRunning),
    }
}

} // verus!
