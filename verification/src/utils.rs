//! Ownership and change-tracking helpers: a single-use resource cell that
//! turns double release into a checked contract violation, and a watch that
//! polls a closure for whether its subject needs an update.

use vstd::prelude::*;

verus! {

/// Result of polling a `Watch`: the watched subject either needs an update
/// or nothing has changed.
#[derive(Debug, PartialEq, Eq, Structural, Clone, Copy)]
pub enum WatchStatus {
    NeedsUpdate,
    Nothing,
}

impl WatchStatus {
    /// Combines two statuses so that an update is needed as soon as either
    /// side needs one.
    pub fn bitor(self, rhs: Self) -> (r: Self)
        ensures
            r == (if self is NeedsUpdate || rhs is NeedsUpdate {
                WatchStatus::NeedsUpdate
            } else {
                WatchStatus::Nothing
            }),
    {
        match (self, rhs) {
            (WatchStatus::NeedsUpdate, _) | (_, WatchStatus::NeedsUpdate) => {
                WatchStatus::NeedsUpdate
            },
            (WatchStatus::Nothing, WatchStatus::Nothing) => WatchStatus::Nothing,
        }
    }

    /// Combines two statuses so that an update is needed only when both
    /// sides need one.
    pub fn bitand(self, rhs: Self) -> (r: Self)
        ensures
            r == (if self is NeedsUpdate && rhs is NeedsUpdate {
                WatchStatus::NeedsUpdate
            } else {
                WatchStatus::Nothing
            }),
    {
        match (self, rhs) {
            (WatchStatus::NeedsUpdate, WatchStatus::NeedsUpdate) => WatchStatus::NeedsUpdate,
            (WatchStatus::Nothing, _) | (_, WatchStatus::Nothing) => WatchStatus::Nothing,
        }
    }
}

/// Polls a caller-supplied closure to learn whether the watched subject
/// needs an update.
pub struct Watch<F> {
    watchfn: F,
}

impl<F> Watch<F> {
    /// The closure this watch polls.
    pub closed spec fn spec_watchfn(&self) -> F {
        self.watchfn
    }
}

impl<F: Fn() -> WatchStatus> Watch<F> {
    pub fn new(watchfn: F) -> (w: Self)
        ensures
            w.spec_watchfn() == watchfn,
    {
        Watch { watchfn }
    }

    /// Asks the watched subject for its current status; the result is
    /// whatever the closure promises of itself.
    pub fn status(&self) -> (r: WatchStatus)
        requires
            call_requires(self.spec_watchfn(), ()),
        ensures
            call_ensures(self.spec_watchfn(), (), r),
    {
        (self.watchfn)()
    }
}

/// A single-slot ownership cell around an opaque resource handle.
///
/// A cell starts `Used` (the handle is present); `take` moves the handle out
/// exactly once and leaves the cell `Released`. Reading or taking from a
/// `Released` cell is a lifecycle bug, so both accessors demand a `Used`
/// cell: the violation is rejected at verification time rather than turning
/// into a double release at the device boundary.
pub enum InUse<T> {
    Released,
    Used(T),
}

impl<T> InUse<T> {
    /// Moves the held handle out, leaving the cell `Released`; only one
    /// caller can ever do this to a given cell.
    pub fn take(&mut self) -> (t: T)
        requires
            *old(self) is Used,
        ensures
            *final(self) is Released,
            t == (*old(self))->Used_0,
    {
        let mut taken = InUse::Released;
        core::mem::swap(self, &mut taken);
        match taken {
            InUse::Used(t) => t,
            InUse::Released => vstd::pervasive::unreached(),
        }
    }

    /// Reads the held handle without consuming it; the cell keeps its state.
    pub fn as_ref(&self) -> (t: &T)
        requires
            self is Used,
        ensures
            *t == self->Used_0,
    {
        match self {
            InUse::Used(t) => t,
            InUse::Released => vstd::pervasive::unreached(),
        }
    }

    /// True while the handle has not been taken yet.
    pub fn is_used(&self) -> (b: bool)
        ensures
            b == (self is Used),
    {
        match self {
            InUse::Used(_) => true,
            InUse::Released => false,
        }
    }
}

} // verus!
