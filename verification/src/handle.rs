//! The token that stands for one outstanding inhibition request.

use vstd::prelude::*;
use crate::manager::{InhibitionManager, ReleaseOutcome};

verus! {

/// The mathematical content of an [`InhibitorHandle`].
pub struct HandleModel {
    /// Which acquisition this is, counted from zero over the manager's life.
    pub id: nat,
    /// Whether the handle has been through a release.
    pub consumed: bool,
}

/// Proof of one acquisition. It cannot be copied; a release consumes it, and a
/// consumed handle releases nothing more.
#[derive(Debug)]
pub struct InhibitorHandle {
    id: u64,
    consumed: bool,
}

impl View for InhibitorHandle {
    type V = HandleModel;

    closed spec fn view(&self) -> HandleModel {
        HandleModel { id: self.id as nat, consumed: self.consumed }
    }
}

impl InhibitorHandle {
    /// A fresh handle for acquisition number `id`.
    pub(crate) fn issue(id: u64) -> (handle: InhibitorHandle)
        ensures
            handle@ == (HandleModel { id: id as nat, consumed: false }),
    {
        InhibitorHandle { id, consumed: false }
    }

    /// Marks the handle as spent.
    pub(crate) fn consume(&mut self)
        ensures
            final(self)@ == (HandleModel { id: old(self)@.id, consumed: true }),
    {
        self.consumed = true;
    }

    /// The number of the acquisition that this handle stands for.
    pub fn id(&self) -> (id: u64)
        ensures
            id == self@.id,
    {
        self.id
    }

    /// Releases this handle at `manager`, which is the manager that granted
    /// it. A second release does nothing.
    pub fn release(&mut self, manager: &mut InhibitionManager) -> (outcome: ReleaseOutcome)
        ensures
            (final(manager)@, final(self)@, outcome) == old(manager)@.release(old(self)@),
            old(manager)@.well_formed() ==> final(manager)@.well_formed(),
    {
        manager.release(self)
    }

    /// Whether the handle has been released already.
    pub fn is_consumed(&self) -> (consumed: bool)
        ensures
            consumed == self@.consumed,
    {
        self.consumed
    }
}

} // verus!
