//! The coordinator that counts the holders of the inhibition and engages the
//! platform backend for the first of them and disengages it after the last.

use vstd::prelude::*;
use crate::backend::{
    enable_outcome, status_of, BackendModel, NativeCall, NativeReply, Platform, PlatformBackend,
    disable_failure,
};
use crate::error::{DiagnosticEvent, EnableStatus, InhibitError};
use crate::handle::{HandleModel, InhibitorHandle};

verus! {

/// What a release did.
#[derive(Clone, Copy, Debug, PartialEq, Eq)]
pub enum ReleaseOutcome {
    /// The handle was spent before, or the manager had nothing outstanding:
    /// nothing changed.
    AlreadyReleased,
    /// One holder fewer; others remain and the backend stays engaged.
    StillActive,
    /// The last holder left and the backend was disengaged. The native call,
    /// if any, returns the backend's resource to the operating system.
    Disengaged(Option<NativeCall>),
}

/// The mathematical content of an [`InhibitionManager`].
pub struct ManagerModel {
    /// Number of handles that were granted and not yet released.
    pub active: nat,
    /// Number of handles granted so far.
    pub issued: nat,
    /// The platform backend.
    pub backend: BackendModel,
    /// Diagnostic events that were recorded and not yet taken.
    pub events: Seq<DiagnosticEvent>,
}

impl ManagerModel {
    /// The manager of `platform` before the first acquisition.
    pub open spec fn idle(platform: Platform) -> ManagerModel {
        ManagerModel {
            active: 0,
            issued: 0,
            backend: BackendModel::idle(platform),
            events: Seq::empty(),
        }
    }

    /// The backend is engaged exactly while a handle is outstanding, and no
    /// more handles are outstanding than were granted.
    pub open spec fn well_formed(self) -> bool {
        &&& self.backend.well_formed()
        &&& self.backend.engaged() <==> self.active > 0
        &&& self.active <= self.issued
    }

    /// The native enable call that the next acquisition waits for: one while
    /// nothing is outstanding, none otherwise.
    pub open spec fn enable_request(self) -> Option<NativeCall> {
        if self.active == 0 {
            Some(crate::backend::enable_call_of(self.backend.platform))
        } else {
            None
        }
    }

    /// The handle that the next successful acquisition grants.
    pub open spec fn next_handle(self) -> HandleModel {
        HandleModel { id: self.issued, consumed: false }
    }

    /// The manager after granting one more handle over `backend`.
    pub open spec fn granted(
        self,
        backend: BackendModel,
        events: Seq<DiagnosticEvent>,
    ) -> ManagerModel {
        ManagerModel {
            active: self.active + 1,
            issued: self.issued + 1,
            backend,
            events: events.push(DiagnosticEvent::Acquired { handle: self.issued as u64 }),
        }
    }

    /// An acquisition. While handles are outstanding it only counts. Otherwise
    /// it needs the reply to the enable call: without one, or with one that
    /// reports failure, nothing changes and the acquisition is refused.
    pub open spec fn acquire(self, reply: Option<NativeReply>) -> (ManagerModel, Result<
        HandleModel,
        InhibitError,
    >) {
        if self.active > 0 {
            (self.granted(self.backend, self.events), Ok(self.next_handle()))
        } else {
            match reply {
                None => (self, Err(InhibitError::BackendUnavailable)),
                Some(r) => match enable_outcome(self.backend.platform, r) {
                    Err(e) => (self, Err(e)),
                    Ok(resource) => (
                        self.granted(
                            BackendModel { platform: self.backend.platform, resource },
                            if status_of(resource) == EnableStatus::DegradedUnenforced {
                                self.events.push(DiagnosticEvent::DegradedUnenforced)
                            } else {
                                self.events
                            },
                        ),
                        Ok(self.next_handle()),
                    ),
                },
            }
        }
    }

    /// Whether releasing `handle` changes the count.
    pub open spec fn release_counts(self, handle: HandleModel) -> bool {
        !handle.consumed && self.active > 0
    }

    /// A release: the manager afterwards, the handle afterwards and what the
    /// caller is told. A spent handle changes nothing; the last holder to
    /// leave disengages the backend.
    pub open spec fn release(self, handle: HandleModel) -> (
        ManagerModel,
        HandleModel,
        ReleaseOutcome,
    ) {
        let spent = HandleModel { id: handle.id, consumed: true };
        if !self.release_counts(handle) {
            (self, spent, ReleaseOutcome::AlreadyReleased)
        } else {
            let events = self.events.push(DiagnosticEvent::Released { handle: handle.id as u64 });
            if self.active > 1 {
                (
                    ManagerModel {
                        active: (self.active - 1) as nat,
                        issued: self.issued,
                        backend: self.backend,
                        events,
                    },
                    spent,
                    ReleaseOutcome::StillActive,
                )
            } else {
                (
                    ManagerModel {
                        active: 0,
                        issued: self.issued,
                        backend: self.backend.disable().0,
                        events,
                    },
                    spent,
                    ReleaseOutcome::Disengaged(self.backend.disable().1),
                )
            }
        }
    }

    /// The manager after the disable call came back with `reply`: a failure is
    /// recorded and nothing else changes.
    pub open spec fn report_disable(self, reply: NativeReply) -> ManagerModel {
        if disable_failure(self.backend.platform, reply) {
            ManagerModel {
                active: self.active,
                issued: self.issued,
                backend: self.backend,
                events: self.events.push(DiagnosticEvent::DisableFailed),
            }
        } else {
            self
        }
    }
}

/// Counts the holders of the sleep inhibition and owns the platform backend.
#[derive(Debug)]
pub struct InhibitionManager {
    active_count: u64,
    issued: u64,
    backend: PlatformBackend,
    events: Vec<DiagnosticEvent>,
}

impl View for InhibitionManager {
    type V = ManagerModel;

    closed spec fn view(&self) -> ManagerModel {
        ManagerModel {
            active: self.active_count as nat,
            issued: self.issued as nat,
            backend: self.backend@,
            events: self.events@,
        }
    }
}

impl InhibitionManager {
    /// A manager for `platform` with nothing outstanding.
    pub fn new(platform: Platform) -> (manager: InhibitionManager)
        ensures
            manager@ == ManagerModel::idle(platform),
            manager@.well_formed(),
    {
        InhibitionManager {
            active_count: 0,
            issued: 0,
            backend: PlatformBackend::new(platform),
            events: Vec::new(),
        }
    }

    /// Number of handles that are outstanding.
    pub fn active_count(&self) -> (count: u64)
        ensures
            count == self@.active,
    {
        self.active_count
    }

    /// The platform whose backend this manager owns.
    pub fn platform(&self) -> (platform: Platform)
        ensures
            platform == self@.backend.platform,
    {
        self.backend.platform()
    }

    /// Number of handles granted so far.
    pub fn issued(&self) -> (issued: u64)
        ensures
            issued == self@.issued,
    {
        self.issued
    }

    /// Whether the backend is engaged, which is the case exactly while a
    /// handle is outstanding.
    pub fn is_active(&self) -> (active: bool)
        requires
            self@.well_formed(),
        ensures
            active == (self@.active > 0),
            active == self@.backend.engaged(),
    {
        self.active_count > 0
    }

    /// The native enable call to perform before the next
    /// [`InhibitionManager::acquire`], or `None` where the backend is engaged
    /// already and the acquisition only counts.
    pub fn enable_request(&self) -> (call: Option<NativeCall>)
        requires
            self@.well_formed(),
        ensures
            call == self@.enable_request(),
            call.is_some() <==> self@.active == 0,
    {
        self.backend.enable_call()
    }

    /// Grants a handle. `reply` is what the call named by
    /// [`InhibitionManager::enable_request`] came back with, and is not looked
    /// at while handles are outstanding.
    pub fn acquire(&mut self, reply: Option<NativeReply>) -> (result: Result<
        InhibitorHandle,
        InhibitError,
    >)
        requires
            old(self)@.well_formed(),
            old(self)@.issued < u64::MAX,
        ensures
            final(self)@ == old(self)@.acquire(reply).0,
            match result {
                Ok(handle) => old(self)@.acquire(reply).1 == Ok::<HandleModel, InhibitError>(
                    handle@,
                ),
                Err(e) => old(self)@.acquire(reply).1 == Err::<HandleModel, InhibitError>(e),
            },
            final(self)@.well_formed(),
    {
        if self.active_count == 0 {
            match reply {
                None => {
                    return Err(InhibitError::BackendUnavailable);
                },
                Some(r) => {
                    match self.backend.enable(r) {
                        Err(e) => {
                            return Err(e);
                        },
                        Ok(EnableStatus::DegradedUnenforced) => {
                            self.events.push(DiagnosticEvent::DegradedUnenforced);
                        },
                        Ok(EnableStatus::Enforced) => {},
                    }
                },
            }
        }
        let id: u64 = self.issued;
        self.events.push(DiagnosticEvent::Acquired { handle: id });
        self.issued = id + 1;
        self.active_count = self.active_count + 1;
        Ok(InhibitorHandle::issue(id))
    }

    /// Releases `handle`. A handle that was released before changes nothing.
    /// Otherwise the handle is spent and the count goes down; when it reaches
    /// zero the backend is disengaged and the outcome carries the native
    /// disable call for the caller to perform.
    pub fn release(&mut self, handle: &mut InhibitorHandle) -> (outcome: ReleaseOutcome)
        ensures
            (final(self)@, final(handle)@, outcome) == old(self)@.release(old(handle)@),
            old(self)@.well_formed() ==> final(self)@.well_formed(),
    {
        let counts: bool = !handle.is_consumed() && self.active_count > 0;
        handle.consume();
        if !counts {
            return ReleaseOutcome::AlreadyReleased;
        }
        self.events.push(DiagnosticEvent::Released { handle: handle.id() });
        self.active_count = self.active_count - 1;
        if self.active_count > 0 {
            ReleaseOutcome::StillActive
        } else {
            ReleaseOutcome::Disengaged(self.backend.disable())
        }
    }

    /// Takes note of what the native disable call came back with. A failure
    /// is recorded as an event and never reaches the session.
    pub fn report_disable(&mut self, reply: NativeReply)
        ensures
            final(self)@ == old(self)@.report_disable(reply),
            old(self)@.well_formed() ==> final(self)@.well_formed(),
    {
        if self.backend.disable_failed(reply) {
            self.events.push(DiagnosticEvent::DisableFailed);
        }
    }

    /// Hands out the events recorded since the last call, oldest first, and
    /// forgets them.
    pub fn take_events(&mut self) -> (events: Vec<DiagnosticEvent>)
        ensures
            events@ == old(self)@.events,
            final(self)@ == (ManagerModel {
                active: old(self)@.active,
                issued: old(self)@.issued,
                backend: old(self)@.backend,
                events: Seq::empty(),
            }),
    {
        let mut events: Vec<DiagnosticEvent> = Vec::new();
        std::mem::swap(&mut self.events, &mut events);
        events
    }
}

} // verus!
