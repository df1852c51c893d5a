//! The platform backends: what has to be asked of each operating system to
//! keep the host awake, how its answer is read, and what undoes the request.
//!
//! A backend never talks to the operating system itself. It names the native
//! call to perform ([`NativeCall`]) and is told what came back
//! ([`NativeReply`]); the embedding program does the talking in between.

use vstd::prelude::*;
use crate::error::{EnableStatus, InhibitError};

verus! {

/// Execution-state flag: the request stays in force until it is replaced.
pub const ES_CONTINUOUS: u32 = 0x8000_0000;

/// Execution-state flag: the system is required and must not idle to sleep.
pub const ES_SYSTEM_REQUIRED: u32 = 0x0000_0001;

/// Both flags together, as handed to the operating system on enable.
pub const ES_AWAKE: u32 = 0x8000_0001;

/// Status with which the macOS power-management calls report success.
pub const IO_RETURN_SUCCESS: i32 = 0;

/// The macOS assertion type that prevents the system from sleeping when idle.
pub const ASSERTION_KIND: &'static str = "PreventUserIdleSystemSleep";

/// Why the host has to stay awake, in words for its user.
pub const REASON: &'static str = "A tunnel session is being hosted";

/// In whose name the Linux login service is asked.
pub const INHIBIT_WHO: &'static str = "Tunnel host";

/// What the Linux login service is asked to hold off.
pub const INHIBIT_WHAT: &'static str = "sleep";

/// The lock mode that holds sleep off, rather than delaying it.
pub const INHIBIT_MODE: &'static str = "block";

/// The enable flags are "continuous" and "system required", and nothing else.
pub proof fn awake_is_both_flags()
    ensures
        ES_AWAKE == ES_CONTINUOUS | ES_SYSTEM_REQUIRED,
{
    assert(0x8000_0001u32 == 0x8000_0000u32 | 0x0000_0001u32) by (bit_vector);
}

/// The operating systems with a sleep-prevention facility.
#[derive(Clone, Copy, Debug, PartialEq, Eq, Structural)]
pub enum Platform {
    Windows,
    MacOs,
    Linux,
}

/// The platform that goes by `name`, in the spelling of
/// `std::env::consts::OS`; none for a system without a backend.
pub open spec fn platform_named(name: Seq<char>) -> Option<Platform> {
    if name == "windows"@ {
        Some(Platform::Windows)
    } else if name == "macos"@ {
        Some(Platform::MacOs)
    } else if name == "linux"@ {
        Some(Platform::Linux)
    } else {
        None
    }
}

/// Selects the platform by the name of the operating system.
pub fn platform_for_os(name: &str) -> (platform: Option<Platform>)
    ensures
        platform == platform_named(name@),
{
    let name: String = name.to_owned();
    if name == "windows".to_owned() {
        Some(Platform::Windows)
    } else if name == "macos".to_owned() {
        Some(Platform::MacOs)
    } else if name == "linux".to_owned() {
        Some(Platform::Linux)
    } else {
        None
    }
}

/// A native call that the embedding program performs for a backend.
#[derive(Clone, Copy, Debug, PartialEq, Eq)]
pub enum NativeCall {
    /// Windows: set the calling thread's execution state to `flags`.
    SetExecutionState { flags: u32 },
    /// macOS: create a power assertion of type `kind`, switched on, with
    /// `reason` as the text that tells the user why the host stays awake.
    CreateAssertion { kind: &'static str, reason: &'static str },
    /// macOS: destroy the power assertion with this identifier.
    ReleaseAssertion { assertion: u32 },
    /// Linux: ask the login service for an inhibitor lock on `what`, held in
    /// `mode`, in the name of `who` and for the reason `why`.
    RequestInhibit { what: &'static str, who: &'static str, why: &'static str, mode: &'static str },
    /// Linux: close the descriptor that holds the inhibitor.
    CloseDescriptor { descriptor: i32 },
}

/// What a native call came back with.
#[derive(Clone, Copy, Debug, PartialEq, Eq, Structural)]
pub enum NativeReply {
    /// Windows: the execution state that was in force before; zero on failure.
    ExecutionState { previous: u32 },
    /// macOS: status of the creation and, on success, the new identifier.
    AssertionCreated { status: i32, assertion: u32 },
    /// macOS: status of the destruction.
    AssertionReleased { status: i32 },
    /// Linux: the service handed over this descriptor.
    InhibitGranted { descriptor: i32 },
    /// Linux: no login service answered.
    ServiceUnreachable,
    /// Linux: status of closing the descriptor, zero on success.
    DescriptorClosed { status: i32 },
}

/// What an engaged backend holds in order to undo its request.
#[derive(Clone, Copy, Debug, PartialEq, Eq, Structural)]
pub enum Resource {
    /// Nothing: the backend is not engaged.
    Idle,
    /// Windows: the execution state that was in force before the request.
    ExecutionState { prior: u32 },
    /// macOS: the identifier of the power assertion.
    Assertion { assertion: u32 },
    /// Linux: the descriptor that keeps sleep suppressed while it is open.
    Descriptor { descriptor: i32 },
    /// Linux: engaged without an enforcement channel.
    Unenforced,
}

/// Reads the reply to the enable call of `platform`: the resource now held, or
/// the reason why the backend could not be engaged.
pub open spec fn enable_outcome(platform: Platform, reply: NativeReply) -> Result<
    Resource,
    InhibitError,
> {
    match (platform, reply) {
        (Platform::Windows, NativeReply::ExecutionState { previous }) => if previous != 0 {
            Ok(Resource::ExecutionState { prior: previous })
        } else {
            Err(InhibitError::BackendUnavailable)
        },
        (Platform::MacOs, NativeReply::AssertionCreated { status, assertion }) => if status
            == IO_RETURN_SUCCESS {
            Ok(Resource::Assertion { assertion })
        } else {
            Err(InhibitError::BackendUnavailable)
        },
        (Platform::Linux, NativeReply::InhibitGranted { descriptor }) => if descriptor >= 0 {
            Ok(Resource::Descriptor { descriptor })
        } else {
            Err(InhibitError::BackendUnavailable)
        },
        (Platform::Linux, NativeReply::ServiceUnreachable) => Ok(Resource::Unenforced),
        _ => Err(InhibitError::BackendUnavailable),
    }
}

/// The native call that engages the backend of `platform`.
pub open spec fn enable_call_of(platform: Platform) -> NativeCall {
    match platform {
        Platform::Windows => NativeCall::SetExecutionState { flags: ES_AWAKE },
        Platform::MacOs => NativeCall::CreateAssertion { kind: ASSERTION_KIND, reason: REASON },
        Platform::Linux => NativeCall::RequestInhibit {
            what: INHIBIT_WHAT,
            who: INHIBIT_WHO,
            why: REASON,
            mode: INHIBIT_MODE,
        },
    }
}

/// The native call that gives `resource` back, if one is needed.
pub open spec fn disable_call_of(resource: Resource) -> Option<NativeCall> {
    match resource {
        Resource::Idle => None,
        Resource::ExecutionState { prior } => Some(
            NativeCall::SetExecutionState { flags: ES_CONTINUOUS },
        ),
        Resource::Assertion { assertion } => Some(NativeCall::ReleaseAssertion { assertion }),
        Resource::Descriptor { descriptor } => Some(NativeCall::CloseDescriptor { descriptor }),
        Resource::Unenforced => None,
    }
}

/// Whether `reply` reports that the disable call of `platform` failed. A reply
/// of another platform counts as a failure.
pub open spec fn disable_failure(platform: Platform, reply: NativeReply) -> bool {
    match (platform, reply) {
        (Platform::Windows, NativeReply::ExecutionState { previous }) => previous == 0,
        (Platform::MacOs, NativeReply::AssertionReleased { status }) => status
            != IO_RETURN_SUCCESS,
        (Platform::Linux, NativeReply::DescriptorClosed { status }) => status != 0,
        _ => true,
    }
}

/// Whether `resource` is one that the backend of `platform` can hold.
pub open spec fn resource_fits(platform: Platform, resource: Resource) -> bool {
    match resource {
        Resource::Idle => true,
        Resource::ExecutionState { prior } => platform == Platform::Windows && prior != 0,
        Resource::Assertion { assertion } => platform == Platform::MacOs,
        Resource::Descriptor { descriptor } => platform == Platform::Linux && descriptor >= 0,
        Resource::Unenforced => platform == Platform::Linux,
    }
}

/// How a held resource protects the host.
pub open spec fn status_of(resource: Resource) -> EnableStatus {
    if resource == Resource::Unenforced {
        EnableStatus::DegradedUnenforced
    } else {
        EnableStatus::Enforced
    }
}

/// The mathematical content of a [`PlatformBackend`].
pub struct BackendModel {
    pub platform: Platform,
    pub resource: Resource,
}

impl BackendModel {
    /// A backend of `platform` that holds nothing.
    pub open spec fn idle(platform: Platform) -> BackendModel {
        BackendModel { platform, resource: Resource::Idle }
    }

    /// The backend holds a resource: enable succeeded and was not undone.
    pub open spec fn engaged(self) -> bool {
        self.resource != Resource::Idle
    }

    /// The held resource is one of this platform.
    pub open spec fn well_formed(self) -> bool {
        resource_fits(self.platform, self.resource)
    }

    /// The native call that would engage the backend; none while it is engaged.
    pub open spec fn enable_call(self) -> Option<NativeCall> {
        if self.engaged() {
            None
        } else {
            Some(enable_call_of(self.platform))
        }
    }

    /// The backend after the enable call came back with `reply`, and what the
    /// caller is told. An engaged backend stays as it is.
    pub open spec fn enable(self, reply: NativeReply) -> (BackendModel, Result<
        EnableStatus,
        InhibitError,
    >) {
        if self.engaged() {
            (self, Ok(status_of(self.resource)))
        } else {
            match enable_outcome(self.platform, reply) {
                Ok(resource) => (
                    BackendModel { platform: self.platform, resource },
                    Ok(status_of(resource)),
                ),
                Err(e) => (self, Err(e)),
            }
        }
    }

    /// The backend after giving its resource up, and the native call that
    /// returns the resource to the operating system.
    pub open spec fn disable(self) -> (BackendModel, Option<NativeCall>) {
        (BackendModel::idle(self.platform), disable_call_of(self.resource))
    }
}

/// One platform's sleep-prevention facility, with what it holds while engaged.
#[derive(Debug)]
pub struct PlatformBackend {
    platform: Platform,
    resource: Resource,
}

impl View for PlatformBackend {
    type V = BackendModel;

    closed spec fn view(&self) -> BackendModel {
        BackendModel { platform: self.platform, resource: self.resource }
    }
}

impl PlatformBackend {
    #[verifier::type_invariant]
    spec fn fits(&self) -> bool {
        resource_fits(self.platform, self.resource)
    }

    /// A backend of `platform`, not engaged.
    pub fn new(platform: Platform) -> (backend: PlatformBackend)
        ensures
            backend@ == BackendModel::idle(platform),
    {
        PlatformBackend { platform, resource: Resource::Idle }
    }

    /// The platform that this backend serves.
    pub fn platform(&self) -> (platform: Platform)
        ensures
            platform == self@.platform,
    {
        self.platform
    }

    /// What the backend holds at the moment.
    pub fn resource(&self) -> (resource: Resource)
        ensures
            resource == self@.resource,
            self@.well_formed(),
    {
        proof {
            use_type_invariant(self);
        }
        self.resource
    }

    /// Whether the backend is engaged.
    pub fn is_engaged(&self) -> (engaged: bool)
        ensures
            engaged == self@.engaged(),
    {
        match self.resource {
            Resource::Idle => false,
            _ => true,
        }
    }

    /// How the held resource protects the host.
    pub fn status(&self) -> (status: EnableStatus)
        ensures
            status == status_of(self@.resource),
    {
        match self.resource {
            Resource::Unenforced => EnableStatus::DegradedUnenforced,
            _ => EnableStatus::Enforced,
        }
    }

    /// The native call to perform before [`PlatformBackend::enable`], or
    /// `None` where the backend is engaged already.
    pub fn enable_call(&self) -> (call: Option<NativeCall>)
        ensures
            call == self@.enable_call(),
    {
        if self.is_engaged() {
            None
        } else {
            match self.platform {
                Platform::Windows => Some(NativeCall::SetExecutionState { flags: ES_AWAKE }),
                Platform::MacOs => Some(
                    NativeCall::CreateAssertion { kind: ASSERTION_KIND, reason: REASON },
                ),
                Platform::Linux => Some(
                    NativeCall::RequestInhibit {
                        what: INHIBIT_WHAT,
                        who: INHIBIT_WHO,
                        why: REASON,
                        mode: INHIBIT_MODE,
                    },
                ),
            }
        }
    }

    /// Engages the backend with the reply to its enable call. On failure the
    /// backend is left as it was.
    pub fn enable(&mut self, reply: NativeReply) -> (result: Result<EnableStatus, InhibitError>)
        ensures
            (final(self)@, result) == old(self)@.enable(reply),
            final(self)@.well_formed(),
    {
        proof {
            use_type_invariant(&*self);
        }
        if self.is_engaged() {
            return Ok(self.status());
        }
        let held = read_enable_reply(self.platform, reply);
        match held {
            Ok(resource) => {
                self.resource = resource;
                Ok(self.status())
            },
            Err(e) => Err(e),
        }
    }

    /// Gives up whatever the backend holds and returns the native call that
    /// hands it back to the operating system, if one is needed.
    pub fn disable(&mut self) -> (call: Option<NativeCall>)
        ensures
            (final(self)@, call) == old(self)@.disable(),
            final(self)@.well_formed(),
    {
        let call = match self.resource {
            Resource::Idle => None,
            Resource::ExecutionState { prior } => Some(
                NativeCall::SetExecutionState { flags: ES_CONTINUOUS },
            ),
            Resource::Assertion { assertion } => Some(NativeCall::ReleaseAssertion { assertion }),
            Resource::Descriptor { descriptor } => Some(
                NativeCall::CloseDescriptor { descriptor },
            ),
            Resource::Unenforced => None,
        };
        self.resource = Resource::Idle;
        call
    }

    /// Whether `reply` reports that this platform's disable call failed.
    pub fn disable_failed(&self, reply: NativeReply) -> (failed: bool)
        ensures
            failed == disable_failure(self@.platform, reply),
    {
        match self.platform {
            Platform::Windows => match reply {
                NativeReply::ExecutionState { previous } => previous == 0,
                _ => true,
            },
            Platform::MacOs => match reply {
                NativeReply::AssertionReleased { status } => status != IO_RETURN_SUCCESS,
                _ => true,
            },
            Platform::Linux => match reply {
                NativeReply::DescriptorClosed { status } => status != 0,
                _ => true,
            },
        }
    }
}

/// Reads the reply to the enable call of `platform`.
pub fn read_enable_reply(platform: Platform, reply: NativeReply) -> (held: Result<
    Resource,
    InhibitError,
>)
    ensures
        held == enable_outcome(platform, reply),
        held matches Ok(resource) ==> resource_fits(platform, resource) && resource
            != Resource::Idle,
{
    match platform {
        Platform::Windows => match reply {
            NativeReply::ExecutionState { previous } => if previous != 0 {
                Ok(Resource::ExecutionState { prior: previous })
            } else {
                Err(InhibitError::BackendUnavailable)
            },
            _ => Err(InhibitError::BackendUnavailable),
        },
        Platform::MacOs => match reply {
            NativeReply::AssertionCreated { status, assertion } => if status
                == IO_RETURN_SUCCESS {
                Ok(Resource::Assertion { assertion })
            } else {
                Err(InhibitError::BackendUnavailable)
            },
            _ => Err(InhibitError::BackendUnavailable),
        },
        Platform::Linux => match reply {
            NativeReply::InhibitGranted { descriptor } => if descriptor >= 0 {
                Ok(Resource::Descriptor { descriptor })
            } else {
                Err(InhibitError::BackendUnavailable)
            },
            NativeReply::ServiceUnreachable => Ok(Resource::Unenforced),
            _ => Err(InhibitError::BackendUnavailable),
        },
    }
}

} // verus!
