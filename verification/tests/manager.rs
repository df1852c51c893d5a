use nosleep::backend::{NativeCall, NativeReply, Platform, ES_AWAKE, ES_CONTINUOUS};
use nosleep::error::{DiagnosticEvent, InhibitError};
use nosleep::handle::InhibitorHandle;
use nosleep::manager::{InhibitionManager, ReleaseOutcome};

const WINDOWS_OK: NativeReply = NativeReply::ExecutionState { previous: ES_CONTINUOUS };
const WINDOWS_FAILED: NativeReply = NativeReply::ExecutionState { previous: 0 };

/// Acquires as a session would: performs the enable call where the manager
/// asks for one, answering it with `reply`, and counts the calls made.
fn acquire_with(
    manager: &mut InhibitionManager,
    reply: NativeReply,
    enable_calls: &mut u32,
) -> Result<InhibitorHandle, InhibitError> {
    let answered = match manager.enable_request() {
        Some(_) => {
            *enable_calls += 1;
            Some(reply)
        }
        None => None,
    };
    manager.acquire(answered)
}

/// Releases as a session would, counting the times the backend is disengaged.
fn release_with(
    manager: &mut InhibitionManager,
    handle: &mut InhibitorHandle,
    disable_calls: &mut u32,
) -> ReleaseOutcome {
    let outcome = manager.release(handle);
    if let ReleaseOutcome::Disengaged(_) = outcome {
        *disable_calls += 1;
    }
    outcome
}

#[test]
fn new_manager_is_idle() {
    let manager = InhibitionManager::new(Platform::Linux);
    assert_eq!(manager.active_count(), 0);
    assert_eq!(manager.issued(), 0);
    assert!(!manager.is_active());
    assert_eq!(manager.platform(), Platform::Linux);
    assert_eq!(manager.enable_request(), Some(NativeCall::RequestInhibit {
            what: "sleep",
            who: "Tunnel host",
            why: "A tunnel session is being hosted",
            mode: "block",
        }));
}

#[test]
fn two_sessions_engage_and_disengage_once() {
    let mut manager = InhibitionManager::new(Platform::Windows);
    let mut enables = 0;
    let mut disables = 0;

    assert_eq!(
        manager.enable_request(),
        Some(NativeCall::SetExecutionState { flags: ES_AWAKE })
    );
    let mut a = acquire_with(&mut manager, WINDOWS_OK, &mut enables).unwrap();
    assert_eq!(enables, 1);
    assert_eq!(manager.active_count(), 1);

    assert_eq!(manager.enable_request(), None);
    let mut b = acquire_with(&mut manager, WINDOWS_OK, &mut enables).unwrap();
    assert_eq!(enables, 1);
    assert_eq!(manager.active_count(), 2);

    assert_eq!(
        release_with(&mut manager, &mut a, &mut disables),
        ReleaseOutcome::StillActive
    );
    assert_eq!(manager.active_count(), 1);
    assert_eq!(disables, 0);
    assert!(manager.is_active());

    assert_eq!(
        release_with(&mut manager, &mut b, &mut disables),
        ReleaseOutcome::Disengaged(Some(NativeCall::SetExecutionState { flags: ES_CONTINUOUS }))
    );
    assert_eq!(manager.active_count(), 0);
    assert_eq!(disables, 1);
    assert_eq!(enables, 1);
    assert!(!manager.is_active());
}

#[test]
fn linux_without_service_degrades_and_succeeds() {
    let mut manager = InhibitionManager::new(Platform::Linux);
    assert_eq!(manager.enable_request(), Some(NativeCall::RequestInhibit {
            what: "sleep",
            who: "Tunnel host",
            why: "A tunnel session is being hosted",
            mode: "block",
        }));
    let result = manager.acquire(Some(NativeReply::ServiceUnreachable));
    let mut handle = result.expect("a missing service must not fail the session");
    assert_eq!(manager.active_count(), 1);
    assert_eq!(
        manager.take_events(),
        vec![
            DiagnosticEvent::DegradedUnenforced,
            DiagnosticEvent::Acquired { handle: 0 }
        ]
    );
    // Nothing is held, so nothing has to be handed back.
    assert_eq!(manager.release(&mut handle), ReleaseOutcome::Disengaged(None));
    assert_eq!(manager.active_count(), 0);
}

#[test]
fn acquire_counts_up_and_release_counts_down() {
    let mut manager = InhibitionManager::new(Platform::MacOs);
    let reply = NativeReply::AssertionCreated { status: 0, assertion: 77 };
    let mut enables = 0;
    let mut disables = 0;
    let mut handles = Vec::new();
    for n in 1..=5u64 {
        handles.push(acquire_with(&mut manager, reply, &mut enables).unwrap());
        assert_eq!(manager.active_count(), n);
    }
    assert_eq!(enables, 1);
    for (released, handle) in handles.iter_mut().enumerate() {
        release_with(&mut manager, handle, &mut disables);
        assert_eq!(manager.active_count(), 4 - released as u64);
    }
    assert_eq!(manager.active_count(), 0);
    assert!(!manager.is_active());
    assert_eq!(disables, 1);
    assert_eq!(manager.enable_request(), Some(NativeCall::CreateAssertion {
            kind: "PreventUserIdleSystemSleep",
            reason: "A tunnel session is being hosted",
        }));
}

#[test]
fn release_order_does_not_matter() {
    let orders: [[usize; 4]; 4] = [[0, 1, 2, 3], [3, 2, 1, 0], [2, 0, 3, 1], [1, 3, 0, 2]];
    for order in orders {
        let mut manager = InhibitionManager::new(Platform::Linux);
        let mut enables = 0;
        let mut disables = 0;
        let mut handles = Vec::new();
        for _ in 0..4 {
            let reply = NativeReply::InhibitGranted { descriptor: 9 };
            handles.push(acquire_with(&mut manager, reply, &mut enables).unwrap());
        }
        for (done, which) in order.iter().enumerate() {
            let outcome = release_with(&mut manager, &mut handles[*which], &mut disables);
            if done < 3 {
                assert_eq!(outcome, ReleaseOutcome::StillActive);
            } else {
                assert_eq!(
                    outcome,
                    ReleaseOutcome::Disengaged(Some(NativeCall::CloseDescriptor { descriptor: 9 }))
                );
            }
        }
        assert_eq!((enables, disables), (1, 1));
        assert_eq!(manager.active_count(), 0);
    }
}

#[test]
fn double_release_changes_nothing() {
    let mut manager = InhibitionManager::new(Platform::Windows);
    let mut a = manager.acquire(Some(WINDOWS_OK)).unwrap();
    let mut b = manager.acquire(None).unwrap();
    assert_eq!(manager.release(&mut a), ReleaseOutcome::StillActive);
    assert!(a.is_consumed());
    manager.take_events();

    assert_eq!(manager.release(&mut a), ReleaseOutcome::AlreadyReleased);
    assert_eq!(manager.active_count(), 1);
    assert!(manager.is_active());
    assert!(manager.take_events().is_empty());

    assert!(matches!(manager.release(&mut b), ReleaseOutcome::Disengaged(_)));
    assert_eq!(manager.release(&mut b), ReleaseOutcome::AlreadyReleased);
    assert_eq!(manager.release(&mut a), ReleaseOutcome::AlreadyReleased);
    assert_eq!(manager.active_count(), 0);
}

#[test]
fn failed_enable_is_backend_unavailable() {
    let mut manager = InhibitionManager::new(Platform::Windows);
    let result = manager.acquire(Some(WINDOWS_FAILED));
    assert_eq!(result.unwrap_err(), InhibitError::BackendUnavailable);
    assert_eq!(manager.active_count(), 0);
    assert_eq!(manager.issued(), 0);
    assert!(!manager.is_active());
    assert!(manager.take_events().is_empty());
    // The next acquisition asks for the enable call again.
    assert!(manager.enable_request().is_some());
    assert!(manager.acquire(Some(WINDOWS_OK)).is_ok());
    assert_eq!(manager.active_count(), 1);
}

#[test]
fn missing_reply_on_idle_manager_is_backend_unavailable() {
    let mut manager = InhibitionManager::new(Platform::MacOs);
    assert_eq!(manager.acquire(None).unwrap_err(), InhibitError::BackendUnavailable);
    assert_eq!(manager.active_count(), 0);
}

#[test]
fn reply_of_another_platform_is_backend_unavailable() {
    let mut manager = InhibitionManager::new(Platform::MacOs);
    assert_eq!(
        manager.acquire(Some(WINDOWS_OK)).unwrap_err(),
        InhibitError::BackendUnavailable
    );
    let mut manager = InhibitionManager::new(Platform::Linux);
    assert_eq!(
        manager
            .acquire(Some(NativeReply::AssertionCreated { status: 0, assertion: 1 }))
            .unwrap_err(),
        InhibitError::BackendUnavailable
    );
    assert_eq!(manager.active_count(), 0);
}

#[test]
fn reply_is_ignored_while_active() {
    let mut manager = InhibitionManager::new(Platform::Windows);
    let _a = manager.acquire(Some(WINDOWS_OK)).unwrap();
    // A failing reply cannot refuse an acquisition that needs no enable call.
    let b = manager.acquire(Some(WINDOWS_FAILED)).unwrap();
    assert_eq!(b.id(), 1);
    assert_eq!(manager.active_count(), 2);
}

#[test]
fn handles_are_numbered_in_order_of_grant() {
    let mut manager = InhibitionManager::new(Platform::Windows);
    let mut a = manager.acquire(Some(WINDOWS_OK)).unwrap();
    let b = manager.acquire(None).unwrap();
    assert_eq!((a.id(), b.id()), (0, 1));
    assert!(!a.is_consumed());
    manager.release(&mut a);
    let c = manager.acquire(None).unwrap();
    assert_eq!(c.id(), 2);
    assert_eq!(manager.issued(), 3);
    assert_eq!(manager.active_count(), 2);
}

#[test]
fn events_are_recorded_in_order_and_taken_once() {
    let mut manager = InhibitionManager::new(Platform::MacOs);
    let mut a = manager
        .acquire(Some(NativeReply::AssertionCreated { status: 0, assertion: 5 }))
        .unwrap();
    let mut b = manager.acquire(None).unwrap();
    manager.release(&mut b);
    assert_eq!(
        manager.release(&mut a),
        ReleaseOutcome::Disengaged(Some(NativeCall::ReleaseAssertion { assertion: 5 }))
    );
    manager.report_disable(NativeReply::AssertionReleased { status: -536870199 });
    assert_eq!(
        manager.take_events(),
        vec![
            DiagnosticEvent::Acquired { handle: 0 },
            DiagnosticEvent::Acquired { handle: 1 },
            DiagnosticEvent::Released { handle: 1 },
            DiagnosticEvent::Released { handle: 0 },
            DiagnosticEvent::DisableFailed,
        ]
    );
    assert!(manager.take_events().is_empty());
    assert_eq!(manager.active_count(), 0);
}

#[test]
fn successful_disable_is_not_an_event() {
    let mut manager = InhibitionManager::new(Platform::Linux);
    manager.report_disable(NativeReply::DescriptorClosed { status: 0 });
    assert!(manager.take_events().is_empty());
    manager.report_disable(NativeReply::DescriptorClosed { status: -1 });
    assert_eq!(manager.take_events(), vec![DiagnosticEvent::DisableFailed]);
}

#[test]
fn handle_releases_itself_at_its_manager() {
    let mut manager = InhibitionManager::new(Platform::Windows);
    let mut handle = manager.acquire(Some(WINDOWS_OK)).unwrap();
    assert!(matches!(handle.release(&mut manager), ReleaseOutcome::Disengaged(Some(_))));
    assert!(handle.is_consumed());
    assert_eq!(handle.release(&mut manager), ReleaseOutcome::AlreadyReleased);
    assert_eq!(manager.active_count(), 0);
}

#[test]
fn unspent_handle_at_an_idle_manager_releases_nothing() {
    let mut first = InhibitionManager::new(Platform::Windows);
    let mut second = InhibitionManager::new(Platform::Windows);
    let mut handle = first.acquire(Some(WINDOWS_OK)).unwrap();
    assert_eq!(second.release(&mut handle), ReleaseOutcome::AlreadyReleased);
    assert_eq!(second.active_count(), 0);
    assert!(handle.is_consumed());
}

#[test]
fn manager_can_be_engaged_again_after_going_idle() {
    let mut manager = InhibitionManager::new(Platform::Linux);
    let mut enables = 0;
    let mut disables = 0;
    for round in 0..3u32 {
        let reply = NativeReply::InhibitGranted { descriptor: 3 };
        let mut handle = acquire_with(&mut manager, reply, &mut enables).unwrap();
        assert_eq!(enables, round + 1);
        release_with(&mut manager, &mut handle, &mut disables);
        assert_eq!(disables, round + 1);
        assert_eq!(manager.active_count(), 0);
    }
}
