use sipacker::call::{CallPoll, DeclineCode, IncomingCallAction, OutboundWait, OutboundWaitStep};
use sipacker::parser::HostPort;
use sipacker::user_agent::{Credentials, UserAgent, UserAgentError, UserAgentEvent};

fn registered_agent() -> UserAgent {
    let mut ua = UserAgent::new();
    let creds = Credentials { user: b"2502".to_vec(), password: b"pw".to_vec() };
    let host = HostPort { host: b"127.0.0.1".to_vec(), port: Some(5060) };
    ua.register(b"2502".to_vec(), creds, host, true).unwrap();
    ua
}

#[test]
fn happy_register_emits_registered() {
    let mut ua = registered_agent();
    assert!(ua.is_registered());
    assert!(matches!(ua.take_event(), Some(UserAgentEvent::Registered)));
    assert!(ua.take_event().is_none());
}

#[test]
fn refused_registration_emits_nothing() {
    let mut ua = UserAgent::new();
    let creds = Credentials { user: b"2502".to_vec(), password: b"bad".to_vec() };
    let host = HostPort { host: b"127.0.0.1".to_vec(), port: Some(5060) };
    assert_eq!(
        ua.register(b"2502".to_vec(), creds, host, false),
        Err(UserAgentError::RegistrationFailed)
    );
    assert!(!ua.is_registered());
    assert!(ua.take_event().is_none());
}

#[test]
fn unregister_keeps_call_running() {
    let mut ua = registered_agent();
    ua.make_call(b"2503".to_vec(), 10_000, true).unwrap();
    ua.unregister();
    assert!(!ua.is_registered());
    assert!(ua.has_active_call());
    assert!(matches!(ua.take_event(), Some(UserAgentEvent::Registered)));
    assert!(matches!(ua.take_event(), Some(UserAgentEvent::Calling)));
    assert!(matches!(ua.take_event(), Some(UserAgentEvent::Unregistered)));
}

#[test]
fn make_call_needs_registration() {
    let mut ua = UserAgent::new();
    assert_eq!(
        ua.make_call(b"2503".to_vec(), 10_000, true),
        Err(UserAgentError::NotRegistered)
    );
    assert!(!ua.has_active_call());
}

#[test]
fn failed_call_setup_changes_nothing() {
    let mut ua = registered_agent();
    assert_eq!(
        ua.make_call(b"2503".to_vec(), 10_000, false),
        Err(UserAgentError::CallSetupFailed)
    );
    assert!(!ua.has_active_call());
    assert!(matches!(ua.take_event(), Some(UserAgentEvent::Registered)));
    assert!(ua.take_event().is_none());
}

#[test]
fn make_call_needs_free_slot() {
    let mut ua = registered_agent();
    ua.make_call(b"2503".to_vec(), 10_000, true).unwrap();
    assert_eq!(
        ua.make_call(b"2504".to_vec(), 10_000, true),
        Err(UserAgentError::ActiveCallExists)
    );
}

#[test]
fn outbound_call_accepted_then_terminated() {
    let mut ua = registered_agent();
    assert!(matches!(ua.take_event(), Some(UserAgentEvent::Registered)));

    ua.make_call(b"2503".to_vec(), 10_000, true).unwrap();
    assert!(matches!(ua.take_event(), Some(UserAgentEvent::Calling)));

    // the calling task still runs: nothing changes
    assert!(ua.update_call(CallPoll::TaskPending).is_some());
    assert!(ua.take_event().is_none());

    // the remote answered: the call is established
    assert!(ua.update_call(CallPoll::TaskEstablished).is_some());
    assert!(matches!(ua.take_event(), Some(UserAgentEvent::CallEstablished)));

    // hang up: the slot clears and the session must be terminated
    let actions = ua.terminate_call().unwrap();
    assert!(actions.terminate_session);
    assert!(matches!(ua.take_event(), Some(UserAgentEvent::CallTerminated)));
    assert!(!ua.has_active_call());
    assert!(!ua.has_incoming_call());
    assert!(ua.take_event().is_none());
}

#[test]
fn outbound_call_timeout_terminates_and_cancels() {
    let mut ua = registered_agent();
    assert!(matches!(ua.take_event(), Some(UserAgentEvent::Registered)));

    ua.make_call(b"2503".to_vec(), 10_000, true).unwrap();
    assert!(matches!(ua.take_event(), Some(UserAgentEvent::Calling)));

    // the calling task must CANCEL the remote when its wait timed out
    assert!(matches!(
        sipacker::call::outgoing_wait_decision(OutboundWait::TimedOut),
        OutboundWaitStep::SendCancelAndFail
    ));

    // the task then fails; the coordinator winds the call down and asks
    // the runtime to await the failed task
    let cleanup = ua.update_call(CallPoll::TaskFailed).expect("cleanup expected");
    assert!(cleanup.cancel_calling_task);
    assert!(!cleanup.terminate_session);
    assert!(matches!(ua.take_event(), Some(UserAgentEvent::CallTerminated)));
    assert!(!ua.has_active_call());
    assert!(!ua.has_incoming_call());
}

#[test]
fn failed_session_cleans_up_media_tasks() {
    let mut ua = registered_agent();
    ua.make_call(b"2503".to_vec(), 10_000, true).unwrap();
    ua.update_call(CallPoll::TaskEstablished);
    assert!(ua.has_established_call());
    ua.update_call(CallPoll::SenderAdded);
    let cleanup = ua.update_call(CallPoll::SessionFailed).expect("cleanup expected");
    assert!(cleanup.terminate_session);
    assert!(cleanup.abort_sending_task);
    assert!(!cleanup.abort_receiving_task);
    assert!(!ua.has_active_call());
    assert!(!ua.has_incoming_call());
    assert!(matches!(ua.take_event(), Some(UserAgentEvent::Registered)));
    assert!(matches!(ua.take_event(), Some(UserAgentEvent::Calling)));
    assert!(matches!(ua.take_event(), Some(UserAgentEvent::CallEstablished)));
    assert!(matches!(ua.take_event(), Some(UserAgentEvent::CallTerminated)));
    assert!(ua.take_event().is_none());
}

#[test]
fn incoming_call_accepted() {
    let mut ua = registered_agent();
    assert!(matches!(ua.take_event(), Some(UserAgentEvent::Registered)));

    let decline = ua.handle_incoming_call_req(Some(b"sip:2000@10.0.0.1".to_vec()));
    assert!(decline.is_none());
    match ua.take_event() {
        Some(UserAgentEvent::IncomingCall(from)) => {
            assert_eq!(from, b"sip:2000@10.0.0.1".to_vec())
        }
        other => panic!("expected an incoming-call event, got {other:?}"),
    }
    assert!(ua.has_incoming_call());

    let action = ua.accept_incoming_call().unwrap();
    assert!(matches!(action, IncomingCallAction::Accept));
    assert!(!ua.has_incoming_call());
    assert!(ua.has_active_call());

    assert!(ua.update_call(CallPoll::TaskEstablished).is_some());
    assert!(matches!(ua.take_event(), Some(UserAgentEvent::CallEstablished)));
}

#[test]
fn incoming_while_busy_declined_486() {
    let mut ua = registered_agent();
    assert!(matches!(ua.take_event(), Some(UserAgentEvent::Registered)));
    ua.make_call(b"2503".to_vec(), 10_000, true).unwrap();
    ua.update_call(CallPoll::TaskEstablished);
    assert!(matches!(ua.take_event(), Some(UserAgentEvent::Calling)));
    assert!(matches!(ua.take_event(), Some(UserAgentEvent::CallEstablished)));

    let directive = ua
        .handle_incoming_call_req(Some(b"sip:2000@10.0.0.1".to_vec()))
        .expect("a busy agent must decline");
    assert_eq!(directive.status, 486);
    assert_eq!(directive.reason, b"There is an active call".to_vec());
    assert!(ua.has_active_call());
    assert!(!ua.has_incoming_call());
    assert!(ua.take_event().is_none());
}

#[test]
fn declined_incoming_call_leaves_agent_free() {
    let mut ua = registered_agent();
    ua.handle_incoming_call_req(Some(b"2000".to_vec()));
    let action = ua.decline_incoming_call().unwrap();
    assert!(matches!(
        action,
        IncomingCallAction::Decline { code: DeclineCode::UserDeclined, .. }
    ));
    assert!(!ua.has_incoming_call());

    // the task carries the decline out, then reports it
    assert!(ua.update_call(CallPoll::TaskDeclined).is_some());
    assert!(!ua.has_active_call());
    assert!(!ua.has_incoming_call());
    assert!(matches!(ua.take_event(), Some(UserAgentEvent::Registered)));
    assert!(matches!(ua.take_event(), Some(UserAgentEvent::IncomingCall(_))));
    assert!(matches!(ua.take_event(), Some(UserAgentEvent::CallTerminated)));
}

#[test]
fn accept_without_incoming_call_refused() {
    let mut ua = registered_agent();
    assert_eq!(ua.accept_incoming_call().unwrap_err(), UserAgentError::NoIncomingCall);
    assert_eq!(ua.decline_incoming_call().unwrap_err(), UserAgentError::NoIncomingCall);
}

#[test]
fn run_drains_queue_before_polling() {
    let mut ua = registered_agent();
    // a queued event comes out first even while an INVITE waits
    let out = ua.run(Some(b"2000".to_vec()), CallPoll::Tick);
    assert!(matches!(out.event, Some(UserAgentEvent::Registered)));
    assert!(out.decline.is_none());
    assert!(!ua.has_incoming_call());
    // with the queue empty, the INVITE is taken up on the next tick
    let out2 = ua.run(Some(b"2000".to_vec()), CallPoll::TaskPending);
    assert!(out2.event.is_none());
    assert!(out2.decline.is_none());
    assert!(ua.has_incoming_call());
    let out3 = ua.run(None, CallPoll::TaskPending);
    assert!(matches!(out3.event, Some(UserAgentEvent::IncomingCall(_))));
}

#[test]
fn terminate_without_call_does_nothing() {
    let mut ua = registered_agent();
    assert!(ua.terminate_call().is_none());
    assert!(matches!(ua.take_event(), Some(UserAgentEvent::Registered)));
    assert!(ua.take_event().is_none());
}
