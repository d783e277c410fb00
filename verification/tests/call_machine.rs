use sipacker::call::{
    incoming_task_decision, ActionArrival, AsIncomingError, Call, CallError, CallEvent, CallPoll,
    DeclineCode, IncomingCallAction, IncomingTaskStep,
};
use sipacker::invite_acceptor_layer::{
    invite_session_step, InviteAcceptLayer, InviteAction, InviteReqDisposition,
    InviteSessionEvent, InviteSessionStep, InviteWaitStep,
};
use sipacker::user_agent::make_sip_uri;
use sipacker::parser::HostPort;

#[test]
fn outgoing_becomes_established_on_completion() {
    let call = Call::from_outgoing(10_000);
    let (next, event, _) = call.run(CallPoll::TaskEstablished).unwrap();
    assert!(matches!(next, Some(Call::Established(_))));
    assert!(matches!(event, Some(CallEvent::Established)));
}

#[test]
fn outgoing_pending_stays_outgoing() {
    let call = Call::from_outgoing(10_000);
    let (next, event, _) = call.run(CallPoll::TaskPending).unwrap();
    assert!(matches!(next, Some(Call::Outgoing(_))));
    assert!(event.is_none());
}

#[test]
fn outgoing_failure_is_an_error() {
    let call = Call::from_outgoing(10_000);
    assert!(matches!(call.run(CallPoll::TaskFailed), Err(CallError::TaskFailed)));
}

#[test]
fn failed_session_is_an_error() {
    let call = Call::from_outgoing(10_000);
    let (next, _, _) = call.run(CallPoll::TaskEstablished).unwrap();
    assert!(matches!(
        next.unwrap().run(CallPoll::SessionFailed),
        Err(CallError::Session)
    ));
}

#[test]
fn incoming_decline_ends_the_call() {
    let call = Call::from_incoming();
    let (next, event, _) = call.run(CallPoll::TaskDeclined).unwrap();
    assert!(next.is_none());
    assert!(matches!(event, Some(CallEvent::Terminated)));
}

#[test]
fn second_sender_added_fails_loudly() {
    let call = Call::from_outgoing(10_000);
    let (next, _, _) = call.run(CallPoll::TaskEstablished).unwrap();
    let (next, _, _) = next.unwrap().run(CallPoll::SenderAdded).unwrap();
    let again = next.unwrap().run(CallPoll::SenderAdded);
    assert!(matches!(again, Err(CallError::ProtocolViolation)));
}

#[test]
fn established_terminate_aborts_running_pumps() {
    let call = Call::from_outgoing(10_000);
    let (next, _, _) = call.run(CallPoll::TaskEstablished).unwrap();
    let (next, _, _) = next.unwrap().run(CallPoll::SenderAdded).unwrap();
    let (next, _, _) = next.unwrap().run(CallPoll::ReceiverAdded).unwrap();
    let actions = next.unwrap().terminate();
    assert!(actions.terminate_session);
    assert!(actions.abort_sending_task);
    assert!(actions.abort_receiving_task);
    assert!(!actions.cancel_calling_task);
}

#[test]
fn established_terminate_skips_waiting_pumps() {
    let call = Call::from_outgoing(10_000);
    let (next, _, _) = call.run(CallPoll::TaskEstablished).unwrap();
    let actions = next.unwrap().terminate();
    assert!(actions.terminate_session);
    assert!(!actions.abort_sending_task);
    assert!(!actions.abort_receiving_task);
}

#[test]
fn remote_termination_hands_back_cleanup() {
    let call = Call::from_outgoing(10_000);
    let (next, _, _) = call.run(CallPoll::TaskEstablished).unwrap();
    let (next, _, _) = next.unwrap().run(CallPoll::SenderAdded).unwrap();
    let (next, event, actions) = next.unwrap().run(CallPoll::SessionTerminated).unwrap();
    assert!(next.is_none());
    assert!(matches!(event, Some(CallEvent::Terminated)));
    assert!(actions.terminate_session);
    assert!(actions.abort_sending_task);
    assert!(!actions.abort_receiving_task);
}

#[test]
fn outgoing_terminate_cancels_calling_task() {
    let call = Call::from_outgoing(10_000);
    let actions = call.terminate();
    assert!(actions.cancel_calling_task);
    assert!(!actions.terminate_session);
}

#[test]
fn as_incoming_waiting_for_action_cases() {
    let incoming = Call::from_incoming();
    let waiting = incoming.as_incoming_waiting_for_action().unwrap();
    let settling = waiting.send_accept();
    match settling.as_incoming_waiting_for_action() {
        Err((_, AsIncomingError::AlreadyHandled)) => {}
        _ => panic!("a settling call is already handled"),
    }
    let outgoing = Call::from_outgoing(10_000);
    match outgoing.as_incoming_waiting_for_action() {
        Err((back, AsIncomingError::NoIncomingCall)) => {
            assert!(matches!(back, Call::Outgoing(_)))
        }
        _ => panic!("an outgoing call is no incoming call"),
    }
}

#[test]
fn incoming_task_decision_covers_every_arrival() {
    assert!(matches!(
        incoming_task_decision(ActionArrival::Received(IncomingCallAction::Accept)),
        IncomingTaskStep::AcceptCall
    ));
    match incoming_task_decision(ActionArrival::Received(IncomingCallAction::Decline {
        code: DeclineCode::Busy,
        reason: b"busy now".to_vec(),
    })) {
        IncomingTaskStep::DeclineCall { status, reason } => {
            assert_eq!(status, 486);
            assert_eq!(reason, b"busy now".to_vec());
        }
        _ => panic!("a decline action declines"),
    }
    match incoming_task_decision(ActionArrival::ChannelClosed) {
        IncomingTaskStep::DeclineCall { status, reason } => {
            assert_eq!(status, 500);
            assert_eq!(reason, b"Action channel is closed".to_vec());
        }
        _ => panic!("a closed channel declines"),
    }
    match incoming_task_decision(ActionArrival::Cancelled) {
        IncomingTaskStep::DeclineCall { status, reason } => {
            assert_eq!(status, 603);
            assert_eq!(reason, b"The call cancelled".to_vec());
        }
        _ => panic!("a cancellation declines"),
    }
}

#[test]
fn decline_codes_map_to_sip_statuses() {
    assert_eq!(DeclineCode::Busy.status_code(), 486);
    assert_eq!(DeclineCode::ServerInternalError.status_code(), 500);
    assert_eq!(DeclineCode::UserDeclined.status_code(), 603);
}

#[test]
fn make_sip_uri_forms() {
    let with_port = HostPort { host: b"127.0.0.1".to_vec(), port: Some(5060) };
    assert_eq!(
        make_sip_uri(b"2503", &with_port),
        b"sip:2503@127.0.0.1:5060".to_vec()
    );
    let bare = HostPort { host: b"pbx.local".to_vec(), port: None };
    assert_eq!(make_sip_uri(b"2503", &bare), b"sip:2503@pbx.local".to_vec());
}

#[test]
fn invite_layer_dispositions() {
    let mut layer = InviteAcceptLayer::new();
    assert_eq!(
        layer.handle_invite_req(b"sip:2000@host".to_vec()),
        InviteReqDisposition::SkipNoContact
    );
    layer.set_outgoing_contact(b"sip:2502@10.0.0.2:5060".to_vec());
    assert_eq!(
        layer.handle_invite_req(b"sip:2000@host".to_vec()),
        InviteReqDisposition::Process
    );
    assert_eq!(layer.incoming_from().unwrap(), b"sip:2000@host".to_vec());
    assert_eq!(
        layer.handle_invite_req(b"sip:2001@host".to_vec()),
        InviteReqDisposition::SkipActiveIncoming
    );
}

#[test]
fn invite_layer_wait_steps() {
    let mut layer = InviteAcceptLayer::new();
    layer.set_outgoing_contact(b"sip:2502@10.0.0.2".to_vec());
    layer.handle_invite_req(b"sip:2000@host".to_vec());
    assert!(matches!(layer.invite_wait_step(0), InviteWaitStep::SendRingingAndWait));
    layer.set_invite_action(InviteAction::Accept);
    assert!(matches!(
        layer.invite_wait_step(3),
        InviteWaitStep::Act(InviteAction::Accept)
    ));
    assert!(matches!(layer.invite_wait_step(10), InviteWaitStep::TimedOut));
}

#[test]
fn invite_session_steps() {
    assert_eq!(
        invite_session_step(InviteSessionEvent::RefreshNeeded),
        InviteSessionStep::ProcessDefault
    );
    assert_eq!(
        invite_session_step(InviteSessionEvent::ReInviteReceived),
        InviteSessionStep::RespondOk
    );
    assert_eq!(invite_session_step(InviteSessionEvent::Bye), InviteSessionStep::ProcessDefault);
    assert_eq!(
        invite_session_step(InviteSessionEvent::Terminated),
        InviteSessionStep::LeaveLoop
    );
}
