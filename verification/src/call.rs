//! The call lifecycle engine: one tagged state machine per call, stepped by
//! the runtime with what it observed (task polls, media events, the remote
//! hanging up) and answering with the next state, at most one event, and the
//! cleanup the runtime must carry out.
//!
//! The background tasks themselves (the calling task racing completion
//! against timeout and cancellation, the media pumps) live outside; their
//! decisions stand here as total functions.

use vstd::prelude::*;

verus! {

/// What a call step reports upward.
#[derive(Debug)]
pub enum CallEvent {
    Established,
    Terminated,
}

/// Why an incoming call is refused.
#[derive(Debug, PartialEq, Eq, Structural, Clone, Copy)]
pub enum DeclineCode {
    Busy,
    ServerInternalError,
    UserDeclined,
}

impl DeclineCode {
    /// The SIP status a decline code goes out as.
    pub open spec fn spec_status_code(self) -> u16 {
        match self {
            DeclineCode::Busy => 486,
            DeclineCode::ServerInternalError => 500,
            DeclineCode::UserDeclined => 603,
        }
    }

    /// Busy Here, Server Internal Error or Decline, by code.
    pub fn status_code(&self) -> (r: u16)
        ensures
            r == self.spec_status_code(),
    {
        match self {
            DeclineCode::Busy => 486,
            DeclineCode::ServerInternalError => 500,
            DeclineCode::UserDeclined => 603,
        }
    }
}

/// A call step failed: the state machine was driven with an observation its
/// state cannot answer, a background task failed, or the session runner
/// errored.
#[derive(Debug)]
pub enum CallError {
    /// The state's background task finished with an error.
    TaskFailed,
    /// The session runner returned an error.
    Session,
    /// An observation that must not happen in this state: a second sender or
    /// receiver for one direction, or a poll foreign to the state.
    ProtocolViolation,
}

/// What the runtime observed since the last step.
#[derive(Debug)]
pub enum CallPoll {
    /// The state's background task has not finished.
    TaskPending,
    /// The calling task finished and handed over an established session.
    TaskEstablished,
    /// The incoming-call task finished having declined the call.
    TaskDeclined,
    /// The background task failed (join error, SIP error, cancellation).
    TaskFailed,
    /// The session runner yielded nothing within the tick.
    Tick,
    /// The session added an RTP sender for the outgoing direction.
    SenderAdded,
    /// The session added an RTP receiver for the incoming direction.
    ReceiverAdded,
    /// The remote side terminated the session.
    SessionTerminated,
    /// The session runner failed.
    SessionFailed,
}

/// What the runtime must do to wind a call state down.
#[derive(Debug)]
pub struct TerminateActions {
    /// Fire the cancellation token and await the calling task.
    pub cancel_calling_task: bool,
    /// Abort and await the sending media task.
    pub abort_sending_task: bool,
    /// Abort and await the receiving media task.
    pub abort_receiving_task: bool,
    /// Tell the SIP session to end the dialog.
    pub terminate_session: bool,
}

/// One direction of an established call: still waiting for its media event,
/// or already pumped by a running task.
#[derive(Debug)]
pub enum ChannelState {
    Waiting,
    Running,
}

/// An outbound call whose calling task races completion against the per-call
/// timeout and the cancellation token.
#[derive(Debug)]
pub struct Outgoing {
    /// How long the calling task waits before giving up.
    pub waiting_timeout_millis: u64,
}

/// An incoming call whose task waits on the action channel.
#[derive(Debug)]
pub struct WaitingForAction {
}

/// An incoming call whose task has been handed its action and is settling.
#[derive(Debug)]
pub struct WaitingForActionResponse {
}

/// An incoming call is first waiting for accept or decline, then settling.
#[derive(Debug)]
pub enum Incoming {
    WaitingForAction(WaitingForAction),
    WaitingForActionResponse(WaitingForActionResponse),
}

/// A confirmed call with its two media directions.
#[derive(Debug)]
pub struct Established {
    pub sending_channel: ChannelState,
    pub receiving_channel: ChannelState,
}

/// The tagged state of one call.
#[derive(Debug)]
pub enum Call {
    Incoming(Incoming),
    Outgoing(Outgoing),
    Established(Established),
}

/// True iff the state's calling task is alive.
pub open spec fn spec_calling_task_live(c: Call) -> bool {
    match c {
        Call::Outgoing(_) => true,
        Call::Incoming(_) => true,
        Call::Established(_) => false,
    }
}

/// True iff the sending media task is alive.
pub open spec fn spec_sending_task_live(c: Call) -> bool {
    c matches Call::Established(e) && e.sending_channel is Running
}

/// True iff the receiving media task is alive.
pub open spec fn spec_receiving_task_live(c: Call) -> bool {
    c matches Call::Established(e) && e.receiving_channel is Running
}

/// The cleanup each state asks of the runtime when terminated: an Outgoing
/// or a waiting Incoming cancels its calling task, an Established ends the
/// session and aborts exactly the media tasks that run; a settling Incoming
/// asks nothing and lets its task finish the action.
pub open spec fn spec_terminate_actions(c: Call) -> TerminateActions {
    match c {
        Call::Outgoing(_) => TerminateActions {
            cancel_calling_task: true,
            abort_sending_task: false,
            abort_receiving_task: false,
            terminate_session: false,
        },
        Call::Incoming(Incoming::WaitingForAction(_)) => TerminateActions {
            cancel_calling_task: true,
            abort_sending_task: false,
            abort_receiving_task: false,
            terminate_session: false,
        },
        Call::Incoming(Incoming::WaitingForActionResponse(_)) => TerminateActions {
            cancel_calling_task: false,
            abort_sending_task: false,
            abort_receiving_task: false,
            terminate_session: false,
        },
        Call::Established(e) => TerminateActions {
            cancel_calling_task: false,
            abort_sending_task: e.sending_channel is Running,
            abort_receiving_task: e.receiving_channel is Running,
            terminate_session: true,
        },
    }
}

/// What one step of a call gives, fully determined by the state and the
/// observation.
///
/// An outgoing or incoming call stays as it is while its task runs; a task
/// that handed over an established session turns the call established, both
/// directions waiting, and reports it; an incoming task that declined ends
/// the call; a failed task is the step's error.  In an established call a
/// tick changes nothing, the first sender or receiver starts that
/// direction's pump and a second one is a protocol violation, a terminated
/// session ends the call and hands back the full cleanup, and a failed
/// session is the step's error — the error itself carries no actions, and
/// the coordinator winds the call down with `spec_terminate_actions`.  A
/// poll foreign to the state is a protocol violation.
pub open spec fn spec_call_run(c: Call, poll: CallPoll) -> Result<
    (Option<Call>, Option<CallEvent>, TerminateActions),
    CallError,
> {
    match c {
        Call::Outgoing(o) => match poll {
            CallPoll::TaskPending => Ok((Some(c), None, no_actions())),
            CallPoll::TaskEstablished => Ok(
                (Some(Call::Established(fresh_established())), Some(CallEvent::Established), no_actions()),
            ),
            CallPoll::TaskFailed => Err(CallError::TaskFailed),
            _ => Err(CallError::ProtocolViolation),
        },
        Call::Incoming(i) => match poll {
            CallPoll::TaskPending => Ok((Some(c), None, no_actions())),
            CallPoll::TaskEstablished => Ok(
                (Some(Call::Established(fresh_established())), Some(CallEvent::Established), no_actions()),
            ),
            CallPoll::TaskDeclined => Ok((None, Some(CallEvent::Terminated), no_actions())),
            CallPoll::TaskFailed => Err(CallError::TaskFailed),
            _ => Err(CallError::ProtocolViolation),
        },
        Call::Established(e) => match poll {
            CallPoll::Tick => Ok((Some(c), None, no_actions())),
            CallPoll::SenderAdded => if e.sending_channel is Waiting {
                Ok(
                    (
                        Some(
                            Call::Established(
                                Established {
                                    sending_channel: ChannelState::Running,
                                    receiving_channel: e.receiving_channel,
                                },
                            ),
                        ),
                        None,
                        no_actions(),
                    ),
                )
            } else {
                Err(CallError::ProtocolViolation)
            },
            CallPoll::ReceiverAdded => if e.receiving_channel is Waiting {
                Ok(
                    (
                        Some(
                            Call::Established(
                                Established {
                                    sending_channel: e.sending_channel,
                                    receiving_channel: ChannelState::Running,
                                },
                            ),
                        ),
                        None,
                        no_actions(),
                    ),
                )
            } else {
                Err(CallError::ProtocolViolation)
            },
            CallPoll::SessionTerminated => Ok(
                (None, Some(CallEvent::Terminated), spec_terminate_actions(c)),
            ),
            CallPoll::SessionFailed => Err(CallError::Session),
            _ => Err(CallError::ProtocolViolation),
        },
    }
}

/// A just-established call: both directions waiting for their media events.
pub open spec fn fresh_established() -> Established {
    Established { sending_channel: ChannelState::Waiting, receiving_channel: ChannelState::Waiting }
}

/// A cleanup that asks nothing.
pub open spec fn no_actions() -> TerminateActions {
    TerminateActions {
        cancel_calling_task: false,
        abort_sending_task: false,
        abort_receiving_task: false,
        terminate_session: false,
    }
}

fn make_no_actions() -> (r: TerminateActions)
    ensures
        r == no_actions(),
{
    TerminateActions {
        cancel_calling_task: false,
        abort_sending_task: false,
        abort_receiving_task: false,
        terminate_session: false,
    }
}

impl Outgoing {
    /// One cooperative step, as `spec_call_run` lays it down.
    pub fn run(self, poll: CallPoll) -> (r: Result<
        (Option<Call>, Option<CallEvent>, TerminateActions),
        CallError,
    >)
        ensures
            r == spec_call_run(Call::Outgoing(self), poll),
    {
        match poll {
            CallPoll::TaskPending => Ok((Some(Call::Outgoing(self)), None, make_no_actions())),
            CallPoll::TaskEstablished => {
                let est = Established {
                    sending_channel: ChannelState::Waiting,
                    receiving_channel: ChannelState::Waiting,
                };
                Ok((Some(Call::Established(est)), Some(CallEvent::Established), make_no_actions()))
            },
            CallPoll::TaskFailed => Err(CallError::TaskFailed),
            _ => Err(CallError::ProtocolViolation),
        }
    }

    /// Fires the cancellation token; the calling task answers it by sending
    /// CANCEL and winding down, and the runtime awaits it.
    pub fn terminate(self) -> (r: TerminateActions)
        ensures
            r == spec_terminate_actions(Call::Outgoing(self)),
    {
        TerminateActions {
            cancel_calling_task: true,
            abort_sending_task: false,
            abort_receiving_task: false,
            terminate_session: false,
        }
    }
}

impl Incoming {
    /// A fresh incoming call: its task waits for accept or decline.
    pub fn new() -> (r: Self)
        ensures
            r is WaitingForAction,
    {
        Incoming::WaitingForAction(WaitingForAction {})
    }

    /// One cooperative step, as `spec_call_run` lays it down.
    pub fn run(self, poll: CallPoll) -> (r: Result<
        (Option<Call>, Option<CallEvent>, TerminateActions),
        CallError,
    >)
        ensures
            r == spec_call_run(Call::Incoming(self), poll),
    {
        match poll {
            CallPoll::TaskPending => Ok((Some(Call::Incoming(self)), None, make_no_actions())),
            CallPoll::TaskEstablished => {
                let est = Established {
                    sending_channel: ChannelState::Waiting,
                    receiving_channel: ChannelState::Waiting,
                };
                Ok((Some(Call::Established(est)), Some(CallEvent::Established), make_no_actions()))
            },
            CallPoll::TaskDeclined => Ok((None, Some(CallEvent::Terminated), make_no_actions())),
            CallPoll::TaskFailed => Err(CallError::TaskFailed),
            _ => Err(CallError::ProtocolViolation),
        }
    }

    /// A waiting call cancels its task, which then declines on its own; a
    /// settling one lets its task finish the action.
    pub fn terminate(self) -> (r: TerminateActions)
        ensures
            r == spec_terminate_actions(Call::Incoming(self)),
    {
        match self {
            Incoming::WaitingForAction(_) => TerminateActions {
                cancel_calling_task: true,
                abort_sending_task: false,
                abort_receiving_task: false,
                terminate_session: false,
            },
            Incoming::WaitingForActionResponse(_) => make_no_actions(),
        }
    }
}

impl WaitingForAction {
    /// Hands the accept action to the task: the call is settling now.
    pub fn send_accept(self) -> (r: Call)
        ensures
            r matches Call::Incoming(Incoming::WaitingForActionResponse(_)),
    {
        Call::Incoming(Incoming::WaitingForActionResponse(WaitingForActionResponse {}))
    }

    /// Hands a decline action to the task: the call is settling now.
    pub fn send_decline(self, code: DeclineCode) -> (r: Call)
        ensures
            r matches Call::Incoming(Incoming::WaitingForActionResponse(_)),
    {
        let _ = code;
        Call::Incoming(Incoming::WaitingForActionResponse(WaitingForActionResponse {}))
    }
}

impl Established {
    /// One cooperative step, as `spec_call_run` lays it down.
    pub fn run(self, poll: CallPoll) -> (r: Result<
        (Option<Call>, Option<CallEvent>, TerminateActions),
        CallError,
    >)
        ensures
            r == spec_call_run(Call::Established(self), poll),
    {
        match poll {
            CallPoll::Tick => Ok((Some(Call::Established(self)), None, make_no_actions())),
            CallPoll::SenderAdded => {
                match self.sending_channel {
                    ChannelState::Waiting => {
                        let next = Established {
                            sending_channel: ChannelState::Running,
                            receiving_channel: self.receiving_channel,
                        };
                        Ok((Some(Call::Established(next)), None, make_no_actions()))
                    },
                    ChannelState::Running => Err(CallError::ProtocolViolation),
                }
            },
            CallPoll::ReceiverAdded => {
                match self.receiving_channel {
                    ChannelState::Waiting => {
                        let next = Established {
                            sending_channel: self.sending_channel,
                            receiving_channel: ChannelState::Running,
                        };
                        Ok((Some(Call::Established(next)), None, make_no_actions()))
                    },
                    ChannelState::Running => Err(CallError::ProtocolViolation),
                }
            },
            CallPoll::SessionTerminated => {
                let actions = self.terminate();
                Ok((None, Some(CallEvent::Terminated), actions))
            },
            CallPoll::SessionFailed => Err(CallError::Session),
            _ => Err(CallError::ProtocolViolation),
        }
    }

    /// Ends the session and aborts exactly the media pumps that run.
    pub fn terminate(self) -> (r: TerminateActions)
        ensures
            r == spec_terminate_actions(Call::Established(self)),
    {
        TerminateActions {
            cancel_calling_task: false,
            abort_sending_task: matches!(self.sending_channel, ChannelState::Running),
            abort_receiving_task: matches!(self.receiving_channel, ChannelState::Running),
            terminate_session: true,
        }
    }
}

/// Why a call cannot hand out a waiting incoming state.
#[derive(Debug)]
pub enum AsIncomingError {
    /// The call is incoming but its action was already sent.
    AlreadyHandled,
    /// The call is not an incoming one.
    NoIncomingCall,
}

impl Call {
    /// A new outbound call with its per-call completion timeout.
    pub fn from_outgoing(waiting_timeout_millis: u64) -> (r: Call)
        ensures
            r matches Call::Outgoing(o) && o.waiting_timeout_millis == waiting_timeout_millis,
    {
        Call::Outgoing(Outgoing { waiting_timeout_millis })
    }

    /// A new incoming call, waiting for accept or decline.
    pub fn from_incoming() -> (r: Call)
        ensures
            r matches Call::Incoming(i) && i is WaitingForAction,
    {
        Call::Incoming(Incoming::new())
    }

    /// The waiting incoming state, if that is what the call is; otherwise
    /// the call comes back untouched with the reason.
    pub fn as_incoming_waiting_for_action(self) -> (r: Result<
        WaitingForAction,
        (Call, AsIncomingError),
    >)
        ensures
            match r {
                Ok(_) => self matches Call::Incoming(Incoming::WaitingForAction(_)),
                Err((c, e)) => c == self && match e {
                    AsIncomingError::AlreadyHandled => self matches Call::Incoming(
                        Incoming::WaitingForActionResponse(_),
                    ),
                    AsIncomingError::NoIncomingCall => !(self matches Call::Incoming(_)),
                },
            },
    {
        match self {
            Call::Incoming(Incoming::WaitingForAction(w)) => Ok(w),
            Call::Incoming(Incoming::WaitingForActionResponse(w)) => Err(
                (
                    Call::Incoming(Incoming::WaitingForActionResponse(w)),
                    AsIncomingError::AlreadyHandled,
                ),
            ),
            other => Err((other, AsIncomingError::NoIncomingCall)),
        }
    }

    /// One cooperative step of whatever state the call is in.
    pub fn run(self, poll: CallPoll) -> (r: Result<
        (Option<Call>, Option<CallEvent>, TerminateActions),
        CallError,
    >)
        ensures
            r == spec_call_run(self, poll),
    {
        match self {
            Call::Outgoing(o) => o.run(poll),
            Call::Incoming(i) => i.run(poll),
            Call::Established(e) => e.run(poll),
        }
    }

    /// The cleanup this state asks of the runtime.
    pub fn terminate(self) -> (r: TerminateActions)
        ensures
            r == spec_terminate_actions(self),
    {
        match self {
            Call::Outgoing(o) => o.terminate(),
            Call::Incoming(i) => i.terminate(),
            Call::Established(e) => e.terminate(),
        }
    }

    /// The same cleanup, read without consuming the state: what the runtime
    /// must carry out when a step of this state fails.
    pub(crate) fn cleanup_actions(&self) -> (r: TerminateActions)
        ensures
            r == spec_terminate_actions(*self),
    {
        match self {
            Call::Outgoing(_) => TerminateActions {
                cancel_calling_task: true,
                abort_sending_task: false,
                abort_receiving_task: false,
                terminate_session: false,
            },
            Call::Incoming(Incoming::WaitingForAction(_)) => TerminateActions {
                cancel_calling_task: true,
                abort_sending_task: false,
                abort_receiving_task: false,
                terminate_session: false,
            },
            Call::Incoming(Incoming::WaitingForActionResponse(_)) => make_no_actions(),
            Call::Established(e) => TerminateActions {
                cancel_calling_task: false,
                abort_sending_task: matches!(e.sending_channel, ChannelState::Running),
                abort_receiving_task: matches!(e.receiving_channel, ChannelState::Running),
                terminate_session: true,
            },
        }
    }
}

/// Once terminate has spoken, no background task of the state is left
/// unaddressed: whatever task the state keeps alive, the returned actions
/// cancel or abort it — except an incoming call already settling its action,
/// whose task is left to finish that action.
pub proof fn lemma_terminate_stops_tasks(c: Call)
    requires
        !(c matches Call::Incoming(Incoming::WaitingForActionResponse(_))),
    ensures
        spec_calling_task_live(c) ==> spec_terminate_actions(c).cancel_calling_task,
        spec_sending_task_live(c) ==> spec_terminate_actions(c).abort_sending_task,
        spec_receiving_task_live(c) ==> spec_terminate_actions(c).abort_receiving_task,
{
}

/// Once a direction of an established call has its pump running it never
/// falls back to waiting: whatever step keeps the call established keeps
/// the running directions running.
pub proof fn lemma_direction_never_returns(e: Established, poll: CallPoll)
    ensures
        spec_call_run(Call::Established(e), poll) matches Ok((Some(Call::Established(e2)), _, _))
            ==> (e.sending_channel is Running ==> e2.sending_channel is Running)
            && (e.receiving_channel is Running ==> e2.receiving_channel is Running),
{
}

/// How the calling task of an outbound call answers the race between
/// completion, the per-call timeout and cancellation.
#[derive(Debug)]
pub enum OutboundWait {
    /// `wait_for_completion` won.
    Completed,
    /// The timeout won.
    TimedOut,
    /// The cancellation token won.
    Cancelled,
}

/// What the calling task then does.
#[derive(Debug)]
pub enum OutboundWaitStep {
    /// Finish the completed call (still racing cancellation).
    ProceedToFinish,
    /// Send CANCEL to the remote and fail the task.
    SendCancelAndFail,
}

/// The calling task proceeds only on completion; a timeout or a cancellation
/// makes it CANCEL the remote and fail.
pub fn outgoing_wait_decision(outcome: OutboundWait) -> (r: OutboundWaitStep)
    ensures
        outcome is Completed <==> r is ProceedToFinish,
{
    match outcome {
        OutboundWait::Completed => OutboundWaitStep::ProceedToFinish,
        OutboundWait::TimedOut => OutboundWaitStep::SendCancelAndFail,
        OutboundWait::Cancelled => OutboundWaitStep::SendCancelAndFail,
    }
}

} // verus!

verus! {

/// An action handed into the incoming call's single-slot channel.
#[derive(Debug)]
pub enum IncomingCallAction {
    /// Answer the call; the runtime attaches the audio endpoints.
    Accept,
    /// Refuse the call with a status and a reason phrase.
    Decline { code: DeclineCode, reason: Vec<u8> },
}

/// What the incoming-call task's wait on the action channel came to.
#[derive(Debug)]
pub enum ActionArrival {
    /// An action arrived.
    Received(IncomingCallAction),
    /// The channel closed before any action arrived.
    ChannelClosed,
    /// The cancellation token fired.
    Cancelled,
}

/// What the incoming-call task carries out.
#[derive(Debug)]
pub enum IncomingTaskStep {
    /// Accept the call and build the established state.
    AcceptCall,
    /// Send the SIP decline with this status and reason.
    DeclineCall { status: u16, reason: Vec<u8> },
}

/// The incoming-call task accepts only on an explicit accept; a received
/// decline goes out with its own code, a closed channel as 500 with the
/// closed-channel reason, a cancellation as 603 with the cancelled reason.
pub fn incoming_task_decision(arrival: ActionArrival) -> (r: IncomingTaskStep)
    ensures
        arrival matches ActionArrival::Received(IncomingCallAction::Accept) <==> r
            is AcceptCall,
        arrival matches ActionArrival::Received(IncomingCallAction::Decline { code, reason })
            ==> (r matches IncomingTaskStep::DeclineCall { status, reason: rr } && status
            == code.spec_status_code() && rr@ == reason@),
        arrival is ChannelClosed ==> (r matches IncomingTaskStep::DeclineCall { status, reason }
            && status == 500 && reason@ == crate::words::channel_closed_reason()),
        arrival is Cancelled ==> (r matches IncomingTaskStep::DeclineCall { status, reason }
            && status == 603 && reason@ == crate::words::call_cancelled_reason()),
{
    match arrival {
        ActionArrival::Received(IncomingCallAction::Accept) => IncomingTaskStep::AcceptCall,
        ActionArrival::Received(IncomingCallAction::Decline { code, reason }) => {
            let status = code.status_code();
            IncomingTaskStep::DeclineCall { status, reason }
        },
        ActionArrival::ChannelClosed => IncomingTaskStep::DeclineCall {
            status: 500,
            reason: crate::words::channel_closed_reason_bytes(),
        },
        ActionArrival::Cancelled => IncomingTaskStep::DeclineCall {
            status: 603,
            reason: crate::words::call_cancelled_reason_bytes(),
        },
    }
}

} // verus!
