//! The user-agent coordinator: owns at most one registration and at most one
//! call, serializes every operation, and hands lifecycle events out of a
//! FIFO queue.  The SIP client, the sockets and the tasks live outside; the
//! coordinator is stepped with what they observed and answers with its next
//! state and the actions to carry out.

use vstd::prelude::*;
use crate::call::{
    spec_call_run, spec_terminate_actions, Call, CallEvent, CallPoll, DeclineCode, Incoming,
    IncomingCallAction, TerminateActions, WaitingForActionResponse,
};
use crate::parser::HostPort;
use crate::words::active_call_reason;

verus! {

/// A lifecycle event, in the order the coordinator emits them.
#[derive(Debug)]
pub enum UserAgentEvent {
    CallEstablished,
    Calling,
    CallTerminated,
    /// An INVITE arrived; the payload names the caller.
    IncomingCall(Vec<u8>),
    Registered,
    Unregistered,
}

/// Digest credentials as plain values: who authenticates, with what secret.
#[derive(Debug)]
pub struct Credentials {
    pub user: Vec<u8>,
    pub password: Vec<u8>,
}

/// The live registrar binding.  The credentials are held for its whole
/// lifetime so re-registration and call-time authentication reuse them.
#[derive(Debug)]
pub struct RegData {
    pub user_name: Vec<u8>,
    pub credentials: Credentials,
    pub registrar_host: HostPort,
}

/// The phase of the call lifecycle that a history of events has reached.
#[derive(Debug)]
pub enum CallPhase {
    /// No session open.
    Idle,
    /// A session was opened (`Calling` or `IncomingCall`) and has neither
    /// been established nor terminated.
    Open,
    /// The open session was established.
    Established,
}

/// True iff the event opens a session.
pub open spec fn opens_session(e: UserAgentEvent) -> bool {
    ||| e is Calling
    ||| e matches UserAgentEvent::IncomingCall(_)
}

/// How one event moves the call phase; `None` is an emission the lifecycle
/// forbids (a second opening, an establish without an open session, a
/// termination without a session).
pub open spec fn phase_step(p: CallPhase, e: UserAgentEvent) -> Option<CallPhase> {
    match e {
        UserAgentEvent::Calling => if p is Idle {
            Some(CallPhase::Open)
        } else {
            None
        },
        UserAgentEvent::IncomingCall(_) => if p is Idle {
            Some(CallPhase::Open)
        } else {
            None
        },
        UserAgentEvent::CallEstablished => if p is Open {
            Some(CallPhase::Established)
        } else {
            None
        },
        UserAgentEvent::CallTerminated => if p is Idle {
            None
        } else {
            Some(CallPhase::Idle)
        },
        UserAgentEvent::Registered => Some(p),
        UserAgentEvent::Unregistered => Some(p),
    }
}

/// The phase a whole history reaches, `None` when some emission in it was
/// forbidden.
pub open spec fn phase_of(h: Seq<UserAgentEvent>) -> Option<CallPhase>
    decreases h.len(),
{
    if h.len() == 0 {
        Some(CallPhase::Idle)
    } else {
        match phase_of(h.drop_last()) {
            None => None,
            Some(p) => phase_step(p, h.last()),
        }
    }
}

/// A history every emission of which the lifecycle allows.
pub open spec fn wf_history(h: Seq<UserAgentEvent>) -> bool {
    phase_of(h) is Some
}

/// The phase the call slot itself stands in.
pub open spec fn call_slot_phase(c: Option<Call>) -> CallPhase {
    match c {
        None => CallPhase::Idle,
        Some(Call::Established(_)) => CallPhase::Established,
        Some(_) => CallPhase::Open,
    }
}

/// Appending one event steps the phase of the history.
pub proof fn lemma_phase_push(h: Seq<UserAgentEvent>, e: UserAgentEvent)
    ensures
        phase_of(h.push(e)) == match phase_of(h) {
            None => None::<CallPhase>,
            Some(p) => phase_step(p, e),
        },
{
    assert(h.push(e).drop_last() =~= h);
    assert(h.push(e).last() == e);
}

/// What the coordinator answers when an INVITE must be refused.
#[derive(Debug)]
pub struct DeclineDirective {
    /// The SIP status to decline with.
    pub status: u16,
    /// The reason phrase to decline with.
    pub reason: Vec<u8>,
}

/// Why a coordinator operation was refused.
#[derive(Debug, PartialEq, Eq, Structural, Clone, Copy)]
pub enum UserAgentError {
    /// The operation needs a registration.
    NotRegistered,
    /// The registrar did not accept the registration.
    RegistrationFailed,
    /// A call already exists.
    ActiveCallExists,
    /// The outbound call could not be placed.
    CallSetupFailed,
    /// There is no incoming call to answer.
    NoIncomingCall,
}

/// How one `handle_incoming_call_req` step relates the states: nothing
/// changes without a registration or an INVITE; a busy coordinator answers
/// the 486 decline directive with the busy reason and stays untouched; a
/// free one takes the incoming call, keeps the action sender and emits
/// `IncomingCall` with the caller.
pub open spec fn incoming_step_rel(
    pre: UserAgent,
    incoming: Option<Vec<u8>>,
    post: UserAgent,
    r: Option<DeclineDirective>,
) -> bool {
    &&& (pre.reg() is None || incoming is None ==> r is None && post == pre)
    &&& (pre.reg() is Some && incoming is Some && pre.call_state() is Some ==> (r matches Some(d)
        && d.status == 486 && d.reason@ == active_call_reason()) && post == pre)
    &&& (pre.reg() is Some && pre.call_state() is None ==> match incoming {
        None => r is None && post == pre,
        Some(from) => {
            &&& r is None
            &&& post.call_state() matches Some(Call::Incoming(Incoming::WaitingForAction(_)))
            &&& post.action_sender()
            &&& post.events_view() == pre.events_view().push(UserAgentEvent::IncomingCall(from))
            &&& post.history() == pre.history().push(UserAgentEvent::IncomingCall(from))
            &&& post.delivered() == pre.delivered()
            &&& post.reg() == pre.reg()
        },
    })
}

/// How one `update_call` step relates the states: without a call nothing
/// changes; otherwise the slot follows `spec_call_run`, a reported event is
/// emitted, the action sender survives only while the call stays an
/// incoming one still waiting, and the step's cleanup actions come back.  A
/// failing step clears the slot, emits `CallTerminated`, and hands back the
/// failed state's own cleanup for the runtime to carry out.
pub open spec fn update_step_rel(
    pre: UserAgent,
    poll: CallPoll,
    post: UserAgent,
    r: Option<TerminateActions>,
) -> bool {
    &&& (pre.call_state() is None ==> r is None && post == pre)
    &&& (pre.call_state() matches Some(c) ==> match spec_call_run(c, poll) {
        Ok((next, ev, actions)) => {
            &&& post.call_state() == next
            &&& post.action_sender() == (pre.action_sender() && (next matches Some(
                Call::Incoming(Incoming::WaitingForAction(_)),
            )))
            &&& match ev {
                None => post.events_view() == pre.events_view() && post.history()
                    == pre.history(),
                Some(CallEvent::Established) => post.events_view() == pre.events_view().push(
                    UserAgentEvent::CallEstablished,
                ) && post.history() == pre.history().push(UserAgentEvent::CallEstablished),
                Some(CallEvent::Terminated) => post.events_view() == pre.events_view().push(
                    UserAgentEvent::CallTerminated,
                ) && post.history() == pre.history().push(UserAgentEvent::CallTerminated),
            }
            &&& post.delivered() == pre.delivered()
            &&& post.reg() == pre.reg()
            &&& r == Some(actions)
        },
        Err(_) => {
            &&& post.call_state() is None
            &&& !post.action_sender()
            &&& post.events_view() == pre.events_view().push(UserAgentEvent::CallTerminated)
            &&& post.history() == pre.history().push(UserAgentEvent::CallTerminated)
            &&& post.delivered() == pre.delivered()
            &&& post.reg() == pre.reg()
            &&& r == Some(spec_terminate_actions(c))
        },
    })
}

/// The user-agent coordinator's state: at most one registration, at most one
/// call, the sender end of the incoming call's action channel iff that call
/// still waits for its action, and the queue of events not yet handed out.
pub struct UserAgent {
    events: Vec<UserAgentEvent>,
    reg_data: Option<RegData>,
    call: Option<Call>,
    in_call_action_sender: bool,
    history: Ghost<Seq<UserAgentEvent>>,
    delivered: Ghost<Seq<UserAgentEvent>>,
}

impl UserAgent {
    /// The events queued and not yet handed out, oldest first.
    pub closed spec fn events_view(self) -> Seq<UserAgentEvent> {
        self.events@
    }

    /// The registrar binding.
    pub closed spec fn reg(self) -> Option<RegData> {
        self.reg_data
    }

    /// The call slot.
    pub closed spec fn call_state(self) -> Option<Call> {
        self.call
    }

    /// Whether the coordinator holds the action channel's sender end.
    pub closed spec fn action_sender(self) -> bool {
        self.in_call_action_sender
    }

    /// Every event ever emitted, oldest first.
    pub closed spec fn history(self) -> Seq<UserAgentEvent> {
        self.history@
    }

    /// Every event already handed out, oldest first.
    pub closed spec fn delivered(self) -> Seq<UserAgentEvent> {
        self.delivered@
    }

    /// The coordinator's invariant: the action sender exists iff the call is
    /// an incoming one still waiting for its action; the emitted history is
    /// one the lifecycle allows and its phase agrees with the call slot —
    /// which also pins down that at most one call and one registration exist,
    /// since each lives in a single optional slot; and the history is what
    /// was handed out followed by what still queues.
    pub open spec fn wf(self) -> bool {
        &&& self.action_sender() <==> (self.call_state() matches Some(
            Call::Incoming(Incoming::WaitingForAction(_)),
        ))
        &&& phase_of(self.history()) == Some(call_slot_phase(self.call_state()))
        &&& self.history() == self.delivered() + self.events_view()
    }

    /// A fresh coordinator: unregistered, idle, nothing queued.
    pub fn new() -> (r: Self)
        ensures
            r.wf(),
            r.reg() is None,
            r.call_state() is None,
            !r.action_sender(),
            r.events_view() == Seq::<UserAgentEvent>::empty(),
            r.history() == Seq::<UserAgentEvent>::empty(),
            r.delivered() == Seq::<UserAgentEvent>::empty(),
    {
        let r = UserAgent {
            events: Vec::new(),
            reg_data: None,
            call: None,
            in_call_action_sender: false,
            history: Ghost(Seq::empty()),
            delivered: Ghost(Seq::empty()),
        };
        proof {
            assert(r.history() =~= r.delivered() + r.events_view());
        }
        r
    }

    /// True iff a registrar binding exists.
    pub fn is_registered(&self) -> (r: bool)
        ensures
            r == (self.reg() is Some),
    {
        self.reg_data.is_some()
    }

    /// True iff a call exists, in whatever state.
    pub fn has_active_call(&self) -> (r: bool)
        ensures
            r == (self.call_state() is Some),
    {
        self.call.is_some()
    }

    /// True iff the call, if any, is established.
    pub fn has_established_call(&self) -> (r: bool)
        ensures
            r == (self.call_state() matches Some(Call::Established(_))),
    {
        match &self.call {
            Some(Call::Established(_)) => true,
            _ => false,
        }
    }

    /// True iff an incoming call still waits for accept or decline.
    pub fn has_incoming_call(&self) -> (r: bool)
        ensures
            r == self.action_sender(),
    {
        self.in_call_action_sender
    }

    /// Pushes an event at the back of the queue and onto the history.
    fn push_event(&mut self, e: UserAgentEvent)
        ensures
            final(self).events_view() == old(self).events_view().push(e),
            final(self).history() == old(self).history().push(e),
            final(self).delivered() == old(self).delivered(),
            final(self).reg() == old(self).reg(),
            final(self).call_state() == old(self).call_state(),
            final(self).action_sender() == old(self).action_sender(),
    {
        proof {
            let h = self.history@;
            self.history@ = h.push(e);
        }
        self.events.push(e);
    }

    /// Commits the outcome of a registration attempt: on acceptance the
    /// binding is replaced and `Registered` emitted; on refusal nothing
    /// changes.  The in-flight call, if any, continues either way.
    pub fn register(
        &mut self,
        user_name: Vec<u8>,
        credentials: Credentials,
        registrar_host: HostPort,
        registration_accepted: bool,
    ) -> (r: Result<(), UserAgentError>)
        requires
            old(self).wf(),
        ensures
            final(self).wf(),
            registration_accepted ==> {
                &&& r is Ok
                &&& final(self).reg() matches Some(rd) && rd.user_name == user_name
                    && rd.credentials == credentials && rd.registrar_host == registrar_host
                &&& final(self).events_view() == old(self).events_view().push(
                    UserAgentEvent::Registered,
                )
                &&& final(self).history() == old(self).history().push(UserAgentEvent::Registered)
                &&& final(self).delivered() == old(self).delivered()
                &&& final(self).call_state() == old(self).call_state()
                &&& final(self).action_sender() == old(self).action_sender()
            },
            !registration_accepted ==> r == Err::<(), _>(UserAgentError::RegistrationFailed)
                && *final(self) == *old(self),
    {
        if !registration_accepted {
            return Err(UserAgentError::RegistrationFailed);
        }
        self.reg_data = Some(RegData { user_name, credentials, registrar_host });
        proof {
            lemma_phase_push(self.history@, UserAgentEvent::Registered);
        }
        self.push_event(UserAgentEvent::Registered);
        Ok(())
    }

    /// Drops the binding and emits `Unregistered`; an in-flight call
    /// continues.
    pub fn unregister(&mut self)
        requires
            old(self).wf(),
        ensures
            final(self).wf(),
            final(self).reg() is None,
            final(self).events_view() == old(self).events_view().push(
                UserAgentEvent::Unregistered,
            ),
            final(self).history() == old(self).history().push(UserAgentEvent::Unregistered),
            final(self).delivered() == old(self).delivered(),
            final(self).call_state() == old(self).call_state(),
            final(self).action_sender() == old(self).action_sender(),
    {
        self.reg_data = None;
        proof {
            lemma_phase_push(self.history@, UserAgentEvent::Unregistered);
        }
        self.push_event(UserAgentEvent::Unregistered);
    }

    /// Commits the outcome of placing an outbound call.  It needs a
    /// registration and a free call slot; when the call was placed, the slot
    /// takes the outgoing state and `Calling` is emitted.
    pub fn make_call(
        &mut self,
        target_user_name: Vec<u8>,
        waiting_timeout_millis: u64,
        outbound_call_placed: bool,
    ) -> (r: Result<(), UserAgentError>)
        requires
            old(self).wf(),
        ensures
            final(self).wf(),
            old(self).reg() is None ==> r == Err::<(), _>(UserAgentError::NotRegistered) && *final(self) == *old(self),
            old(self).reg() is Some && old(self).call_state() is Some ==> r == Err::<(), _>(
                UserAgentError::ActiveCallExists,
            ) && *final(self) == *old(self),
            old(self).reg() is Some && old(self).call_state() is None && !outbound_call_placed
                ==> r == Err::<(), _>(UserAgentError::CallSetupFailed) && *final(self) == *old(self),
            old(self).reg() is Some && old(self).call_state() is None && outbound_call_placed
                ==> {
                &&& r is Ok
                &&& final(self).call_state() matches Some(Call::Outgoing(o))
                    && o.waiting_timeout_millis == waiting_timeout_millis
                &&& final(self).events_view() == old(self).events_view().push(
                    UserAgentEvent::Calling,
                )
                &&& final(self).history() == old(self).history().push(UserAgentEvent::Calling)
                &&& final(self).delivered() == old(self).delivered()
                &&& final(self).reg() == old(self).reg()
                &&& !final(self).action_sender()
            },
    {
        let _ = target_user_name;
        if self.reg_data.is_none() {
            return Err(UserAgentError::NotRegistered);
        }
        if self.call.is_some() {
            return Err(UserAgentError::ActiveCallExists);
        }
        if !outbound_call_placed {
            return Err(UserAgentError::CallSetupFailed);
        }
        self.call = Some(Call::from_outgoing(waiting_timeout_millis));
        proof {
            lemma_phase_push(self.history@, UserAgentEvent::Calling);
        }
        self.push_event(UserAgentEvent::Calling);
        Ok(())
    }

    /// Answers an INVITE the client handed over.  Without a registration, or
    /// without an INVITE, nothing happens.  While a call exists the INVITE
    /// is declined with 486 and the busy reason, the local state untouched.
    /// With the slot free the incoming call takes it, the coordinator keeps
    /// the action sender, and `IncomingCall` with the caller is emitted.
    pub fn handle_incoming_call_req(&mut self, incoming: Option<Vec<u8>>) -> (r: Option<
        DeclineDirective,
    >)
        requires
            old(self).wf(),
        ensures
            final(self).wf(),
            incoming_step_rel(*old(self), incoming, *final(self), r),
    {
        if self.reg_data.is_none() {
            return None;
        }
        match incoming {
            None => None,
            Some(from) => {
                if self.call.is_some() {
                    Some(
                        DeclineDirective {
                            status: 486,
                            reason: crate::words::active_call_reason_bytes(),
                        },
                    )
                } else {
                    self.call = Some(Call::from_incoming());
                    self.in_call_action_sender = true;
                    proof {
                        lemma_phase_push(self.history@, UserAgentEvent::IncomingCall(from));
                    }
                    self.push_event(UserAgentEvent::IncomingCall(from));
                    None
                }
            },
        }
    }

    /// Consumes the action sender and answers with the accept action to put
    /// on the channel; the incoming call settles.  Without a pending
    /// incoming call the operation is refused.
    pub fn accept_incoming_call(&mut self) -> (r: Result<IncomingCallAction, UserAgentError>)
        requires
            old(self).wf(),
        ensures
            final(self).wf(),
            !old(self).action_sender() ==> r == Err::<IncomingCallAction, _>(
                UserAgentError::NoIncomingCall,
            ) && *final(self) == *old(self),
            old(self).action_sender() ==> {
                &&& r matches Ok(a) && a is Accept
                &&& !final(self).action_sender()
                &&& final(self).call_state() matches Some(
                    Call::Incoming(Incoming::WaitingForActionResponse(_)),
                )
                &&& final(self).events_view() == old(self).events_view()
                &&& final(self).history() == old(self).history()
                &&& final(self).delivered() == old(self).delivered()
                &&& final(self).reg() == old(self).reg()
            },
    {
        if !self.in_call_action_sender {
            return Err(UserAgentError::NoIncomingCall);
        }
        self.in_call_action_sender = false;
        self.call = Some(Call::Incoming(Incoming::WaitingForActionResponse(
            WaitingForActionResponse {},
        )));
        Ok(IncomingCallAction::Accept)
    }

    /// Consumes the action sender and answers with the decline action to put
    /// on the channel — the user's decline, 603; the incoming call settles.
    /// Without a pending incoming call the operation is refused.
    pub fn decline_incoming_call(&mut self) -> (r: Result<IncomingCallAction, UserAgentError>)
        requires
            old(self).wf(),
        ensures
            final(self).wf(),
            !old(self).action_sender() ==> r == Err::<IncomingCallAction, _>(
                UserAgentError::NoIncomingCall,
            ) && *final(self) == *old(self),
            old(self).action_sender() ==> {
                &&& r matches Ok(a) && a matches IncomingCallAction::Decline { code, .. } && code
                    is UserDeclined
                &&& !final(self).action_sender()
                &&& final(self).call_state() matches Some(
                    Call::Incoming(Incoming::WaitingForActionResponse(_)),
                )
                &&& final(self).events_view() == old(self).events_view()
                &&& final(self).history() == old(self).history()
                &&& final(self).delivered() == old(self).delivered()
                &&& final(self).reg() == old(self).reg()
            },
    {
        if !self.in_call_action_sender {
            return Err(UserAgentError::NoIncomingCall);
        }
        self.in_call_action_sender = false;
        self.call = Some(Call::Incoming(Incoming::WaitingForActionResponse(
            WaitingForActionResponse {},
        )));
        Ok(IncomingCallAction::Decline { code: DeclineCode::UserDeclined, reason: Vec::new() })
    }

    /// Ends the call if one exists: the slot and the action sender clear,
    /// `CallTerminated` is emitted, and the state's cleanup actions come
    /// back for the runtime to carry out.
    pub fn terminate_call(&mut self) -> (r: Option<TerminateActions>)
        requires
            old(self).wf(),
        ensures
            final(self).wf(),
            old(self).call_state() is None ==> r is None && *final(self) == *old(self),
            old(self).call_state() matches Some(c) ==> {
                &&& r == Some(spec_terminate_actions(c))
                &&& final(self).call_state() is None
                &&& !final(self).action_sender()
                &&& final(self).events_view() == old(self).events_view().push(
                    UserAgentEvent::CallTerminated,
                )
                &&& final(self).history() == old(self).history().push(
                    UserAgentEvent::CallTerminated,
                )
                &&& final(self).delivered() == old(self).delivered()
                &&& final(self).reg() == old(self).reg()
            },
    {
        match self.call.take() {
            None => None,
            Some(c) => {
                let actions = c.terminate();
                self.in_call_action_sender = false;
                proof {
                    lemma_phase_push(self.history@, UserAgentEvent::CallTerminated);
                }
                self.push_event(UserAgentEvent::CallTerminated);
                Some(actions)
            },
        }
    }

    /// Steps the call with what the runtime observed.  Without a call
    /// nothing happens.  Otherwise the slot follows the call's own step; an
    /// event the step reports is emitted, the action sender survives only if
    /// the call stays an incoming one still waiting, and the step's cleanup
    /// actions come back.  A failing step ends the call: the slot clears,
    /// `CallTerminated` is emitted, and the failed state's cleanup actions
    /// come back so the runtime aborts its tasks and ends the dialog.
    pub fn update_call(&mut self, poll: CallPoll) -> (r: Option<TerminateActions>)
        requires
            old(self).wf(),
        ensures
            final(self).wf(),
            update_step_rel(*old(self), poll, *final(self), r),
    {
        match self.call.take() {
            None => None,
            Some(c) => {
                let was_waiting = self.in_call_action_sender;
                let cleanup = c.cleanup_actions();
                match c.run(poll) {
                    Ok((next, ev, actions)) => {
                        let next_is_waiting = match &next {
                            Some(Call::Incoming(Incoming::WaitingForAction(_))) => true,
                            _ => false,
                        };
                        self.call = next;
                        self.in_call_action_sender = was_waiting && next_is_waiting;
                        match ev {
                            None => {},
                            Some(CallEvent::Established) => {
                                proof {
                                    lemma_phase_push(
                                        self.history@,
                                        UserAgentEvent::CallEstablished,
                                    );
                                }
                                self.push_event(UserAgentEvent::CallEstablished);
                            },
                            Some(CallEvent::Terminated) => {
                                proof {
                                    lemma_phase_push(self.history@, UserAgentEvent::CallTerminated);
                                }
                                self.push_event(UserAgentEvent::CallTerminated);
                            },
                        }
                        Some(actions)
                    },
                    Err(_) => {
                        self.call = None;
                        self.in_call_action_sender = false;
                        proof {
                            lemma_phase_push(self.history@, UserAgentEvent::CallTerminated);
                        }
                        self.push_event(UserAgentEvent::CallTerminated);
                        Some(cleanup)
                    },
                }
            },
        }
    }

    /// Hands out the oldest queued event, if any.
    pub fn take_event(&mut self) -> (r: Option<UserAgentEvent>)
        requires
            old(self).wf(),
        ensures
            final(self).wf(),
            old(self).events_view().len() == 0 ==> r is None && *final(self) == *old(self),
            old(self).events_view().len() > 0 ==> {
                &&& r == Some(old(self).events_view()[0])
                &&& final(self).events_view() == old(self).events_view().skip(1)
                &&& final(self).delivered() == old(self).delivered().push(
                    old(self).events_view()[0],
                )
                &&& final(self).history() == old(self).history()
                &&& final(self).call_state() == old(self).call_state()
                &&& final(self).reg() == old(self).reg()
                &&& final(self).action_sender() == old(self).action_sender()
            },
    {
        if self.events.len() == 0 {
            return None;
        }
        let e = self.events.remove(0);
        proof {
            let d = self.delivered@;
            self.delivered@ = d.push(old(self).events_view()[0]);
            assert(self.events@ =~= old(self).events_view().skip(1));
            assert(self.delivered@ + self.events@ =~= old(self).delivered()
                + old(self).events_view());
        }
        Some(e)
    }
}

/// What one coordinator tick hands back.
#[derive(Debug)]
pub struct RunOutcome {
    /// The oldest queued event, when one was there to drain.
    pub event: Option<UserAgentEvent>,
    /// A decline directive for an INVITE that arrived while busy.
    pub decline: Option<DeclineDirective>,
    /// The cleanup actions of a call step that wound the call down.
    pub actions: Option<TerminateActions>,
}

impl UserAgent {
    /// One coordinator tick: a queued event is always drained first, and
    /// only when none waits are the INVITE source and the call stepped, in
    /// that order — so events are observed exactly in emission order.
    pub fn run(&mut self, incoming: Option<Vec<u8>>, poll: CallPoll) -> (r: RunOutcome)
        requires
            old(self).wf(),
        ensures
            final(self).wf(),
            old(self).events_view().len() > 0 ==> {
                &&& r.event == Some(old(self).events_view()[0])
                &&& r.decline is None
                &&& r.actions is None
                &&& final(self).events_view() == old(self).events_view().skip(1)
                &&& final(self).delivered() == old(self).delivered().push(
                    old(self).events_view()[0],
                )
                &&& final(self).history() == old(self).history()
                &&& final(self).call_state() == old(self).call_state()
                &&& final(self).reg() == old(self).reg()
                &&& final(self).action_sender() == old(self).action_sender()
            },
            old(self).events_view().len() == 0 ==> r.event is None && exists|mid: UserAgent|
                #[trigger] incoming_step_rel(*old(self), incoming, mid, r.decline)
                && update_step_rel(mid, poll, *final(self), r.actions),
    {
        match self.take_event() {
            Some(e) => RunOutcome { event: Some(e), decline: None, actions: None },
            None => {
                let decline = self.handle_incoming_call_req(incoming);
                let ghost mid = *self;
                let actions = self.update_call(poll);
                proof {
                    assert(incoming_step_rel(*old(self), incoming, mid, decline)
                        && update_step_rel(mid, poll, *self, actions));
                }
                RunOutcome { event: None, decline, actions }
            },
        }
    }
}

/// The SIP URI `sip:{user}@{host}` with the port after a colon when the
/// address names one.
pub open spec fn spec_sip_uri(user: Seq<u8>, host: Seq<u8>, port: Option<u16>) -> Seq<u8> {
    let base = crate::words::sip_scheme_kw() + user + seq![64u8] + host;
    match port {
        None => base,
        Some(p) => base + seq![58u8] + crate::text::spec_dec_u64(p as nat),
    }
}

/// Builds the SIP URI naming `user_name` at `sip_domain`.
pub fn make_sip_uri(user_name: &[u8], sip_domain: &HostPort) -> (r: Vec<u8>)
    ensures
        r@ == spec_sip_uri(user_name@, sip_domain.host@, sip_domain.port),
{
    let mut out = crate::words::sip_scheme_kw_bytes();
    let mut user = vstd::slice::slice_to_vec(user_name);
    out.append(&mut user);
    out.push(64);
    let mut host = vstd::slice::slice_to_vec(sip_domain.host.as_slice());
    out.append(&mut host);
    match sip_domain.port {
        None => {},
        Some(p) => {
            out.push(58);
            let mut digits = crate::text::format_u64(p as u64);
            out.append(&mut digits);
        },
    }
    proof {
        assert(out@ =~= spec_sip_uri(user_name@, sip_domain.host@, sip_domain.port));
    }
    out
}

/// How many `CallTerminated` events stand in `h[a..b)`.
pub open spec fn terminations_in(h: Seq<UserAgentEvent>, a: int, b: int) -> int
    decreases b - a,
{
    if a >= b {
        0
    } else {
        terminations_in(h, a, b - 1) + (if h[b - 1] is CallTerminated {
            1int
        } else {
            0int
        })
    }
}

/// One more event steps the phase of the prefix.
proof fn lemma_phase_prefix_step(h: Seq<UserAgentEvent>, n: int)
    requires
        0 <= n < h.len(),
    ensures
        phase_of(h.take(n + 1)) == match phase_of(h.take(n)) {
            None => None::<CallPhase>,
            Some(p) => phase_step(p, h[n]),
        },
{
    assert(h.take(n + 1).drop_last() =~= h.take(n));
    assert(h.take(n + 1).last() == h[n]);
}

/// Every prefix of a lawful history is lawful.
proof fn lemma_wf_prefix(h: Seq<UserAgentEvent>, n: int)
    requires
        wf_history(h),
        0 <= n <= h.len(),
    ensures
        phase_of(h.take(n)) is Some,
    decreases h.len() - n,
{
    if n == h.len() {
        assert(h.take(n) =~= h);
    } else {
        lemma_wf_prefix(h, n + 1);
        lemma_phase_prefix_step(h, n);
    }
}

/// After a `CallEstablished` at `i`, as long as no further session opens,
/// the phase stays established with no termination seen, or has dropped to
/// idle through exactly one termination.
proof fn lemma_established_segment(h: Seq<UserAgentEvent>, i: int, n: int)
    requires
        wf_history(h),
        0 <= i < n <= h.len(),
        h[i] is CallEstablished,
        forall|k: int| i < k < n ==> !opens_session(#[trigger] h[k]),
    ensures
        phase_of(h.take(n)) == Some(CallPhase::Established) || phase_of(h.take(n)) == Some(
            CallPhase::Idle,
        ),
        phase_of(h.take(n)) == Some(CallPhase::Established) ==> terminations_in(h, i + 1, n) == 0,
        phase_of(h.take(n)) == Some(CallPhase::Idle) ==> terminations_in(h, i + 1, n) == 1,
    decreases n - i,
{
    if n == i + 1 {
        lemma_wf_prefix(h, i + 1);
        lemma_phase_prefix_step(h, i);
    } else {
        lemma_established_segment(h, i, n - 1);
        lemma_wf_prefix(h, n);
        lemma_phase_prefix_step(h, n - 1);
        assert(!opens_session(h[n - 1]));
    }
}

/// Between an emitted `CallEstablished` and the next event that opens a
/// session (`Calling` or `IncomingCall`) stands exactly one
/// `CallTerminated` — in any history the coordinator can emit, since its
/// invariant keeps the history lawful.
pub proof fn lemma_established_then_terminated(h: Seq<UserAgentEvent>, i: int, j: int)
    requires
        wf_history(h),
        0 <= i < j < h.len(),
        h[i] is CallEstablished,
        opens_session(h[j]),
        forall|k: int| i < k < j ==> !opens_session(#[trigger] h[k]),
    ensures
        terminations_in(h, i + 1, j) == 1,
{
    lemma_established_segment(h, i, j);
    lemma_wf_prefix(h, j + 1);
    lemma_phase_prefix_step(h, j);
}

/// The coordinator's invariant keeps its emitted history lawful, so the
/// termination law above applies to it.
pub proof fn lemma_agent_history_wf(ua: UserAgent)
    requires
        ua.wf(),
    ensures
        wf_history(ua.history()),
{
}

/// Idle means clean: whenever the coordinator holds no call it holds no
/// action channel either — so a declined or timed-out call, whose step
/// clears the slot, leaves the coordinator free of both.
pub proof fn lemma_idle_has_no_action_channel(ua: UserAgent)
    requires
        ua.wf(),
        ua.call_state() is None,
    ensures
        !ua.action_sender(),
{
}

} // verus!
