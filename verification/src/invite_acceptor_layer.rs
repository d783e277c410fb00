//! The endpoint layer that answers incoming INVITEs: it records where the
//! caller may be contacted back, waits a bounded number of ringing rounds
//! for the operator's accept or reject, and then drives the accepted
//! session.  The endpoint, the acceptor and the SDP answer live outside;
//! the layer's decisions stand here.

use vstd::prelude::*;

verus! {

/// How many one-second ringing rounds an INVITE waits for its action.
pub const WAIT_FOR_ACTION_TIMEOUT_S: usize = 10;

/// The operator's answer to an INVITE.
#[derive(Debug, PartialEq, Eq, Structural, Clone, Copy)]
pub enum InviteAction {
    Accept,
    Reject,
}

/// What the layer remembers between requests.
pub struct InviteAcceptLayer {
    invite_action: Option<InviteAction>,
    incoming_from: Option<Vec<u8>>,
    outgoing_contact: Option<Vec<u8>>,
}

/// What to do with an arriving INVITE.
#[derive(Debug, PartialEq, Eq, Structural, Clone, Copy)]
pub enum InviteReqDisposition {
    /// No outgoing contact is set yet: the INVITE is skipped.
    SkipNoContact,
    /// An incoming call is already being handled: the INVITE is skipped.
    SkipActiveIncoming,
    /// The INVITE is taken up: ring and wait for the action.
    Process,
}

/// One round of waiting for the operator.
pub enum InviteWaitStep {
    /// No action yet: respond RINGING and sleep one round.
    SendRingingAndWait,
    /// The operator answered.
    Act(InviteAction),
    /// All rounds passed without an action.
    TimedOut,
}

/// How the accepted session answers one of its events.
#[derive(Debug, PartialEq, Eq, Structural, Clone, Copy)]
pub enum InviteSessionStep {
    /// Let the event's default processing run.
    ProcessDefault,
    /// Answer the re-INVITE with 200 OK.
    RespondOk,
    /// The session is over: leave the loop.
    LeaveLoop,
}

/// What the accepted session reported.
#[derive(Debug, PartialEq, Eq, Structural, Clone, Copy)]
pub enum InviteSessionEvent {
    RefreshNeeded,
    ReInviteReceived,
    Bye,
    Terminated,
}

impl InviteAcceptLayer {
    /// The pending operator action, if any.
    pub closed spec fn action(self) -> Option<InviteAction> {
        self.invite_action
    }

    /// Who the active incoming INVITE is from, if one is being handled.
    pub closed spec fn from(self) -> Option<Seq<u8>> {
        match self.incoming_from {
            Some(v) => Some(v@),
            None => None,
        }
    }

    /// The contact the layer answers with, once set.
    pub closed spec fn contact(self) -> Option<Seq<u8>> {
        match self.outgoing_contact {
            Some(v) => Some(v@),
            None => None,
        }
    }

    /// A fresh layer: nothing set.
    pub fn new() -> (r: Self)
        ensures
            r.action() is None,
            r.from() is None,
            r.contact() is None,
    {
        InviteAcceptLayer { invite_action: None, incoming_from: None, outgoing_contact: None }
    }

    /// Records the operator's answer for the INVITE being handled.
    pub fn set_invite_action(&mut self, invite_action: InviteAction)
        ensures
            final(self).action() == Some(invite_action),
            final(self).from() == old(self).from(),
            final(self).contact() == old(self).contact(),
    {
        self.invite_action = Some(invite_action);
    }

    /// Records the contact to answer INVITEs with.
    pub fn set_outgoing_contact(&mut self, outgoing_contact: Vec<u8>)
        ensures
            final(self).contact() == Some(outgoing_contact@),
            final(self).from() == old(self).from(),
            final(self).action() == old(self).action(),
    {
        self.outgoing_contact = Some(outgoing_contact);
    }

    /// Who the active incoming INVITE is from.
    pub fn incoming_from(&self) -> (r: Option<Vec<u8>>)
        ensures
            match r {
                Some(v) => self.from() == Some(v@),
                None => self.from() is None,
            },
    {
        match &self.incoming_from {
            Some(v) => Some(vstd::slice::slice_to_vec(v.as_slice())),
            None => None,
        }
    }

    /// Decides an arriving INVITE: skipped while no contact is set or while
    /// another incoming call is in hand; otherwise the caller is recorded,
    /// any stale action cleared, and the INVITE processed.
    pub fn handle_invite_req(&mut self, from: Vec<u8>) -> (r: InviteReqDisposition)
        ensures
            old(self).contact() is None ==> r == InviteReqDisposition::SkipNoContact && *final(self)
                == *old(self),
            old(self).contact() is Some && old(self).from() is Some ==> r
                == InviteReqDisposition::SkipActiveIncoming && *final(self) == *old(self),
            old(self).contact() is Some && old(self).from() is None ==> {
                &&& r == InviteReqDisposition::Process
                &&& final(self).from() == Some(from@)
                &&& final(self).action() is None
                &&& final(self).contact() == old(self).contact()
            },
    {
        if self.outgoing_contact.is_none() {
            return InviteReqDisposition::SkipNoContact;
        }
        if self.incoming_from.is_some() {
            return InviteReqDisposition::SkipActiveIncoming;
        }
        self.incoming_from = Some(from);
        self.invite_action = None;
        InviteReqDisposition::Process
    }

    /// Forgets the incoming INVITE and any pending action; the contact
    /// stays for the next one.
    pub fn clear_incoming(&mut self)
        ensures
            final(self).from() is None,
            final(self).action() is None,
            final(self).contact() == old(self).contact(),
    {
        self.incoming_from = None;
        self.invite_action = None;
    }

    /// One round of waiting for the operator's action: after the last round
    /// the wait has timed out; until then a pending action is acted on and
    /// its absence answered with RINGING.
    pub fn invite_wait_step(&self, attempts: usize) -> (r: InviteWaitStep)
        ensures
            attempts >= WAIT_FOR_ACTION_TIMEOUT_S ==> r is TimedOut,
            attempts < WAIT_FOR_ACTION_TIMEOUT_S ==> match self.action() {
                None => r is SendRingingAndWait,
                Some(a) => r == InviteWaitStep::Act(a),
            },
    {
        if attempts >= WAIT_FOR_ACTION_TIMEOUT_S {
            return InviteWaitStep::TimedOut;
        }
        match &self.invite_action {
            None => InviteWaitStep::SendRingingAndWait,
            Some(a) => InviteWaitStep::Act(*a),
        }
    }
}

/// How the accepted session answers its events: refreshes and BYEs run
/// their default processing, a re-INVITE is answered 200 OK, and
/// termination leaves the loop.
pub fn invite_session_step(event: InviteSessionEvent) -> (r: InviteSessionStep)
    ensures
        event is RefreshNeeded ==> r == InviteSessionStep::ProcessDefault,
        event is ReInviteReceived ==> r == InviteSessionStep::RespondOk,
        event is Bye ==> r == InviteSessionStep::ProcessDefault,
        event is Terminated ==> r == InviteSessionStep::LeaveLoop,
{
    match event {
        InviteSessionEvent::RefreshNeeded => InviteSessionStep::ProcessDefault,
        InviteSessionEvent::ReInviteReceived => InviteSessionStep::RespondOk,
        InviteSessionEvent::Bye => InviteSessionStep::ProcessDefault,
        InviteSessionEvent::Terminated => InviteSessionStep::LeaveLoop,
    }
}

} // verus!
