//! The registration controller: a long-lived loop that REGISTERs, awaits
//! the registrar's final response, publishes its status line, and sleeps
//! until just before expiry on success or for the retry pause on anything
//! else.  The transport, the transaction and the loop's task live outside;
//! their decisions stand here.

use vstd::prelude::*;
use crate::text::spec_dec_u64;
use crate::user_agent::spec_sip_uri;

verus! {

/// The final status line of a REGISTER transaction, as plain values.
#[derive(Debug)]
pub struct StatusLine {
    pub code: u16,
    pub reason: Option<Vec<u8>>,
}

/// The classes of SIP status codes, by hundreds.
#[derive(Debug)]
pub enum CodeKind {
    Provisional,
    Success,
    Redirection,
    RequestFailure,
    ServerFailure,
    GlobalFailure,
    Custom,
}

/// The class of a status code: 1xx to 6xx each name one, everything else is
/// custom.
pub open spec fn spec_code_kind(code: u16) -> CodeKind {
    if 100 <= code <= 199 {
        CodeKind::Provisional
    } else if 200 <= code <= 299 {
        CodeKind::Success
    } else if 300 <= code <= 399 {
        CodeKind::Redirection
    } else if 400 <= code <= 499 {
        CodeKind::RequestFailure
    } else if 500 <= code <= 599 {
        CodeKind::ServerFailure
    } else if 600 <= code <= 699 {
        CodeKind::GlobalFailure
    } else {
        CodeKind::Custom
    }
}

/// The class of a status code.
pub fn code_kind(code: u16) -> (r: CodeKind)
    ensures
        r == spec_code_kind(code),
{
    if 100 <= code && code <= 199 {
        CodeKind::Provisional
    } else if 200 <= code && code <= 299 {
        CodeKind::Success
    } else if 300 <= code && code <= 399 {
        CodeKind::Redirection
    } else if 400 <= code && code <= 499 {
        CodeKind::RequestFailure
    } else if 500 <= code && code <= 599 {
        CodeKind::ServerFailure
    } else if 600 <= code && code <= 699 {
        CodeKind::GlobalFailure
    } else {
        CodeKind::Custom
    }
}

/// How a registration stands.
#[derive(Debug, PartialEq, Eq, Structural, Clone, Copy)]
pub enum RegistrationStatusKind {
    /// No final success or failure seen.
    Unregistered,
    /// The registrar refused: a 4xx, 5xx or 6xx.
    Failed,
    /// The registrar accepted: a 2xx.
    Successful,
}

/// The registration standing a status code amounts to.
pub open spec fn spec_status_kind(code: u16) -> RegistrationStatusKind {
    match spec_code_kind(code) {
        CodeKind::Success => RegistrationStatusKind::Successful,
        CodeKind::RequestFailure => RegistrationStatusKind::Failed,
        CodeKind::ServerFailure => RegistrationStatusKind::Failed,
        CodeKind::GlobalFailure => RegistrationStatusKind::Failed,
        _ => RegistrationStatusKind::Unregistered,
    }
}

/// The registration's standing with the registrar's reason phrase.
#[derive(Debug)]
pub struct RegistrationStatus {
    pub kind: RegistrationStatusKind,
    pub reason: Vec<u8>,
}

impl RegistrationStatus {
    /// Reads a status line: the kind from the code's class, the reason as
    /// given or empty.
    pub fn from_status_line(line: StatusLine) -> (r: Self)
        ensures
            r.kind == spec_status_kind(line.code),
            match line.reason {
                Some(v) => r.reason@ == v@,
                None => r.reason@ == Seq::<u8>::empty(),
            },
    {
        let kind = match code_kind(line.code) {
            CodeKind::Success => RegistrationStatusKind::Successful,
            CodeKind::RequestFailure => RegistrationStatusKind::Failed,
            CodeKind::ServerFailure => RegistrationStatusKind::Failed,
            CodeKind::GlobalFailure => RegistrationStatusKind::Failed,
            _ => RegistrationStatusKind::Unregistered,
        };
        let reason = match line.reason {
            Some(v) => v,
            None => Vec::new(),
        };
        proof {
            if line.reason is None {
                assert(reason@ =~= Seq::<u8>::empty());
            }
        }
        RegistrationStatus { kind, reason }
    }
}

/// A 2xx line always reads as successful, and any 4xx, 5xx or 6xx as
/// failed.
pub proof fn lemma_registration_status_kinds(code: u16)
    ensures
        200 <= code <= 299 ==> spec_status_kind(code) is Successful,
        400 <= code <= 699 ==> spec_status_kind(code) is Failed,
        spec_status_kind(code) is Successful ==> 200 <= code <= 299,
        spec_status_kind(code) is Failed ==> 400 <= code <= 699,
{
}

/// What the registering loop does after a final response.
#[derive(Debug)]
pub enum RegStep {
    /// A success: hand the response to the registration so it learns its
    /// binding, sleep until just before expiry, then re-REGISTER.
    RefreshAfterExpiry,
    /// Anything else: wait the retry pause, then re-REGISTER.
    RetryAfterDelay,
}

/// What the registration loop knows between transactions.
#[derive(Debug)]
pub struct Registrator {
    reg_task: bool,
    last_response_status: Option<StatusLine>,
}

/// The endpoint-independent settings a registrator is built from.
#[derive(Debug)]
pub struct Settings {
    pub sip_port: u16,
    pub sip_registrar_ip: Vec<u8>,
    pub contact_ip: Vec<u8>,
    pub extension_number: u64,
    pub expiry_secs: u64,
}

/// The three URIs a registration is created with.
#[derive(Debug)]
pub struct RegistrationUris {
    /// The address of record, `sip:{number}@{contact_ip}`.
    pub id: Vec<u8>,
    /// The contact, `sip:{number}@{contact_ip}:{port}`.
    pub contact: Vec<u8>,
    /// The registrar, `sip:{number}@{registrar_ip}:{port}`.
    pub registrar: Vec<u8>,
}

impl Registrator {
    /// Whether the registering loop's task runs.
    pub closed spec fn task_running(self) -> bool {
        self.reg_task
    }

    /// The published status line of the last final response.
    pub closed spec fn last_status(self) -> Option<StatusLine> {
        self.last_response_status
    }

    /// True iff the registering loop's task runs.
    pub fn is_task_running(&self) -> (r: bool)
        ensures
            r == self.task_running(),
    {
        self.reg_task
    }

    /// A fresh controller: no loop running, nothing published.
    pub fn new() -> (r: Self)
        ensures
            !r.task_running(),
            r.last_status() is None,
    {
        Registrator { reg_task: false, last_response_status: None }
    }

    /// Builds the controller together with the URIs its registration needs,
    /// from the settings alone.
    pub fn build(settings: &Settings) -> (r: (Registrator, RegistrationUris))
        ensures
            !r.0.task_running(),
            r.0.last_status() is None,
            r.1.id@ == spec_sip_uri(
                spec_dec_u64(settings.extension_number as nat),
                settings.contact_ip@,
                None,
            ),
            r.1.contact@ == spec_sip_uri(
                spec_dec_u64(settings.extension_number as nat),
                settings.contact_ip@,
                Some(settings.sip_port),
            ),
            r.1.registrar@ == spec_sip_uri(
                spec_dec_u64(settings.extension_number as nat),
                settings.sip_registrar_ip@,
                Some(settings.sip_port),
            ),
    {
        let number = crate::text::format_u64(settings.extension_number);
        let contact_host = crate::parser::HostPort {
            host: vstd::slice::slice_to_vec(settings.contact_ip.as_slice()),
            port: None,
        };
        let id = crate::user_agent::make_sip_uri(number.as_slice(), &contact_host);
        let contact_host_port = crate::parser::HostPort {
            host: vstd::slice::slice_to_vec(settings.contact_ip.as_slice()),
            port: Some(settings.sip_port),
        };
        let contact = crate::user_agent::make_sip_uri(number.as_slice(), &contact_host_port);
        let registrar_host_port = crate::parser::HostPort {
            host: vstd::slice::slice_to_vec(settings.sip_registrar_ip.as_slice()),
            port: Some(settings.sip_port),
        };
        let registrar = crate::user_agent::make_sip_uri(number.as_slice(), &registrar_host_port);
        (Registrator::new(), RegistrationUris { id, contact, registrar })
    }

    /// Marks the registering loop started.  It must not already run: the
    /// old loop would have to be stopped first.
    pub fn run_registration(&mut self)
        requires
            !old(self).task_running(),
        ensures
            final(self).task_running(),
            final(self).last_status() == old(self).last_status(),
    {
        self.reg_task = true;
    }

    /// Stops the loop if it runs and clears the published status; without a
    /// running loop nothing changes.
    pub fn stop_registration(&mut self)
        ensures
            !final(self).task_running(),
            old(self).task_running() ==> final(self).last_status() is None,
            !old(self).task_running() ==> final(self).last_status() == old(self).last_status(),
    {
        if self.reg_task {
            self.reg_task = false;
            self.last_response_status = None;
        }
    }

    /// One turn of the registering loop after the transaction's final
    /// response: the status line is published, and the loop refreshes after
    /// expiry exactly on a 2xx, else retries after the pause.
    pub fn registration_step(&mut self, response: StatusLine) -> (r: RegStep)
        ensures
            final(self).last_status() == Some(response),
            final(self).task_running() == old(self).task_running(),
            r is RefreshAfterExpiry <==> spec_code_kind(response.code) is Success,
    {
        let is_success = match code_kind(response.code) {
            CodeKind::Success => true,
            _ => false,
        };
        self.last_response_status = Some(response);
        if is_success {
            RegStep::RefreshAfterExpiry
        } else {
            RegStep::RetryAfterDelay
        }
    }

    /// The answer `wait_for_registration_response` gives once a status line
    /// is published; while none is, the caller sleeps its poll pause and
    /// asks again.  The published line stays for later calls.
    pub fn wait_for_registration_response(&self) -> (r: Option<RegistrationStatus>)
        ensures
            match self.last_status() {
                None => r is None,
                Some(line) => r matches Some(st) && st.kind == spec_status_kind(line.code)
                    && match line.reason {
                    Some(v) => st.reason@ == v@,
                    None => st.reason@ == Seq::<u8>::empty(),
                },
            },
    {
        match &self.last_response_status {
            None => None,
            Some(line) => {
                let reason = match &line.reason {
                    Some(v) => vstd::slice::slice_to_vec(v.as_slice()),
                    None => Vec::new(),
                };
                let copied = StatusLine { code: line.code, reason: Some(reason) };
                let st = RegistrationStatus::from_status_line(copied);
                Some(st)
            },
        }
    }
}

} // verus!
