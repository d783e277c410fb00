//! The operator's commands, as plain data: what the command line parses into
//! and what the application loop dispatches on.

use vstd::prelude::*;
use crate::parser::HostPort;
use crate::text::{find_from, spec_starts_with};
use crate::words::env_prefix_kw;

verus! {

/// How the password of a register command was given: directly, or as the
/// name of an environment variable to read.
#[derive(Debug)]
pub enum PasswordSpec {
    Literal(Vec<u8>),
    Env(Vec<u8>),
}

/// The variable name in an `env:` password: the bytes after the marker up
/// to the next `:`, or to the end.
pub open spec fn spec_password_env_name(raw: Seq<u8>) -> Seq<u8> {
    let rest = raw.skip(4);
    match find_from(rest, 58, 0) {
        Some(q) => rest.take(q),
        None => rest,
    }
}

/// True iff `cred` is the reading of the raw `password=` value `raw`: an
/// `env:` value names a variable, anything else is the password itself.
pub open spec fn password_matches(cred: PasswordSpec, raw: Seq<u8>) -> bool {
    if spec_starts_with(raw, env_prefix_kw()) {
        cred matches PasswordSpec::Env(nm) && nm@ == spec_password_env_name(raw)
    } else {
        cred matches PasswordSpec::Literal(v) && v@ == raw
    }
}

/// Reads a raw `password=` value, as `password_matches` lays it down.
pub fn parse_password(raw: &[u8]) -> (r: PasswordSpec)
    ensures
        password_matches(r, raw@),
{
    let env_prefix = crate::words::env_prefix_kw_bytes();
    if crate::text::starts_with(raw, env_prefix.as_slice()) {
        let n = raw.len();
        assert(n >= 4);
        let rest = vstd::slice::slice_subrange(raw, 4, n);
        proof {
            assert(rest@ =~= raw@.skip(4));
        }
        match crate::text::find_byte(rest, 58) {
            Some(q) => {
                proof {
                    crate::parser::lemma_find_found(rest@, 58, 0);
                }
                let name = vstd::slice::slice_subrange(rest, 0, q);
                proof {
                    assert(name@ =~= rest@.take(q as int));
                }
                PasswordSpec::Env(vstd::slice::slice_to_vec(name))
            },
            None => PasswordSpec::Env(vstd::slice::slice_to_vec(rest)),
        }
    } else {
        PasswordSpec::Literal(vstd::slice::slice_to_vec(raw))
    }
}

/// Bind to a registrar: who registers, with what secret, and where.
#[derive(Debug)]
pub struct Register {
    pub user_name: Vec<u8>,
    pub credential: PasswordSpec,
    pub registrar_host: HostPort,
}

impl Register {
    pub fn new(user_name: Vec<u8>, credential: PasswordSpec, registrar_host: HostPort) -> (r: Self)
        ensures
            r.user_name == user_name,
            r.credential == credential,
            r.registrar_host == registrar_host,
    {
        Self { user_name, credential, registrar_host }
    }
}

/// Drop the current registrar binding.
#[derive(Debug)]
pub struct Unregister;

impl Unregister {
    pub fn new() -> (r: Self) {
        Self {}
    }
}

/// Call another extension through the current registrar.
#[derive(Debug)]
pub struct MakeCall {
    pub target_user_name: Vec<u8>,
}

impl MakeCall {
    pub fn new(target_user_name: Vec<u8>) -> (r: Self)
        ensures
            r.target_user_name == target_user_name,
    {
        Self { target_user_name }
    }
}

/// Answer the pending incoming call.
#[derive(Debug)]
pub struct AcceptCall;

impl AcceptCall {
    pub fn new() -> (r: Self) {
        Self {}
    }
}

/// Refuse the pending incoming call.
#[derive(Debug)]
pub struct DeclineCall;

impl DeclineCall {
    pub fn new() -> (r: Self) {
        Self {}
    }
}

/// Hang up the active call.
#[derive(Debug)]
pub struct TerminateCall;

impl TerminateCall {
    pub fn new() -> (r: Self) {
        Self {}
    }
}

/// Leave the application.
#[derive(Debug)]
pub struct StopApp;

impl StopApp {
    pub fn new() -> (r: Self) {
        Self {}
    }
}

/// Everything the operator can ask for.
#[derive(Debug)]
pub enum Command {
    Register(Register),
    Unregister(Unregister),
    MakeCall(MakeCall),
    AcceptCall(AcceptCall),
    DeclineCall(DeclineCall),
    TerminateCall(TerminateCall),
    StopApp(StopApp),
}

} // verus!
