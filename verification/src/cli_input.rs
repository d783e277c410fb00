//! The line grammar of the operator's command language: one parser per
//! command, each deciding first whether the line names it and then reading
//! its `key=value` arguments.

use vstd::prelude::*;
use crate::command::{
    password_matches, parse_password, AcceptCall, Command, DeclineCall, MakeCall, Register,
    StopApp, TerminateCall, Unregister,
};
use crate::parser::{
    lookup, parse_host_port, spec_host_port, spec_parse, FieldError, Parser,
};
use crate::text::spec_starts_with;
use crate::words::{
    accept_call_kw, accept_call_kw_bytes, call_kw, call_kw_bytes, decline_call_kw,
    decline_call_kw_bytes, help_kw, help_kw_bytes, password_kw, password_kw_bytes, register_kw,
    register_kw_bytes, registrar_kw, registrar_kw_bytes, terminate_call_kw,
    terminate_call_kw_bytes, unregister_kw, unregister_kw_bytes, user_kw, user_kw_bytes,
};

verus! {

/// Why a command's arguments were refused.
#[derive(Debug, PartialEq, Eq, Structural, Clone, Copy)]
pub enum ArgumentsError {
    /// The `key=value` grammar itself was broken.
    Fields(FieldError),
    /// The command needs a `user=` field.
    MissingUser,
    /// The command needs a `registrar=` field.
    MissingRegistrar,
    /// The `registrar=` value is no `host[:port]`.
    BadRegistrar,
}

/// Why a parser did not return a command: the line names another command,
/// or its arguments are bad.
#[derive(Debug, PartialEq, Eq, Structural, Clone, Copy)]
pub enum CommandParserError {
    Command,
    Arguments(ArgumentsError),
}

/// The fields the register command declares.
pub open spec fn register_fields() -> Seq<Seq<u8>> {
    seq![user_kw(), password_kw(), registrar_kw()]
}

/// The fields the call command declares.
pub open spec fn make_call_fields() -> Seq<Seq<u8>> {
    seq![user_kw()]
}

/// The raw password among parsed fields: the `password=` value, or empty.
pub open spec fn password_raw_of(es: Seq<(Seq<u8>, Seq<u8>)>) -> Seq<u8> {
    match lookup(es, password_kw()) {
        Some(p) => p,
        None => Seq::empty(),
    }
}

/// What a register argument line amounts to: the user, the raw password,
/// the registrar host and port — or the error, the first one found.
pub open spec fn spec_register_verdict(fields: Seq<Seq<u8>>, rest: Seq<u8>) -> Result<
    (Seq<u8>, Seq<u8>, Seq<u8>, Option<u16>),
    ArgumentsError,
> {
    match spec_parse(fields, rest) {
        Err(e) => Err(ArgumentsError::Fields(e)),
        Ok(es) => match lookup(es, user_kw()) {
            None => Err(ArgumentsError::MissingUser),
            Some(u) => match lookup(es, registrar_kw()) {
                None => Err(ArgumentsError::MissingRegistrar),
                Some(rg) => match spec_host_port(rg) {
                    None => Err(ArgumentsError::BadRegistrar),
                    Some((h, prt)) => Ok((u, password_raw_of(es), h, prt)),
                },
            },
        },
    }
}

/// True iff `c` is the register command a good verdict describes.
pub open spec fn register_command_matches(
    u: Seq<u8>,
    praw: Seq<u8>,
    h: Seq<u8>,
    prt: Option<u16>,
    c: Command,
) -> bool {
    c matches Command::Register(reg) && reg.user_name@ == u && password_matches(
        reg.credential,
        praw,
    ) && reg.registrar_host.host@ == h && reg.registrar_host.port == prt
}

/// What a call argument line amounts to: the target user, or the error.
pub open spec fn spec_make_call_verdict(fields: Seq<Seq<u8>>, rest: Seq<u8>) -> Result<
    Seq<u8>,
    ArgumentsError,
> {
    match spec_parse(fields, rest) {
        Err(e) => Err(ArgumentsError::Fields(e)),
        Ok(es) => match lookup(es, user_kw()) {
            None => Err(ArgumentsError::MissingUser),
            Some(u) => Ok(u),
        },
    }
}

/// Parses `register user=.. [password=..] registrar=..`.
pub struct RegisterParser {
    parser: Parser,
}

impl RegisterParser {
    /// The declared argument fields.
    pub closed spec fn fields_view(self) -> Seq<Seq<u8>> {
        self.parser.fields_view()
    }

    pub fn new() -> (r: Self)
        ensures
            r.fields_view() == register_fields(),
    {
        let mut fields: Vec<Vec<u8>> = Vec::new();
        fields.push(user_kw_bytes());
        fields.push(password_kw_bytes());
        fields.push(registrar_kw_bytes());
        let parser = Parser::new(fields);
        let r = Self { parser };
        proof {
            assert(r.fields_view() =~= register_fields());
        }
        r
    }

    /// Refuses a line that does not begin `register`; otherwise reads the
    /// arguments as `spec_register_verdict` lays it down.
    pub fn parse(&self, line: &[u8]) -> (r: Result<Command, CommandParserError>)
        ensures
            !spec_starts_with(line@, register_kw()) ==> r == Err::<Command, _>(
                CommandParserError::Command,
            ),
            spec_starts_with(line@, register_kw()) ==> match spec_register_verdict(
                self.fields_view(),
                line@.skip(8),
            ) {
                Err(e) => r == Err::<Command, _>(CommandParserError::Arguments(e)),
                Ok((u, praw, h, prt)) => r matches Ok(c) && register_command_matches(
                    u,
                    praw,
                    h,
                    prt,
                    c,
                ),
            },
    {
        let kw = register_kw_bytes();
        if !crate::text::starts_with(line, kw.as_slice()) {
            return Err(CommandParserError::Command);
        }
        let n = line.len();
        assert(n >= 8);
        let rest = vstd::slice::slice_subrange(line, 8, n);
        proof {
            assert(rest@ =~= line@.skip(8));
        }
        let map = match self.parser.parse(rest) {
            Err(e) => {
                return Err(CommandParserError::Arguments(ArgumentsError::Fields(e)));
            },
            Ok(m) => m,
        };
        let user_key = user_kw_bytes();
        let user = match map.get(user_key.as_slice()) {
            None => {
                return Err(CommandParserError::Arguments(ArgumentsError::MissingUser));
            },
            Some(u) => vstd::slice::slice_to_vec(u.as_slice()),
        };
        let registrar_key = registrar_kw_bytes();
        let registrar = match map.get(registrar_key.as_slice()) {
            None => {
                return Err(CommandParserError::Arguments(ArgumentsError::MissingRegistrar));
            },
            Some(rg) => vstd::slice::slice_to_vec(rg.as_slice()),
        };
        let host = match parse_host_port(registrar.as_slice()) {
            None => {
                return Err(CommandParserError::Arguments(ArgumentsError::BadRegistrar));
            },
            Some(hp) => hp,
        };
        let password_key = password_kw_bytes();
        let praw: Vec<u8> = match map.get(password_key.as_slice()) {
            Some(p) => vstd::slice::slice_to_vec(p.as_slice()),
            None => Vec::new(),
        };
        proof {
            if lookup(map@, password_kw()) is None {
                assert(praw@ =~= password_raw_of(map@));
            }
        }
        let credential = parse_password(praw.as_slice());
        let cmd = Register::new(user, credential, host);
        Ok(Command::Register(cmd))
    }
}

/// Parses `unregister`.
pub struct UnregisterParser;

impl UnregisterParser {
    pub fn new() -> (r: Self) {
        Self {}
    }

    pub fn parse(&self, line: &[u8]) -> (r: Result<Command, CommandParserError>)
        ensures
            spec_starts_with(line@, unregister_kw()) ==> r matches Ok(Command::Unregister(_)),
            !spec_starts_with(line@, unregister_kw()) ==> r == Err::<Command, _>(
                CommandParserError::Command,
            ),
    {
        let kw = unregister_kw_bytes();
        if crate::text::starts_with(line, kw.as_slice()) {
            Ok(Command::Unregister(Unregister::new()))
        } else {
            Err(CommandParserError::Command)
        }
    }
}

/// Parses `call user=..`.
pub struct MakeCallParser {
    parser: Parser,
}

impl MakeCallParser {
    /// The declared argument fields.
    pub closed spec fn fields_view(self) -> Seq<Seq<u8>> {
        self.parser.fields_view()
    }

    pub fn new() -> (r: Self)
        ensures
            r.fields_view() == make_call_fields(),
    {
        let mut fields: Vec<Vec<u8>> = Vec::new();
        fields.push(user_kw_bytes());
        let parser = Parser::new(fields);
        let r = Self { parser };
        proof {
            assert(r.fields_view() =~= make_call_fields());
        }
        r
    }

    /// Refuses a line that does not begin `call`; otherwise reads the
    /// arguments as `spec_make_call_verdict` lays it down.
    pub fn parse(&self, line: &[u8]) -> (r: Result<Command, CommandParserError>)
        ensures
            !spec_starts_with(line@, call_kw()) ==> r == Err::<Command, _>(
                CommandParserError::Command,
            ),
            spec_starts_with(line@, call_kw()) ==> match spec_make_call_verdict(
                self.fields_view(),
                line@.skip(4),
            ) {
                Err(e) => r == Err::<Command, _>(CommandParserError::Arguments(e)),
                Ok(u) => r matches Ok(Command::MakeCall(mc)) && mc.target_user_name@ == u,
            },
    {
        let kw = call_kw_bytes();
        if !crate::text::starts_with(line, kw.as_slice()) {
            return Err(CommandParserError::Command);
        }
        let n = line.len();
        assert(n >= 4);
        let rest = vstd::slice::slice_subrange(line, 4, n);
        proof {
            assert(rest@ =~= line@.skip(4));
        }
        let map = match self.parser.parse(rest) {
            Err(e) => {
                return Err(CommandParserError::Arguments(ArgumentsError::Fields(e)));
            },
            Ok(m) => m,
        };
        let user_key = user_kw_bytes();
        let user = match map.get(user_key.as_slice()) {
            None => {
                return Err(CommandParserError::Arguments(ArgumentsError::MissingUser));
            },
            Some(u) => vstd::slice::slice_to_vec(u.as_slice()),
        };
        Ok(Command::MakeCall(MakeCall::new(user)))
    }
}

/// Parses `accept call`.
pub struct AcceptCallParser;

impl AcceptCallParser {
    pub fn new() -> (r: Self) {
        Self {}
    }

    pub fn parse(&self, line: &[u8]) -> (r: Result<Command, CommandParserError>)
        ensures
            spec_starts_with(line@, accept_call_kw()) ==> r matches Ok(Command::AcceptCall(_)),
            !spec_starts_with(line@, accept_call_kw()) ==> r == Err::<Command, _>(
                CommandParserError::Command,
            ),
    {
        let kw = accept_call_kw_bytes();
        if crate::text::starts_with(line, kw.as_slice()) {
            Ok(Command::AcceptCall(AcceptCall::new()))
        } else {
            Err(CommandParserError::Command)
        }
    }
}

/// Parses `decline call`.
pub struct DeclineCallParser;

impl DeclineCallParser {
    pub fn new() -> (r: Self) {
        Self {}
    }

    pub fn parse(&self, line: &[u8]) -> (r: Result<Command, CommandParserError>)
        ensures
            spec_starts_with(line@, decline_call_kw()) ==> r matches Ok(Command::DeclineCall(_)),
            !spec_starts_with(line@, decline_call_kw()) ==> r == Err::<Command, _>(
                CommandParserError::Command,
            ),
    {
        let kw = decline_call_kw_bytes();
        if crate::text::starts_with(line, kw.as_slice()) {
            Ok(Command::DeclineCall(DeclineCall::new()))
        } else {
            Err(CommandParserError::Command)
        }
    }
}

/// Parses `terminate call`.
pub struct TerminateCallParser;

impl TerminateCallParser {
    pub fn new() -> (r: Self) {
        Self {}
    }

    pub fn parse(&self, line: &[u8]) -> (r: Result<Command, CommandParserError>)
        ensures
            spec_starts_with(line@, terminate_call_kw()) ==> r matches Ok(
                Command::TerminateCall(_),
            ),
            !spec_starts_with(line@, terminate_call_kw()) ==> r == Err::<Command, _>(
                CommandParserError::Command,
            ),
    {
        let kw = terminate_call_kw_bytes();
        if crate::text::starts_with(line, kw.as_slice()) {
            Ok(Command::TerminateCall(TerminateCall::new()))
        } else {
            Err(CommandParserError::Command)
        }
    }
}

/// A line with its trailing newline cut off: one final `\n` goes, and a
/// `\r` right before it goes with it.  A `\r` with no `\n` after it is no
/// line end and stays.
pub open spec fn spec_trim_newline(s: Seq<u8>) -> Seq<u8> {
    if s.len() > 0 && s.last() == 10 {
        let s1 = s.drop_last();
        if s1.len() > 0 && s1.last() == 13 {
            s1.drop_last()
        } else {
            s1
        }
    } else {
        s
    }
}

/// Cuts a trailing `\n`, and the `\r` before it when there is one, off the
/// line.
pub fn trim_newline(s: &mut Vec<u8>)
    ensures
        final(s)@ == spec_trim_newline(old(s)@),
{
    if s.len() > 0 {
        let last_idx = s.len() - 1;
        if s[last_idx] == 10 {
            s.pop();
            if s.len() > 0 {
                let last_idx2 = s.len() - 1;
                if s[last_idx2] == 13 {
                    s.pop();
                }
            }
        }
    }
}

/// What one line of input asks for.
#[derive(Debug)]
pub enum CommandParseOutcome {
    /// A well-formed command.
    Parsed(Command),
    /// The help text was asked for.
    Help,
    /// No command matched the line.
    Unknown,
    /// A command matched but its arguments were bad.
    Invalid(ArgumentsError),
}

/// True iff `r` is the outcome the command grammar assigns to `line`: help
/// first, the empty line stops the application, and otherwise the trimmed
/// line goes to the parsers in their fixed order.
pub open spec fn parse_command_matches(line: Seq<u8>, r: CommandParseOutcome) -> bool {
    if spec_starts_with(line, help_kw()) {
        r is Help
    } else if line.len() == 0 {
        r matches CommandParseOutcome::Parsed(Command::StopApp(_))
    } else {
        let t = spec_trim_newline(line);
        if spec_starts_with(t, register_kw()) {
            match spec_register_verdict(register_fields(), t.skip(8)) {
                Err(e) => r == CommandParseOutcome::Invalid(e),
                Ok((u, praw, h, prt)) => r matches CommandParseOutcome::Parsed(c)
                    && register_command_matches(u, praw, h, prt, c),
            }
        } else if spec_starts_with(t, unregister_kw()) {
            r matches CommandParseOutcome::Parsed(Command::Unregister(_))
        } else if spec_starts_with(t, call_kw()) {
            match spec_make_call_verdict(make_call_fields(), t.skip(4)) {
                Err(e) => r == CommandParseOutcome::Invalid(e),
                Ok(u) => r matches CommandParseOutcome::Parsed(Command::MakeCall(mc))
                    && mc.target_user_name@ == u,
            }
        } else if spec_starts_with(t, accept_call_kw()) {
            r matches CommandParseOutcome::Parsed(Command::AcceptCall(_))
        } else if spec_starts_with(t, decline_call_kw()) {
            r matches CommandParseOutcome::Parsed(Command::DeclineCall(_))
        } else if spec_starts_with(t, terminate_call_kw()) {
            r matches CommandParseOutcome::Parsed(Command::TerminateCall(_))
        } else {
            r is Unknown
        }
    }
}

/// Reads one input line: `help` and the empty line are answered directly,
/// anything else is trimmed and handed to the parsers in order; the first
/// parser whose command the line names decides, and an argument error stops
/// the search.
pub fn parse_command(line: &[u8]) -> (r: CommandParseOutcome)
    ensures
        parse_command_matches(line@, r),
{
    let help = help_kw_bytes();
    if crate::text::starts_with(line, help.as_slice()) {
        return CommandParseOutcome::Help;
    }
    if line.len() == 0 {
        return CommandParseOutcome::Parsed(Command::StopApp(StopApp::new()));
    }
    let mut trimmed: Vec<u8> = vstd::slice::slice_to_vec(line);
    trim_newline(&mut trimmed);
    let t = trimmed.as_slice();

    match RegisterParser::new().parse(t) {
        Ok(c) => {
            return CommandParseOutcome::Parsed(c);
        },
        Err(CommandParserError::Arguments(e)) => {
            return CommandParseOutcome::Invalid(e);
        },
        Err(CommandParserError::Command) => {},
    }
    match UnregisterParser::new().parse(t) {
        Ok(c) => {
            return CommandParseOutcome::Parsed(c);
        },
        Err(CommandParserError::Arguments(e)) => {
            return CommandParseOutcome::Invalid(e);
        },
        Err(CommandParserError::Command) => {},
    }
    match MakeCallParser::new().parse(t) {
        Ok(c) => {
            return CommandParseOutcome::Parsed(c);
        },
        Err(CommandParserError::Arguments(e)) => {
            return CommandParseOutcome::Invalid(e);
        },
        Err(CommandParserError::Command) => {},
    }
    match AcceptCallParser::new().parse(t) {
        Ok(c) => {
            return CommandParseOutcome::Parsed(c);
        },
        Err(CommandParserError::Arguments(e)) => {
            return CommandParseOutcome::Invalid(e);
        },
        Err(CommandParserError::Command) => {},
    }
    match DeclineCallParser::new().parse(t) {
        Ok(c) => {
            return CommandParseOutcome::Parsed(c);
        },
        Err(CommandParserError::Arguments(e)) => {
            return CommandParseOutcome::Invalid(e);
        },
        Err(CommandParserError::Command) => {},
    }
    match TerminateCallParser::new().parse(t) {
        Ok(c) => {
            return CommandParseOutcome::Parsed(c);
        },
        Err(CommandParserError::Arguments(e)) => {
            return CommandParseOutcome::Invalid(e);
        },
        Err(CommandParserError::Command) => {},
    }
    CommandParseOutcome::Unknown
}

} // verus!
