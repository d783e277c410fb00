use sipacker::cli_input::{
    parse_command, trim_newline, AcceptCallParser, ArgumentsError, CommandParseOutcome,
    CommandParserError, DeclineCallParser, MakeCallParser, RegisterParser, TerminateCallParser,
    UnregisterParser,
};
use sipacker::command::{Command, PasswordSpec};
use sipacker::parser::{parse_host_port, FieldError, Parser};

fn fields(names: &[&str]) -> Vec<Vec<u8>> {
    names.iter().map(|n| n.as_bytes().to_vec()).collect()
}

#[test]
fn parse_field_splits_at_single_equals() {
    let (name, value) = Parser::parse_field(b"user=2503").unwrap();
    assert_eq!(name, b"user".to_vec());
    assert_eq!(value, b"2503".to_vec());
}

#[test]
fn parse_field_allows_empty_value() {
    let (name, value) = Parser::parse_field(b"password=").unwrap();
    assert_eq!(name, b"password".to_vec());
    assert_eq!(value, Vec::<u8>::new());
}

#[test]
fn parse_field_rejects_missing_value() {
    assert_eq!(Parser::parse_field(b"user"), Err(FieldError::ValueMissing));
}

#[test]
fn parse_field_rejects_two_equals() {
    assert_eq!(Parser::parse_field(b"user=a=b"), Err(FieldError::TooManyEquals));
}

#[test]
fn parser_collects_declared_fields() {
    let p = Parser::new(fields(&["user", "registrar"]));
    let m = p.parse(b"  user=2503   registrar=10.0.0.1:5060 ").unwrap();
    assert_eq!(m.get(b"user").unwrap(), &b"2503".to_vec());
    assert_eq!(m.get(b"registrar").unwrap(), &b"10.0.0.1:5060".to_vec());
    assert!(m.get(b"password").is_none());
}

#[test]
fn parser_last_value_wins() {
    let p = Parser::new(fields(&["user"]));
    let m = p.parse(b"user=1 user=2").unwrap();
    assert_eq!(m.get(b"user").unwrap(), &b"2".to_vec());
}

#[test]
fn parser_rejects_unknown_field() {
    let p = Parser::new(fields(&["user"]));
    assert!(matches!(p.parse(b"user=1 other=2"), Err(FieldError::UnknownField)));
}

#[test]
fn host_port_without_port() {
    let hp = parse_host_port(b"example.com").unwrap();
    assert_eq!(hp.host, b"example.com".to_vec());
    assert_eq!(hp.port, None);
}

#[test]
fn host_port_with_port() {
    let hp = parse_host_port(b"127.0.0.1:5060").unwrap();
    assert_eq!(hp.host, b"127.0.0.1".to_vec());
    assert_eq!(hp.port, Some(5060));
}

#[test]
fn host_port_rejects_bad_port() {
    assert!(parse_host_port(b"10.0.0.1:port").is_none());
    assert!(parse_host_port(b"10.0.0.1:70000").is_none());
    assert!(parse_host_port(b"10.0.0.1:").is_none());
    assert!(parse_host_port(b"").is_none());
    assert!(parse_host_port(b"bad host:5060").is_none());
}

#[test]
fn register_parser_full_line() {
    let p = RegisterParser::new();
    let cmd = p
        .parse(b"register user=2502 password=abc registrar=127.0.0.1:5060")
        .unwrap();
    match cmd {
        Command::Register(reg) => {
            assert_eq!(reg.user_name, b"2502".to_vec());
            match reg.credential {
                PasswordSpec::Literal(v) => assert_eq!(v, b"abc".to_vec()),
                _ => panic!("expected a literal password"),
            }
            assert_eq!(reg.registrar_host.host, b"127.0.0.1".to_vec());
            assert_eq!(reg.registrar_host.port, Some(5060));
        }
        _ => panic!("expected a register command"),
    }
}

#[test]
fn register_parser_env_password() {
    let p = RegisterParser::new();
    let cmd = p
        .parse(b"register user=2502 password=env:SECRET_VAR registrar=pbx.local")
        .unwrap();
    match cmd {
        Command::Register(reg) => match reg.credential {
            PasswordSpec::Env(name) => assert_eq!(name, b"SECRET_VAR".to_vec()),
            _ => panic!("expected an env password"),
        },
        _ => panic!("expected a register command"),
    }
}

#[test]
fn register_parser_password_defaults_empty() {
    let p = RegisterParser::new();
    let cmd = p.parse(b"register user=2502 registrar=pbx.local").unwrap();
    match cmd {
        Command::Register(reg) => match reg.credential {
            PasswordSpec::Literal(v) => assert_eq!(v, Vec::<u8>::new()),
            _ => panic!("expected a literal password"),
        },
        _ => panic!("expected a register command"),
    }
}

#[test]
fn register_parser_requires_user() {
    let p = RegisterParser::new();
    assert!(matches!(
        p.parse(b"register registrar=pbx.local"),
        Err(CommandParserError::Arguments(ArgumentsError::MissingUser))
    ));
}

#[test]
fn register_parser_requires_registrar() {
    let p = RegisterParser::new();
    assert!(matches!(
        p.parse(b"register user=2502"),
        Err(CommandParserError::Arguments(ArgumentsError::MissingRegistrar))
    ));
}

#[test]
fn register_parser_rejects_bad_registrar() {
    let p = RegisterParser::new();
    assert!(matches!(
        p.parse(b"register user=2502 registrar=pbx:host:5060"),
        Err(CommandParserError::Arguments(ArgumentsError::BadRegistrar))
    ));
}

#[test]
fn register_parser_reports_field_errors() {
    let p = RegisterParser::new();
    assert!(matches!(
        p.parse(b"register foo"),
        Err(CommandParserError::Arguments(ArgumentsError::Fields(FieldError::ValueMissing)))
    ));
}

#[test]
fn host_port_accepts_largest_port() {
    let hp = parse_host_port(b"10.0.0.1:65535").unwrap();
    assert_eq!(hp.port, Some(65535));
    assert!(parse_host_port(b"10.0.0.1:65536").is_none());
}

#[test]
fn register_parser_needs_its_keyword() {
    let p = RegisterParser::new();
    assert!(matches!(p.parse(b"call user=2502"), Err(CommandParserError::Command)));
}

#[test]
fn simple_parsers_match_their_keywords() {
    assert!(matches!(
        UnregisterParser::new().parse(b"unregister"),
        Ok(Command::Unregister(_))
    ));
    assert!(matches!(
        AcceptCallParser::new().parse(b"accept call"),
        Ok(Command::AcceptCall(_))
    ));
    assert!(matches!(
        DeclineCallParser::new().parse(b"decline call"),
        Ok(Command::DeclineCall(_))
    ));
    assert!(matches!(
        TerminateCallParser::new().parse(b"terminate call"),
        Ok(Command::TerminateCall(_))
    ));
    assert!(matches!(
        UnregisterParser::new().parse(b"register user=1"),
        Err(CommandParserError::Command)
    ));
}

#[test]
fn make_call_parser_reads_user() {
    let cmd = MakeCallParser::new().parse(b"call user=2503").unwrap();
    match cmd {
        Command::MakeCall(mc) => assert_eq!(mc.target_user_name, b"2503".to_vec()),
        _ => panic!("expected a call command"),
    }
    assert!(matches!(
        MakeCallParser::new().parse(b"call"),
        Err(CommandParserError::Arguments(ArgumentsError::MissingUser))
    ));
}

#[test]
fn trim_newline_cuts_crlf() {
    let mut s = b"register\r\n".to_vec();
    trim_newline(&mut s);
    assert_eq!(s, b"register".to_vec());
    let mut s2 = b"register\n".to_vec();
    trim_newline(&mut s2);
    assert_eq!(s2, b"register".to_vec());
    let mut s3 = b"register".to_vec();
    trim_newline(&mut s3);
    assert_eq!(s3, b"register".to_vec());
    // a bare carriage return is no line end and stays
    let mut s4 = b"register\r".to_vec();
    trim_newline(&mut s4);
    assert_eq!(s4, b"register\r".to_vec());
    // only one newline goes
    let mut s5 = b"a\n\n".to_vec();
    trim_newline(&mut s5);
    assert_eq!(s5, b"a\n".to_vec());
}

#[test]
fn parse_command_dispatches() {
    assert!(matches!(parse_command(b"help"), CommandParseOutcome::Help));
    assert!(matches!(
        parse_command(b""),
        CommandParseOutcome::Parsed(Command::StopApp(_))
    ));
    assert!(matches!(
        parse_command(b"call user=2503\n"),
        CommandParseOutcome::Parsed(Command::MakeCall(_))
    ));
    assert!(matches!(
        parse_command(b"terminate call\r\n"),
        CommandParseOutcome::Parsed(Command::TerminateCall(_))
    ));
    assert!(matches!(
        parse_command(b"whatever else"),
        CommandParseOutcome::Unknown
    ));
    assert!(matches!(
        parse_command(b"register user=2502\n"),
        CommandParseOutcome::Invalid(ArgumentsError::MissingRegistrar)
    ));
}
