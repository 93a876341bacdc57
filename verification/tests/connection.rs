use redlike::connection::{
    encode_response, process_command, session_step, ProcessOutcome, Response, StepResult,
};
use redlike::error::ProtocolError;
use redlike::parse::{parse_line, Command};
use redlike::store::Store;

#[test]
fn eol_returns_none() {
    // End of stream: the session closes with no reply.
    let mut store = Store::new();
    let step = session_step(&mut store, None);
    assert_eq!(step, StepResult::Closed);
}

#[test]
fn blank_line_returns_noop() {
    let cmd = parse_line("\n").unwrap();
    assert_eq!(cmd, Command::NOOP);
}

#[test]
fn successful_read_ping() {
    let cmd = parse_line("PING\n").unwrap();
    assert_eq!(cmd, Command::PING);
}

#[test]
fn reject_bad_arity_ping() {
    let result = parse_line("PING extra words\n").unwrap_err();
    assert!(
        matches!(result, ProtocolError::WrongArity { command, given: 2, expected: 0 } if command == "PING")
    );
}

#[test]
fn successful_read_get() {
    let cmd = parse_line("get mykey\n").unwrap();
    assert_eq!(cmd, Command::GET { key: "mykey".to_string() });
}

#[test]
fn reject_bad_arity_get() {
    let result = parse_line("GET\n").unwrap_err();
    assert!(
        matches!(result, ProtocolError::WrongArity { command, given: 0, expected: 1 } if command == "GET")
    );
    let result = parse_line("GET too many\n").unwrap_err();
    assert!(
        matches!(result, ProtocolError::WrongArity { command, given: 2, expected: 1 } if command == "GET")
    );
}

#[test]
fn successful_read_set() {
    let cmd = parse_line("set mykey myvalue\n").unwrap();
    assert_eq!(
        cmd,
        Command::SET { key: "mykey".to_string(), value: "myvalue".to_string() }
    );
}

#[test]
fn reject_bad_arity_set() {
    let result = parse_line("set\n").unwrap_err();
    assert!(
        matches!(result, ProtocolError::WrongArity { command, given: 0, expected: 2 } if command == "SET")
    );
    let result = parse_line("set mykey\n").unwrap_err();
    assert!(
        matches!(result, ProtocolError::WrongArity { command, given: 1, expected: 2 } if command == "SET")
    );
    let result = parse_line("set mykey myvalue extra\n").unwrap_err();
    assert!(
        matches!(result, ProtocolError::WrongArity { command, given: 3, expected: 2 } if command == "SET")
    );
}

#[test]
fn successful_read_del() {
    let cmd = parse_line("del mykey\n").unwrap();
    assert_eq!(cmd, Command::DEL { key: "mykey".to_string() });
}

#[test]
fn reject_bad_arity_del() {
    let result = parse_line("del\n").unwrap_err();
    assert!(
        matches!(result, ProtocolError::WrongArity { command, given: 0, expected: 1 } if command == "DEL")
    );
    let result = parse_line("del too many\n").unwrap_err();
    assert!(
        matches!(result, ProtocolError::WrongArity { command, given: 2, expected: 1 } if command == "DEL")
    );
}

#[test]
fn successful_read_quit() {
    let cmd = parse_line("quit\n").unwrap();
    assert_eq!(cmd, Command::QUIT);
}

#[test]
fn reject_bad_arity_quit() {
    let result = parse_line("quit extra words\n").unwrap_err();
    assert!(
        matches!(result, ProtocolError::WrongArity { command, given: 2, expected: 0 } if command == "QUIT")
    );
}

#[test]
fn reject_unknown_commands() {
    let result = parse_line("FOO\n").unwrap_err();
    assert!(matches!(result, ProtocolError::UnknownCommand));
}

#[test]
fn responds_to_ping() {
    let mut store = Store::new();
    let response = process_command(&mut store, Command::PING);
    assert_eq!(
        response,
        ProcessOutcome::Respond(Response::Simple("PONG".to_string()))
    );
}

#[test]
fn noop_gives_noop_outcome() {
    let mut store = Store::new();
    let response = process_command(&mut store, Command::NOOP);
    assert_eq!(response, ProcessOutcome::Noop);
}

#[test]
fn set_sends_ok_response() {
    let mut store = Store::new();
    let response = process_command(
        &mut store,
        Command::SET { key: "mykey".into(), value: "myvalue".into() },
    );
    assert_eq!(response, ProcessOutcome::Respond(Response::Simple("OK".into())));
}

#[test]
fn set_then_get() {
    let mut store = Store::new();
    let response = process_command(
        &mut store,
        Command::SET { key: "mykey".into(), value: "myvalue".into() },
    );
    assert_eq!(response, ProcessOutcome::Respond(Response::Simple("OK".into())));
    let response = process_command(&mut store, Command::GET { key: "mykey".into() });
    assert_eq!(
        response,
        ProcessOutcome::Respond(Response::Simple("myvalue".into()))
    );
}

#[test]
fn get_nonexistent_key_returns_empty_string_response() {
    let mut store = Store::new();
    let response = process_command(&mut store, Command::GET { key: "mykey".into() });
    assert_eq!(response, ProcessOutcome::Respond(Response::Simple(String::new())));
}

#[test]
fn delete_existing_key() {
    let mut store = Store::new();
    let _ = process_command(
        &mut store,
        Command::SET { key: "mykey".into(), value: "myvalue".into() },
    );
    let response = process_command(&mut store, Command::DEL { key: "mykey".into() });
    assert_eq!(response, ProcessOutcome::Respond(Response::Simple("1".into())));
}

#[test]
fn delete_nonexistent_key() {
    let mut store = Store::new();
    let response = process_command(&mut store, Command::DEL { key: "mykey".into() });
    assert_eq!(response, ProcessOutcome::Respond(Response::Simple("0".into())));
}

#[test]
fn send_response() {
    let line = encode_response(Response::Simple("OK".into()));
    assert_eq!(line, "OK\n".to_string());
    let line = encode_response(Response::Error("Test".into()));
    assert_eq!(line, "ERR Test\n".to_string());
}
