use redlike::connection::session_step;
use redlike::connection::StepResult;
use redlike::parse::{parse_line, tokenize, Command};
use redlike::store::Store;

fn reply(step: StepResult) -> String {
    match step {
        StepResult::Reply(line) => line,
        other => panic!("expected a reply line, got {:?}", other),
    }
}

#[test]
fn scenario_ping() {
    let mut store = Store::new();
    let step = session_step(&mut store, Some("PING\n"));
    assert_eq!(reply(step), "PONG\n");
}

#[test]
fn scenario_set_then_get() {
    let mut store = Store::new();
    let step = session_step(&mut store, Some("SET a 1\n"));
    assert_eq!(reply(step), "OK\n");
    let step = session_step(&mut store, Some("GET a\n"));
    assert_eq!(reply(step), "1\n");
}

#[test]
fn scenario_get_missing_is_empty_line() {
    let mut store = Store::new();
    let step = session_step(&mut store, Some("GET missing\n"));
    assert_eq!(reply(step), "\n");
}

#[test]
fn scenario_del_missing() {
    let mut store = Store::new();
    let step = session_step(&mut store, Some("DEL missing\n"));
    assert_eq!(reply(step), "0\n");
}

#[test]
fn scenario_unknown_command_keeps_connection_open() {
    let mut store = Store::new();
    let step = session_step(&mut store, Some("FOO\n"));
    assert_eq!(reply(step), "ERR Unknown Command\n");
    // The connection stays open: the next command still gets its reply.
    let step = session_step(&mut store, Some("PING\n"));
    assert_eq!(reply(step), "PONG\n");
}

#[test]
fn scenario_quit_closes_without_reply() {
    let mut store = Store::new();
    let step = session_step(&mut store, Some("QUIT\n"));
    assert_eq!(step, StepResult::Closed);
}

#[test]
fn scenario_wrong_arity_reply_line() {
    let mut store = Store::new();
    let step = session_step(&mut store, Some("PING x\n"));
    assert_eq!(reply(step), "ERR Wrong number or arguments\n");
    let step = session_step(&mut store, Some("SET a\n"));
    assert_eq!(reply(step), "ERR Wrong number or arguments\n");
    let step = session_step(&mut store, Some("GET\n"));
    assert_eq!(reply(step), "ERR Wrong number or arguments\n");
}

#[test]
fn scenario_blank_line_is_silent() {
    let mut store = Store::new();
    let step = session_step(&mut store, Some("\n"));
    assert_eq!(step, StepResult::Silent);
    let step = session_step(&mut store, Some("   \t  \n"));
    assert_eq!(step, StepResult::Silent);
}

#[test]
fn command_names_are_case_insensitive() {
    let lower = parse_line("get key\n").unwrap();
    let upper = parse_line("GET key\n").unwrap();
    let mixed = parse_line("Get key\n").unwrap();
    assert_eq!(lower, upper);
    assert_eq!(lower, mixed);
    assert_eq!(lower, Command::GET { key: "key".to_string() });
}

#[test]
fn keys_are_case_sensitive() {
    assert_ne!(
        parse_line("GET Key\n").unwrap(),
        parse_line("GET key\n").unwrap()
    );
    let mut store = Store::new();
    let step = session_step(&mut store, Some("SET key v\n"));
    assert_eq!(reply(step), "OK\n");
    // `Key` is a different key than `key`: absent, so the reply is empty.
    let step = session_step(&mut store, Some("GET Key\n"));
    assert_eq!(reply(step), "\n");
}

#[test]
fn extra_whitespace_is_collapsed() {
    let cmd = parse_line("  set   mykey    myvalue  \n").unwrap();
    assert_eq!(
        cmd,
        Command::SET { key: "mykey".to_string(), value: "myvalue".to_string() }
    );
}

#[test]
fn tokenize_splits_on_whitespace_runs() {
    assert_eq!(tokenize("a b"), vec!["a".to_string(), "b".to_string()]);
    assert_eq!(tokenize("  a \t b \r\n"), vec!["a".to_string(), "b".to_string()]);
    assert_eq!(tokenize(""), Vec::<String>::new());
    assert_eq!(tokenize(" \t \n"), Vec::<String>::new());
}

#[test]
fn store_set_returns_prior_value() {
    let mut store = Store::new();
    assert_eq!(store.set("k".to_string(), "v1".to_string()), None);
    assert_eq!(store.set("k".to_string(), "v2".to_string()), Some("v1".to_string()));
    assert_eq!(store.get("k"), Some("v2".to_string()));
}

#[test]
fn store_get_absent_is_none() {
    let store = Store::new();
    assert_eq!(store.get("missing"), None);
}

#[test]
fn store_delete_returns_removed_value() {
    let mut store = Store::new();
    assert_eq!(store.delete("k"), None);
    store.set("k".to_string(), "v".to_string());
    assert_eq!(store.delete("k"), Some("v".to_string()));
    assert_eq!(store.delete("k"), None);
    assert_eq!(store.get("k"), None);
}

#[test]
fn set_is_idempotent_observably() {
    let mut once = Store::new();
    once.set("k".to_string(), "v".to_string());
    let mut many = Store::new();
    for _ in 0..5 {
        many.set("k".to_string(), "v".to_string());
    }
    assert_eq!(once.get("k"), many.get("k"));
    assert_eq!(many.get("k"), Some("v".to_string()));
}

#[test]
fn sets_on_distinct_keys_are_independent() {
    // Either serialization of two sets on distinct keys leaves both values
    // observable.
    let mut ab = Store::new();
    ab.set("k1".to_string(), "v1".to_string());
    ab.set("k2".to_string(), "v2".to_string());
    let mut ba = Store::new();
    ba.set("k2".to_string(), "v2".to_string());
    ba.set("k1".to_string(), "v1".to_string());
    for store in [&ab, &ba] {
        assert_eq!(store.get("k1"), Some("v1".to_string()));
        assert_eq!(store.get("k2"), Some("v2".to_string()));
    }
}

#[test]
fn del_after_set_deletes_exactly_once() {
    let mut store = Store::new();
    let _ = session_step(&mut store, Some("SET k v\n"));
    let step = session_step(&mut store, Some("DEL k\n"));
    assert_eq!(reply(step), "1\n");
    let step = session_step(&mut store, Some("DEL k\n"));
    assert_eq!(reply(step), "0\n");
}

#[test]
fn empty_value_reply_encodes_as_empty_line() {
    let line = redlike::connection::encode_response(
        redlike::connection::Response::Simple(String::new()),
    );
    assert_eq!(line, "\n");
}

#[test]
fn default_store_is_empty() {
    let store = Store::default();
    assert_eq!(store.get("anything"), None);
}
