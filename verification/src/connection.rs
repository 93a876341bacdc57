//! The command processor, the response encoder, and the per-line session
//! step of a connection.
//!
//! A connection repeats: read one line, parse it, run the command against
//! the shared store, write back one reply line. The reading and writing
//! belong to the surrounding program; everything between — what one line of
//! input does to the store and what reply it earns — is [`session_step`],
//! whose contract is the spec-level state machine [`spec_session_step`].

use vstd::prelude::*;
use vstd::string::*;
use crate::error::{ProtocolError, ProtocolErrorV};
use crate::parse::{parse_line, spec_parse, Command, CommandV};
use crate::store::Store;

verus! {

/// Abstract form of a [`Response`].
pub enum ResponseV {
    Simple(Seq<char>),
    Error(Seq<char>),
}

/// One reply to one command: a simple text, or an error text that the
/// encoder prefixes with `ERR `.
#[derive(Debug, PartialEq, Eq)]
pub enum Response {
    Simple(String),
    Error(String),
}

impl View for Response {
    type V = ResponseV;

    open spec fn view(&self) -> ResponseV {
        match self {
            Response::Simple(text) => ResponseV::Simple(text@),
            Response::Error(text) => ResponseV::Error(text@),
        }
    }
}

/// Abstract form of a [`ProcessOutcome`].
pub enum ProcessOutcomeV {
    Quit,
    Noop,
    Respond(ResponseV),
}

/// What processing one command decides: end the session, keep reading
/// silently, or send a reply.
#[derive(Debug, PartialEq, Eq)]
pub enum ProcessOutcome {
    Quit,
    Noop,
    Respond(Response),
}

impl View for ProcessOutcome {
    type V = ProcessOutcomeV;

    open spec fn view(&self) -> ProcessOutcomeV {
        match self {
            ProcessOutcome::Quit => ProcessOutcomeV::Quit,
            ProcessOutcome::Noop => ProcessOutcomeV::Noop,
            ProcessOutcome::Respond(r) => ProcessOutcomeV::Respond(r@),
        }
    }
}

/// The reply text to `PING`.
pub open spec fn reply_pong() -> Seq<char> {
    seq!['P', 'O', 'N', 'G']
}

/// The reply text to `SET`.
pub open spec fn reply_ok() -> Seq<char> {
    seq!['O', 'K']
}

/// The reply text to `DEL` when a binding was removed.
pub open spec fn reply_one() -> Seq<char> {
    seq!['1']
}

/// The reply text to `DEL` when the key was absent.
pub open spec fn reply_zero() -> Seq<char> {
    seq!['0']
}

/// What executing one command against store contents `m` yields: the new
/// contents and the outcome.
///
/// `GET` on an absent key replies with the empty text — a deliberate
/// protocol choice that keeps the reply shape uniform — and `SET` always
/// replies `OK`, whether or not a prior value existed.
pub open spec fn spec_process(m: Map<Seq<char>, Seq<char>>, c: CommandV) -> (
    Map<Seq<char>, Seq<char>>,
    ProcessOutcomeV,
) {
    match c {
        CommandV::NOOP => (m, ProcessOutcomeV::Noop),
        CommandV::QUIT => (m, ProcessOutcomeV::Quit),
        CommandV::PING => (m, ProcessOutcomeV::Respond(ResponseV::Simple(reply_pong()))),
        CommandV::SET { key, value } => (
            m.insert(key, value),
            ProcessOutcomeV::Respond(ResponseV::Simple(reply_ok())),
        ),
        CommandV::GET { key } => (
            m,
            ProcessOutcomeV::Respond(
                ResponseV::Simple(
                    if m.contains_key(key) {
                        m[key]
                    } else {
                        Seq::<char>::empty()
                    },
                ),
            ),
        ),
        CommandV::DEL { key } => (
            m.remove(key),
            ProcessOutcomeV::Respond(
                ResponseV::Simple(
                    if m.contains_key(key) {
                        reply_one()
                    } else {
                        reply_zero()
                    },
                ),
            ),
        ),
    }
}

/// Executes one command against the store.
///
/// The new store contents and the outcome are exactly [`spec_process`] of
/// the old contents and the command.
pub fn process_command(store: &mut Store, command: Command) -> (outcome: ProcessOutcome)
    ensures
        final(store)@ == spec_process(old(store)@, command@).0,
        outcome@ == spec_process(old(store)@, command@).1,
{
    match command {
        Command::NOOP => ProcessOutcome::Noop,
        Command::QUIT => ProcessOutcome::Quit,
        Command::PING => {
            let text = "PONG".to_owned();
            proof {
                reveal_strlit("PONG");
                assert(text@ =~= reply_pong());
            }
            ProcessOutcome::Respond(Response::Simple(text))
        },
        Command::SET { key, value } => {
            store.set(key, value);
            let text = "OK".to_owned();
            proof {
                reveal_strlit("OK");
                assert(text@ =~= reply_ok());
            }
            ProcessOutcome::Respond(Response::Simple(text))
        },
        Command::GET { key } => {
            let text = match store.get(key.as_str()) {
                Some(v) => v,
                None => String::new(),
            };
            ProcessOutcome::Respond(Response::Simple(text))
        },
        Command::DEL { key } => {
            let removed = store.delete(key.as_str());
            let text = match removed {
                Some(_) => {
                    let t = "1".to_owned();
                    proof {
                        reveal_strlit("1");
                        assert(t@ =~= reply_one());
                    }
                    t
                },
                None => {
                    let t = "0".to_owned();
                    proof {
                        reveal_strlit("0");
                        assert(t@ =~= reply_zero());
                    }
                    t
                },
            };
            ProcessOutcome::Respond(Response::Simple(text))
        },
    }
}

/// The wire form of a response: the text and a newline, with errors behind
/// the literal prefix `ERR `.
pub open spec fn spec_encode(r: ResponseV) -> Seq<char> {
    match r {
        ResponseV::Simple(text) => text + seq!['\n'],
        ResponseV::Error(text) => seq!['E', 'R', 'R', ' '] + text + seq!['\n'],
    }
}

/// Serializes a response into its reply line.
pub fn encode_response(response: Response) -> (line: String)
    ensures
        line@ == spec_encode(response@),
{
    let ghost rv = response@;
    match response {
        Response::Simple(text) => {
            let mut line = text;
            line.append("\n");
            proof {
                reveal_strlit("\n");
                assert(line@ =~= spec_encode(rv));
            }
            line
        },
        Response::Error(text) => {
            let mut line = "ERR ".to_owned();
            line.append(text.as_str());
            line.append("\n");
            proof {
                reveal_strlit("ERR ");
                reveal_strlit("\n");
                assert(line@ =~= spec_encode(rv));
            }
            line
        },
    }
}

/// The error text for an unrecognized command name.
pub open spec fn msg_unknown() -> Seq<char> {
    seq!['U', 'n', 'k', 'n', 'o', 'w', 'n', ' ', 'C', 'o', 'm', 'm', 'a', 'n', 'd']
}

/// The error text for a recognized command with the wrong argument count.
pub open spec fn msg_wrong_arity() -> Seq<char> {
    seq![
        'W',
        'r',
        'o',
        'n',
        'g',
        ' ',
        'n',
        'u',
        'm',
        'b',
        'e',
        'r',
        ' ',
        'o',
        'r',
        ' ',
        'a',
        'r',
        'g',
        'u',
        'm',
        'e',
        'n',
        't',
        's',
    ]
}

/// The error reply a parse error earns on the wire.
pub open spec fn spec_error_reply(e: ProtocolErrorV) -> ResponseV {
    match e {
        ProtocolErrorV::UnknownCommand => ResponseV::Error(msg_unknown()),
        ProtocolErrorV::WrongArity { .. } => ResponseV::Error(msg_wrong_arity()),
    }
}

/// Turns a parse error into the error reply the client sees. A malformed
/// line never reaches the processor; the connection answers with this reply
/// and stays open.
pub fn error_response(e: &ProtocolError) -> (r: Response)
    ensures
        r@ == spec_error_reply(e@),
{
    match e {
        ProtocolError::UnknownCommand => {
            let text = "Unknown Command".to_owned();
            proof {
                reveal_strlit("Unknown Command");
                assert(text@ =~= msg_unknown());
            }
            Response::Error(text)
        },
        ProtocolError::WrongArity { .. } => {
            let text = "Wrong number or arguments".to_owned();
            proof {
                reveal_strlit("Wrong number or arguments");
                assert(text@ =~= msg_wrong_arity());
            }
            Response::Error(text)
        },
    }
}

/// Abstract form of a [`StepResult`].
pub enum StepResultV {
    Reply(Seq<char>),
    Silent,
    Closed,
}

/// What one iteration of the connection loop decides: write a reply line
/// and read on, read on silently, or close the connection.
#[derive(Debug, PartialEq, Eq)]
pub enum StepResult {
    Reply(String),
    Silent,
    Closed,
}

impl View for StepResult {
    type V = StepResultV;

    open spec fn view(&self) -> StepResultV {
        match self {
            StepResult::Reply(line) => StepResultV::Reply(line@),
            StepResult::Silent => StepResultV::Silent,
            StepResult::Closed => StepResultV::Closed,
        }
    }
}

/// The view of one read event: `None` is end of stream, `Some` is one line.
pub open spec fn input_view(input: Option<&str>) -> Option<Seq<char>> {
    match input {
        Some(line) => Some(line@),
        None => None,
    }
}

/// One iteration of the connection state machine: the new store contents
/// and the decision, given the old contents and what the read yielded.
///
/// End of stream closes the connection. A parse error earns one `ERR ...`
/// reply line and the connection stays open. `QUIT` closes it with no
/// reply; a blank line is silent; every other command earns its reply line.
pub open spec fn spec_session_step(m: Map<Seq<char>, Seq<char>>, input: Option<Seq<char>>) -> (
    Map<Seq<char>, Seq<char>>,
    StepResultV,
) {
    match input {
        None => (m, StepResultV::Closed),
        Some(line) => match spec_parse(line) {
            Err(e) => (m, StepResultV::Reply(spec_encode(spec_error_reply(e)))),
            Ok(c) => {
                let stepped = spec_process(m, c);
                match stepped.1 {
                    ProcessOutcomeV::Noop => (stepped.0, StepResultV::Silent),
                    ProcessOutcomeV::Quit => (stepped.0, StepResultV::Closed),
                    ProcessOutcomeV::Respond(r) => (stepped.0, StepResultV::Reply(spec_encode(r))),
                }
            },
        },
    }
}

/// Runs one iteration of the connection loop: parse the line that was read
/// (`None` for end of stream), execute it against the store, and encode the
/// reply. The surrounding program writes the reply line if there is one,
/// closes the connection on `Closed`, and otherwise reads the next line; on
/// a transport fault it closes the connection without calling anything.
pub fn session_step(store: &mut Store, input: Option<&str>) -> (r: StepResult)
    ensures
        final(store)@ == spec_session_step(old(store)@, input_view(input)).0,
        r@ == spec_session_step(old(store)@, input_view(input)).1,
{
    match input {
        None => StepResult::Closed,
        Some(line) => match parse_line(line) {
            Err(e) => {
                let resp = error_response(&e);
                StepResult::Reply(encode_response(resp))
            },
            Ok(c) => {
                let outcome = process_command(store, c);
                match outcome {
                    ProcessOutcome::Noop => StepResult::Silent,
                    ProcessOutcome::Quit => StepResult::Closed,
                    ProcessOutcome::Respond(resp) => StepResult::Reply(encode_response(resp)),
                }
            },
        },
    }
}

} // verus!
