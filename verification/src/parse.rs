//! The command parser.
//!
//! One line of input text becomes either a validated [`Command`] or a
//! [`ProtocolError`]. The line is split on runs of whitespace; the first
//! token, compared case-insensitively, selects the command; the remaining
//! tokens are its arguments and must match the command's fixed arity. Keys
//! and values are taken verbatim (case-sensitive). A line of only
//! whitespace parses as [`Command::NOOP`].
//!
//! The whole algorithm is mirrored by the spec functions [`spec_tokens`] and
//! [`spec_parse`]; [`parse_line`]'s contract says its result is exactly
//! `spec_parse` of the input.

use vstd::prelude::*;
use vstd::string::*;
use crate::error::{ProtocolError, ProtocolErrorV};

verus! {

/// The whitespace characters that delimit tokens: the ASCII space, tab,
/// line feed, vertical tab, form feed and carriage return.
pub open spec fn is_ws(c: char) -> bool {
    c == ' ' || c == '\t' || c == '\n' || c == '\r' || c == '\u{b}' || c == '\u{c}'
}

fn is_ws_char(c: char) -> (r: bool)
    ensures
        r == is_ws(c),
{
    c == ' ' || c == '\t' || c == '\n' || c == '\r' || c == '\u{b}' || c == '\u{c}'
}

/// Maps an ASCII lowercase letter to its uppercase form; every other
/// character is left as it is.
pub open spec fn upper_char(c: char) -> char {
    if c == 'a' {
        'A'
    } else if c == 'b' {
        'B'
    } else if c == 'c' {
        'C'
    } else if c == 'd' {
        'D'
    } else if c == 'e' {
        'E'
    } else if c == 'f' {
        'F'
    } else if c == 'g' {
        'G'
    } else if c == 'h' {
        'H'
    } else if c == 'i' {
        'I'
    } else if c == 'j' {
        'J'
    } else if c == 'k' {
        'K'
    } else if c == 'l' {
        'L'
    } else if c == 'm' {
        'M'
    } else if c == 'n' {
        'N'
    } else if c == 'o' {
        'O'
    } else if c == 'p' {
        'P'
    } else if c == 'q' {
        'Q'
    } else if c == 'r' {
        'R'
    } else if c == 's' {
        'S'
    } else if c == 't' {
        'T'
    } else if c == 'u' {
        'U'
    } else if c == 'v' {
        'V'
    } else if c == 'w' {
        'W'
    } else if c == 'x' {
        'X'
    } else if c == 'y' {
        'Y'
    } else if c == 'z' {
        'Z'
    } else {
        c
    }
}

fn to_upper_char(c: char) -> (r: char)
    ensures
        r == upper_char(c),
{
    if c == 'a' {
        'A'
    } else if c == 'b' {
        'B'
    } else if c == 'c' {
        'C'
    } else if c == 'd' {
        'D'
    } else if c == 'e' {
        'E'
    } else if c == 'f' {
        'F'
    } else if c == 'g' {
        'G'
    } else if c == 'h' {
        'H'
    } else if c == 'i' {
        'I'
    } else if c == 'j' {
        'J'
    } else if c == 'k' {
        'K'
    } else if c == 'l' {
        'L'
    } else if c == 'm' {
        'M'
    } else if c == 'n' {
        'N'
    } else if c == 'o' {
        'O'
    } else if c == 'p' {
        'P'
    } else if c == 'q' {
        'Q'
    } else if c == 'r' {
        'R'
    } else if c == 's' {
        'S'
    } else if c == 't' {
        'T'
    } else if c == 'u' {
        'U'
    } else if c == 'v' {
        'V'
    } else if c == 'w' {
        'W'
    } else if c == 'x' {
        'X'
    } else if c == 'y' {
        'Y'
    } else if c == 'z' {
        'Z'
    } else {
        c
    }
}

/// ASCII-uppercases every character of a sequence.
pub open spec fn to_upper(s: Seq<char>) -> Seq<char> {
    s.map_values(|c: char| upper_char(c))
}

/// The tokens collected from the characters of `s`, read left to right,
/// together with the partial token open at the end of `s` (empty if `s`
/// ends in whitespace or is empty).
pub open spec fn tok_state(s: Seq<char>) -> (Seq<Seq<char>>, Seq<char>)
    decreases s.len(),
{
    if s.len() == 0 {
        (Seq::<Seq<char>>::empty(), Seq::<char>::empty())
    } else {
        let prev = tok_state(s.drop_last());
        let c = s.last();
        if is_ws(c) {
            if prev.1.len() == 0 {
                prev
            } else {
                (prev.0.push(prev.1), Seq::<char>::empty())
            }
        } else {
            (prev.0, prev.1.push(c))
        }
    }
}

/// The maximal runs of non-whitespace characters of `s`, in order: what
/// splitting `s` on runs of whitespace yields.
pub open spec fn spec_tokens(s: Seq<char>) -> Seq<Seq<char>> {
    let st = tok_state(s);
    if st.1.len() == 0 {
        st.0
    } else {
        st.0.push(st.1)
    }
}

/// The character sequences of a sequence of strings.
pub open spec fn token_views(tokens: Seq<String>) -> Seq<Seq<char>> {
    tokens.map_values(|t: String| t@)
}

/// Splits a line on runs of whitespace into its tokens.
pub fn tokenize(line: &str) -> (tokens: Vec<String>)
    ensures
        token_views(tokens@) == spec_tokens(line@),
{
    let n = line.unicode_len();
    let mut tokens: Vec<String> = Vec::new();
    let mut start: usize = 0;
    let mut in_token: bool = false;
    let mut i: usize = 0;
    while i < n
        invariant
            n == line@.len(),
            i <= n,
            in_token ==> start < i,
            token_views(tokens@) == tok_state(line@.subrange(0, i as int)).0,
            (if in_token {
                tok_state(line@.subrange(0, i as int)).1 == line@.subrange(start as int, i as int)
            } else {
                tok_state(line@.subrange(0, i as int)).1 == Seq::<char>::empty()
            }),
        decreases n - i,
    {
        let ghost pre = line@.subrange(0, i as int);
        let ghost post = line@.subrange(0, i as int + 1);
        proof {
            assert(post.drop_last() =~= pre);
            assert(post.last() == line@[i as int]);
        }
        let c = line.get_char(i);
        if is_ws_char(c) {
            if in_token {
                let tok = line.substring_char(start, i).to_owned();
                tokens.push(tok);
                in_token = false;
                proof {
                    assert(token_views(tokens@) =~= tok_state(post).0);
                }
            }
        } else {
            if !in_token {
                start = i;
                in_token = true;
            }
            proof {
                assert(tok_state(post).1 =~= line@.subrange(start as int, i as int + 1));
            }
        }
        i += 1;
    }
    proof {
        assert(line@.subrange(0, n as int) =~= line@);
    }
    if in_token {
        let tok = line.substring_char(start, n).to_owned();
        tokens.push(tok);
        proof {
            assert(token_views(tokens@) =~= spec_tokens(line@));
        }
    }
    tokens
}

/// Abstract form of a [`Command`], over character sequences.
#[allow(non_camel_case_types)]
pub enum CommandV {
    PING,
    GET { key: Seq<char> },
    SET { key: Seq<char>, value: Seq<char> },
    DEL { key: Seq<char> },
    QUIT,
    NOOP,
}

/// One validated command, built fresh from one input line.
///
/// `NOOP` is what a blank line parses to: the connection sends no reply and
/// reads on.
#[allow(non_camel_case_types)]
#[derive(Debug, PartialEq, Eq)]
pub enum Command {
    PING,
    GET { key: String },
    SET { key: String, value: String },
    DEL { key: String },
    QUIT,
    NOOP,
}

impl View for Command {
    type V = CommandV;

    open spec fn view(&self) -> CommandV {
        match self {
            Command::PING => CommandV::PING,
            Command::GET { key } => CommandV::GET { key: key@ },
            Command::SET { key, value } => CommandV::SET { key: key@, value: value@ },
            Command::DEL { key } => CommandV::DEL { key: key@ },
            Command::QUIT => CommandV::QUIT,
            Command::NOOP => CommandV::NOOP,
        }
    }
}

/// The canonical spelling of the `PING` command name.
pub open spec fn kw_ping() -> Seq<char> {
    seq!['P', 'I', 'N', 'G']
}

/// The canonical spelling of the `GET` command name.
pub open spec fn kw_get() -> Seq<char> {
    seq!['G', 'E', 'T']
}

/// The canonical spelling of the `SET` command name.
pub open spec fn kw_set() -> Seq<char> {
    seq!['S', 'E', 'T']
}

/// The canonical spelling of the `DEL` command name.
pub open spec fn kw_del() -> Seq<char> {
    seq!['D', 'E', 'L']
}

/// The canonical spelling of the `QUIT` command name.
pub open spec fn kw_quit() -> Seq<char> {
    seq!['Q', 'U', 'I', 'T']
}

/// What a token sequence parses to: no tokens is a no-op; otherwise the
/// upper-cased first token must be a known command name and the rest must
/// match its arity.
pub open spec fn spec_parse_tokens(toks: Seq<Seq<char>>) -> Result<CommandV, ProtocolErrorV> {
    if toks.len() == 0 {
        Ok(CommandV::NOOP)
    } else {
        let name = to_upper(toks[0]);
        let given = (toks.len() - 1) as nat;
        if name == kw_ping() {
            if given == 0 {
                Ok(CommandV::PING)
            } else {
                Err(ProtocolErrorV::WrongArity { command: kw_ping(), given, expected: 0 })
            }
        } else if name == kw_get() {
            if given == 1 {
                Ok(CommandV::GET { key: toks[1] })
            } else {
                Err(ProtocolErrorV::WrongArity { command: kw_get(), given, expected: 1 })
            }
        } else if name == kw_set() {
            if given == 2 {
                Ok(CommandV::SET { key: toks[1], value: toks[2] })
            } else {
                Err(ProtocolErrorV::WrongArity { command: kw_set(), given, expected: 2 })
            }
        } else if name == kw_del() {
            if given == 1 {
                Ok(CommandV::DEL { key: toks[1] })
            } else {
                Err(ProtocolErrorV::WrongArity { command: kw_del(), given, expected: 1 })
            }
        } else if name == kw_quit() {
            if given == 0 {
                Ok(CommandV::QUIT)
            } else {
                Err(ProtocolErrorV::WrongArity { command: kw_quit(), given, expected: 0 })
            }
        } else {
            Err(ProtocolErrorV::UnknownCommand)
        }
    }
}

/// What one line of input parses to.
pub open spec fn spec_parse(line: Seq<char>) -> Result<CommandV, ProtocolErrorV> {
    spec_parse_tokens(spec_tokens(line))
}

/// Whether `tok`, upper-cased, equals `kw`.
fn kw_matches(tok: &str, kw: &str) -> (r: bool)
    ensures
        r == (to_upper(tok@) == kw@),
{
    let n = tok.unicode_len();
    if n != kw.unicode_len() {
        return false;
    }
    let mut i: usize = 0;
    while i < n
        invariant
            n == tok@.len(),
            n == kw@.len(),
            i <= n,
            forall|j: int| 0 <= j < i ==> to_upper(tok@)[j] == kw@[j],
        decreases n - i,
    {
        let c = to_upper_char(tok.get_char(i));
        let k = kw.get_char(i);
        if c != k {
            proof {
                assert(to_upper(tok@)[i as int] != kw@[i as int]);
            }
            return false;
        }
        i += 1;
    }
    proof {
        assert(to_upper(tok@) =~= kw@);
    }
    true
}

/// Parses one line of input (its trailing newline may or may not already be
/// stripped: the newline is whitespace either way).
///
/// The result is exactly [`spec_parse`] of the line: a blank line is
/// `Command::NOOP`, a recognized command name with the wrong number of
/// arguments is a `WrongArity` error naming that command, and an
/// unrecognized first token is `UnknownCommand`.
pub fn parse_line(line: &str) -> (r: Result<Command, ProtocolError>)
    ensures
        match r {
            Ok(c) => spec_parse(line@) == Ok::<CommandV, ProtocolErrorV>(c@),
            Err(e) => spec_parse(line@) == Err::<CommandV, ProtocolErrorV>(e@),
        },
{
    let mut tokens = tokenize(line);
    let ghost toks = spec_tokens(line@);
    proof {
        reveal_strlit("PING");
        reveal_strlit("GET");
        reveal_strlit("SET");
        reveal_strlit("DEL");
        reveal_strlit("QUIT");
        assert("PING"@ =~= kw_ping());
        assert("GET"@ =~= kw_get());
        assert("SET"@ =~= kw_set());
        assert("DEL"@ =~= kw_del());
        assert("QUIT"@ =~= kw_quit());
    }
    if tokens.len() == 0 {
        return Ok(Command::NOOP);
    }
    let given = tokens.len() - 1;
    if kw_matches(tokens[0].as_str(), "PING") {
        if given == 0 {
            Ok(Command::PING)
        } else {
            Err(ProtocolError::WrongArity { command: "PING".to_owned(), given, expected: 0 })
        }
    } else if kw_matches(tokens[0].as_str(), "GET") {
        if given == 1 {
            let key = tokens.pop().unwrap();
            Ok(Command::GET { key })
        } else {
            Err(ProtocolError::WrongArity { command: "GET".to_owned(), given, expected: 1 })
        }
    } else if kw_matches(tokens[0].as_str(), "SET") {
        if given == 2 {
            let value = tokens.pop().unwrap();
            let key = tokens.pop().unwrap();
            Ok(Command::SET { key, value })
        } else {
            Err(ProtocolError::WrongArity { command: "SET".to_owned(), given, expected: 2 })
        }
    } else if kw_matches(tokens[0].as_str(), "DEL") {
        if given == 1 {
            let key = tokens.pop().unwrap();
            Ok(Command::DEL { key })
        } else {
            Err(ProtocolError::WrongArity { command: "DEL".to_owned(), given, expected: 1 })
        }
    } else if kw_matches(tokens[0].as_str(), "QUIT") {
        if given == 0 {
            Ok(Command::QUIT)
        } else {
            Err(ProtocolError::WrongArity { command: "QUIT".to_owned(), given, expected: 0 })
        }
    } else {
        Err(ProtocolError::UnknownCommand)
    }
}

} // verus!
