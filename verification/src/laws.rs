//! The protocol's laws, stated over the spec-level state machine and proved
//! once and for all.
//!
//! Each law quantifies over arbitrary store contents, keys and values; the
//! spec functions it speaks of are the very ones the executable functions'
//! contracts are stated with, so the laws carry over to every run of the
//! service.

use vstd::prelude::*;
use crate::connection::{
    spec_encode, spec_process, spec_session_step, ProcessOutcomeV, ResponseV, StepResultV,
    reply_ok, reply_one, reply_zero,
};
use crate::parse::{kw_get, kw_ping, kw_set, spec_parse_tokens, spec_tokens, to_upper, CommandV};

verus! {

/// Setting a key and then getting it returns exactly the value that was
/// set; the set itself replies `OK`.
pub proof fn lemma_set_then_get(m: Map<Seq<char>, Seq<char>>, k: Seq<char>, v: Seq<char>)
    ensures
        spec_process(m, CommandV::SET { key: k, value: v }).1 == ProcessOutcomeV::Respond(
            ResponseV::Simple(reply_ok()),
        ),
        spec_process(
            spec_process(m, CommandV::SET { key: k, value: v }).0,
            CommandV::GET { key: k },
        ).1 == ProcessOutcomeV::Respond(ResponseV::Simple(v)),
{
}

/// Getting a key that was never set replies with the empty text, which the
/// encoder turns into an empty reply line.
pub proof fn lemma_get_absent(m: Map<Seq<char>, Seq<char>>, k: Seq<char>)
    requires
        !m.contains_key(k),
    ensures
        spec_process(m, CommandV::GET { key: k }).1 == ProcessOutcomeV::Respond(
            ResponseV::Simple(Seq::<char>::empty()),
        ),
        spec_encode(ResponseV::Simple(Seq::<char>::empty())) == seq!['\n'],
{
    assert(Seq::<char>::empty() + seq!['\n'] =~= seq!['\n']);
}

/// Deleting an absent key replies `0`; after any set of the key, one delete
/// replies `1` and removes the binding, and an immediate second delete
/// replies `0` again.
pub proof fn lemma_delete(m: Map<Seq<char>, Seq<char>>, k: Seq<char>, v: Seq<char>)
    ensures
        !m.contains_key(k) ==> spec_process(m, CommandV::DEL { key: k }).1
            == ProcessOutcomeV::Respond(ResponseV::Simple(reply_zero())),
        ({
            let set_once = spec_process(m, CommandV::SET { key: k, value: v }).0;
            let deleted = spec_process(set_once, CommandV::DEL { key: k });
            deleted.1 == ProcessOutcomeV::Respond(ResponseV::Simple(reply_one()))
                && spec_process(deleted.0, CommandV::DEL { key: k }).1 == ProcessOutcomeV::Respond(
                ResponseV::Simple(reply_zero()),
            )
        }),
{
}

/// The store contents after repeating `SET k v` a number of times.
pub open spec fn spec_set_n(
    m: Map<Seq<char>, Seq<char>>,
    k: Seq<char>,
    v: Seq<char>,
    n: nat,
) -> Map<Seq<char>, Seq<char>>
    decreases n,
{
    if n == 0 {
        m
    } else {
        spec_process(
            spec_set_n(m, k, v, (n - 1) as nat),
            CommandV::SET { key: k, value: v },
        ).0
    }
}

/// Setting a key is idempotent: repeating `SET k v` any number of times (at
/// least once) leaves the same observable store as doing it once.
pub proof fn lemma_set_idempotent(m: Map<Seq<char>, Seq<char>>, k: Seq<char>, v: Seq<char>, n: nat)
    requires
        n >= 1,
    ensures
        spec_set_n(m, k, v, n) == spec_process(m, CommandV::SET { key: k, value: v }).0,
    decreases n,
{
    if n == 1 {
        assert(spec_set_n(m, k, v, 0) == m);
    } else {
        lemma_set_idempotent(m, k, v, (n - 1) as nat);
        assert(m.insert(k, v).insert(k, v) =~= m.insert(k, v));
    }
}

/// The same round trip on the wire: a line that tokenizes as `SET k v`
/// earns the reply line `OK`, inserts the binding, and a following line that
/// tokenizes as `GET k` earns `v` as its reply line.
pub proof fn lemma_wire_set_then_get(
    m: Map<Seq<char>, Seq<char>>,
    l1: Seq<char>,
    l2: Seq<char>,
    k: Seq<char>,
    v: Seq<char>,
)
    requires
        spec_tokens(l1) == seq![kw_set(), k, v],
        spec_tokens(l2) == seq![kw_get(), k],
    ensures
        spec_session_step(m, Some(l1)).0 == m.insert(k, v),
        spec_session_step(m, Some(l1)).1 == StepResultV::Reply(reply_ok() + seq!['\n']),
        spec_session_step(spec_session_step(m, Some(l1)).0, Some(l2)).1 == StepResultV::Reply(
            v + seq!['\n'],
        ),
{
    assert(to_upper(kw_set()) =~= kw_set());
    assert(to_upper(kw_get()) =~= kw_get());
    assert(to_upper(kw_set()) != kw_ping()) by {
        assert(to_upper(kw_set()).len() != kw_ping().len());
    }
    assert(to_upper(kw_get()) != kw_ping()) by {
        assert(to_upper(kw_get()).len() != kw_ping().len());
    }
    assert(to_upper(kw_set()) != kw_get()) by {
        assert(to_upper(kw_set())[0] != kw_get()[0]);
    }
}

/// Getting a never-set key over the wire earns an empty reply line.
pub proof fn lemma_wire_get_absent(m: Map<Seq<char>, Seq<char>>, l: Seq<char>, k: Seq<char>)
    requires
        spec_tokens(l) == seq![kw_get(), k],
        !m.contains_key(k),
    ensures
        spec_session_step(m, Some(l)).0 == m,
        spec_session_step(m, Some(l)).1 == StepResultV::Reply(seq!['\n']),
{
    assert(to_upper(kw_get()) =~= kw_get());
    assert(to_upper(kw_get()) != kw_ping()) by {
        assert(to_upper(kw_get()).len() != kw_ping().len());
    }
    assert(Seq::<char>::empty() + seq!['\n'] =~= seq!['\n']);
}

/// Command names are case-insensitive: two token sequences that agree except
/// perhaps in the case of their first token parse identically. The argument
/// tokens — keys and values — must agree verbatim.
pub proof fn lemma_case_insensitive(toks1: Seq<Seq<char>>, toks2: Seq<Seq<char>>)
    requires
        toks1.len() == toks2.len(),
        toks1.len() > 0 ==> to_upper(toks1[0]) == to_upper(toks2[0]),
        forall|i: int| 1 <= i < toks1.len() ==> toks1[i] == toks2[i],
    ensures
        spec_parse_tokens(toks1) == spec_parse_tokens(toks2),
{
}

/// Sets on distinct keys commute: whichever order two connections' sets are
/// serialized in, the store ends the same, and each key then reads back its
/// own value.
pub proof fn lemma_distinct_sets_commute(
    m: Map<Seq<char>, Seq<char>>,
    k1: Seq<char>,
    v1: Seq<char>,
    k2: Seq<char>,
    v2: Seq<char>,
)
    requires
        k1 != k2,
    ensures
        spec_process(
            spec_process(m, CommandV::SET { key: k1, value: v1 }).0,
            CommandV::SET { key: k2, value: v2 },
        ).0 == spec_process(
            spec_process(m, CommandV::SET { key: k2, value: v2 }).0,
            CommandV::SET { key: k1, value: v1 },
        ).0,
        spec_process(
            spec_process(m, CommandV::SET { key: k1, value: v1 }).0,
            CommandV::SET { key: k2, value: v2 },
        ).0[k1] == v1,
        spec_process(
            spec_process(m, CommandV::SET { key: k1, value: v1 }).0,
            CommandV::SET { key: k2, value: v2 },
        ).0[k2] == v2,
{
    assert(m.insert(k1, v1).insert(k2, v2) =~= m.insert(k2, v2).insert(k1, v1));
}

} // verus!
