//! Identity resolution: which authors to look up, and how the lookups that
//! succeeded become a mapping from author to room nickname.
//!
//! The lookups themselves run concurrently outside the library; each one
//! hands back the author and, when it succeeded, the nickname.

use std::collections::HashMap;
use vstd::prelude::*;
use crate::transcript::{display_name_spec, ChatMessage};

verus! {

broadcast use vstd::std_specs::hash::group_hash_axioms;

/// The mapping built from lookup results, each successful lookup mapping
/// its author to the name it gave, later results overriding earlier ones;
/// a failed lookup adds nothing.
pub open spec fn resolved_spec(results: Seq<(u64, Option<String>)>) -> Map<u64, String>
    decreases results.len(),
{
    if results.len() == 0 {
        Map::empty()
    } else {
        let prev = resolved_spec(results.drop_last());
        let (id, name) = results.last();
        match name {
            Some(n) => prev.insert(id, n),
            None => prev,
        }
    }
}

/// Whether `id` wrote one of the messages.
pub open spec fn is_author_in(messages: Seq<ChatMessage>, id: u64) -> bool {
    exists|k: int| 0 <= k < messages.len() && messages[k].author_id == id
}

/// The distinct authors of the messages, each once, in order of first appearance.
pub fn distinct_authors(messages: &Vec<ChatMessage>) -> (r: Vec<u64>)
    ensures
        r@.no_duplicates(),
        forall|i: int| 0 <= i < messages@.len() ==> r@.contains(#[trigger] messages@[i].author_id),
        forall|j: int| 0 <= j < r@.len() ==> is_author_in(messages@, #[trigger] r@[j]),
{
    let mut out: Vec<u64> = Vec::new();
    let mut i: usize = 0;
    while i < messages.len()
        invariant
            i <= messages@.len(),
            out@.no_duplicates(),
            forall|k: int| 0 <= k < i ==> out@.contains(#[trigger] messages@[k].author_id),
            forall|j: int|
                0 <= j < out@.len() ==> exists|k: int|
                    0 <= k < i && messages@[k].author_id == #[trigger] out@[j],
        decreases messages.len() - i,
    {
        let id = messages[i].author_id;
        let ghost before = out@;
        let mut seen = false;
        let mut j: usize = 0;
        while j < out.len()
            invariant
                j <= out@.len(),
                seen == exists|k: int| 0 <= k < j && out@[k] == id,
            decreases out.len() - j,
        {
            if out[j] == id {
                seen = true;
            }
            j = j + 1;
        }
        if !seen {
            proof {
                assert forall|a: int, b: int|
                    0 <= a < out@.push(id).len() && 0 <= b < out@.push(id).len() && a != b
                    implies out@.push(id)[a] != out@.push(id)[b] by {
                    if a < out@.len() && b < out@.len() {
                    } else if a == out@.len() {
                        assert(out@.push(id)[b] == out@[b]);
                    } else {
                        assert(out@.push(id)[a] == out@[a]);
                    }
                }
            }
            out.push(id);
            assert(out@[out@.len() - 1] == messages@[i as int].author_id);
        } else {
            let ghost k = choose|k: int| 0 <= k < out@.len() && out@[k] == id;
            assert(out@.contains(messages@[i as int].author_id)) by {
                assert(out@[k] == id);
            }
        }
        proof {
            assert forall|k: int| 0 <= k < i + 1 implies out@.contains(#[trigger] messages@[k].author_id) by {
                if k < i {
                    let w = choose|w: int| 0 <= w < before.len() && before[w] == messages@[k].author_id;
                    assert(out@[w] == before[w]);
                }
            }
            assert forall|j: int| 0 <= j < out@.len() implies exists|k: int|
                0 <= k < i + 1 && messages@[k].author_id == #[trigger] out@[j] by {
                if j == out@.len() - 1 && !seen {
                    assert(messages@[i as int].author_id == out@[j]);
                } else {
                    assert(out@[j] == before[j]);
                    let k = choose|k: int| 0 <= k < i && messages@[k].author_id == before[j];
                    assert(messages@[k].author_id == out@[j]);
                }
            }
        }
        i = i + 1;
    }
    assert forall|j: int| 0 <= j < out@.len() implies is_author_in(messages@, #[trigger] out@[j]) by {
        let k = choose|k: int| 0 <= k < i && messages@[k].author_id == out@[j];
        assert(messages@[k].author_id == out@[j]);
    }
    out
}

/// Merges lookup results into the mapping from author to room nickname.
/// Authors whose lookup failed are absent.
pub fn resolved_names(results: Vec<(u64, Option<String>)>) -> (r: HashMap<u64, String>)
    ensures
        r@ == resolved_spec(results@),
{
    let mut names: HashMap<u64, String> = HashMap::new();
    let total = results.len();
    let mut rest = results;
    let mut pending: Vec<(u64, Option<String>)> = Vec::new();
    while rest.len() > 0
        invariant
            results@ == rest@ + pending@.reverse(),
        decreases rest.len(),
    {
        let entry = rest.pop().unwrap();
        pending.push(entry);
        assert(results@ =~= rest@ + pending@.reverse());
    }
    assert(rest@ + pending@.reverse() =~= pending@.reverse());
    let ghost all = pending@.reverse();
    let mut done: usize = 0;
    while pending.len() > 0
        invariant
            all == results@,
            total == all.len(),
            done + pending@.len() == total,
            pending@.reverse() == all.subrange(done as int, all.len() as int),
            names@ == resolved_spec(all.subrange(0, done as int)),
        decreases pending.len(),
    {
        let ghost before = pending@;
        let (id, name) = pending.pop().unwrap();
        proof {
            assert(before.reverse()[0] == (id, name));
            assert(pending@.reverse() =~= before.reverse().drop_first());
            assert(all.subrange(0, done + 1).drop_last() =~= all.subrange(0, done as int));
            assert(all.subrange(0, done + 1).last() == all[done as int]);
            assert(all[done as int] == before.reverse()[0]);
        }
        match name {
            Some(n) => {
                names.insert(id, n);
            },
            None => {},
        }
        done = done + 1;
        assert(pending@.reverse() =~= all.subrange(done as int, all.len() as int));
    }
    assert(all.subrange(0, done as int) =~= all);
    names
}

/// Every author in the mapping built from lookups was among the authors
/// looked up.
pub proof fn lemma_resolved_keys_within_authors(
    authors: Seq<u64>,
    results: Seq<(u64, Option<String>)>,
)
    requires
        forall|i: int| 0 <= i < results.len() ==> authors.contains(#[trigger] results[i].0),
    ensures
        resolved_spec(results).dom().subset_of(authors.to_set()),
    decreases results.len(),
{
    if results.len() > 0 {
        let prev = results.drop_last();
        assert forall|i: int| 0 <= i < prev.len() implies authors.contains(#[trigger] prev[i].0) by {
            assert(prev[i] == results[i]);
        }
        lemma_resolved_keys_within_authors(authors, prev);
        assert(authors.contains(results[results.len() - 1].0));
    }
}

/// `id` was looked up successfully by one of the results.
pub open spec fn resolved_by(results: Seq<(u64, Option<String>)>, id: u64) -> bool {
    exists|i: int| 0 <= i < results.len() && results[i].0 == id && (#[trigger] results[i]).1 is Some
}

/// An author is in the mapping exactly when one of its lookups succeeded,
/// and then it maps to the name of its last successful lookup.
pub proof fn lemma_resolved_exactly_successes(results: Seq<(u64, Option<String>)>, id: u64)
    ensures
        resolved_spec(results).contains_key(id) <==> resolved_by(results, id),
        resolved_spec(results).contains_key(id) ==> exists|i: int|
            0 <= i < results.len() && (#[trigger] results[i]) == (id, Some(resolved_spec(results)[id]))
                && forall|j: int| i < j < results.len() ==> !(results[j].0 == id && (#[trigger] results[j]).1 is Some),
    decreases results.len(),
{
    if results.len() > 0 {
        let prev = results.drop_last();
        let n = results.len() - 1;
        lemma_resolved_exactly_successes(prev, id);
        assert forall|i: int| 0 <= i < prev.len() implies #[trigger] prev[i] == results[i] by {}
        if results[n].0 == id && results[n].1 is Some {
            assert(results[n] == (id, Some(resolved_spec(results)[id])));
            assert(resolved_by(results, id));
        } else {
            if resolved_by(results, id) {
                let i = choose|i: int| 0 <= i < results.len() && results[i].0 == id && (#[trigger] results[i]).1 is Some;
                assert(i < n);
                assert(prev[i] == results[i]);
                assert(resolved_by(prev, id));
            }
            if resolved_by(prev, id) {
                let i = choose|i: int| 0 <= i < prev.len() && prev[i].0 == id && (#[trigger] prev[i]).1 is Some;
                assert(results[i] == prev[i]);
            }
            if resolved_spec(results).contains_key(id) {
                let i = choose|i: int|
                    0 <= i < prev.len() && (#[trigger] prev[i]) == (id, Some(resolved_spec(prev)[id]))
                        && forall|j: int| i < j < prev.len() ==> !(prev[j].0 == id && (#[trigger] prev[j]).1 is Some);
                assert(results[i] == prev[i]);
                assert forall|j: int| i < j < results.len() implies !(results[j].0 == id && (#[trigger] results[j]).1 is Some) by {
                    if j < n {
                        assert(prev[j] == results[j]);
                    }
                }
            }
        }
    }
}

/// An author absent from the mapping, whatever the lookups gave, is shown
/// for a well-formed message by a non-empty name: the global name on the
/// message when there is one, else the handle.
pub proof fn lemma_fallback_name_nonempty(m: ChatMessage, results: Seq<(u64, Option<String>)>)
    requires
        m.wf(),
        !resolved_spec(results).contains_key(m.author_id),
    ensures
        display_name_spec(m, resolved_spec(results)).len() > 0,
        display_name_spec(m, resolved_spec(results)) == match m.global_name {
            Some(g) => g@,
            None => m.username@,
        },
{
}

} // verus!
