use vstd::prelude::*;
use crate::correlation::{
    has_id, lemma_filter_all, lemma_filter_unique, not_of_plugin, other_id, unique_ids, PendingCall,
};

verus! {

broadcast use vstd::seq_lib::group_filter_ensures;

proof fn lemma_has_id_filter(s: Seq<PendingCall>, f: spec_fn(PendingCall) -> bool, id: Seq<char>)
    ensures
        has_id(s.filter(f), id) <==> exists|i: int| 0 <= i < s.len() && s[i].id@ == id && f(s[i]),
{
    if has_id(s.filter(f), id) {
        let k = choose|k: int| 0 <= k < s.filter(f).len() && s.filter(f)[k].id@ == id;
        let e = s.filter(f)[k];
        assert(s.filter(f).contains(e));
        s.lemma_filter_contains_rev(f, e);
        let i = choose|i: int| 0 <= i < s.len() && s[i] == e;
        assert(s[i].id@ == id && f(s[i]));
    }
    if exists|i: int| 0 <= i < s.len() && s[i].id@ == id && f(s[i]) {
        let i = choose|i: int| 0 <= i < s.len() && s[i].id@ == id && f(s[i]);
        s.lemma_filter_contains(f, i);
        let k = choose|k: int| 0 <= k < s.filter(f).len() && s.filter(f)[k] == s[i];
        assert(s.filter(f)[k].id@ == id);
    }
}

/// A step that settles calls (a reply, a sweep of deadlines, a cancellation)
/// splits the waiting calls in two: those it keeps waiting and those it
/// settles. Every waiting call ends up in exactly one of the two, and no id
/// is settled twice, so each call receives exactly one outcome.
pub proof fn lemma_settled_exactly_once(
    calls: Seq<PendingCall>,
    settled: spec_fn(PendingCall) -> bool,
    kept: spec_fn(PendingCall) -> bool,
    id: Seq<char>,
)
    requires
        unique_ids(calls),
        has_id(calls, id),
        forall|p: PendingCall| #[trigger] kept(p) == !settled(p),
    ensures
        has_id(calls.filter(kept), id) != has_id(calls.filter(settled), id),
        unique_ids(calls.filter(settled)),
        unique_ids(calls.filter(kept)),
{
    lemma_has_id_filter(calls, kept, id);
    lemma_has_id_filter(calls, settled, id);
    lemma_filter_unique(calls, settled);
    lemma_filter_unique(calls, kept);
}

/// A reply never touches a call that it does not answer: every waiting call
/// with another id stays waiting, and a reply that answers no call leaves
/// the table as it was.
pub proof fn lemma_reply_spares_other_calls(calls: Seq<PendingCall>, reply_id: Seq<char>)
    ensures
        forall|i: int|
            0 <= i < calls.len() && calls[i].id@ != reply_id ==> calls.filter(
                other_id(reply_id),
            ).contains(#[trigger] calls[i]),
        !has_id(calls, reply_id) ==> calls.filter(other_id(reply_id)) == calls,
{
    assert forall|i: int| 0 <= i < calls.len() && calls[i].id@ != reply_id implies calls.filter(
        other_id(reply_id),
    ).contains(#[trigger] calls[i]) by {
        calls.lemma_filter_contains(other_id(reply_id), i);
    }
    if !has_id(calls, reply_id) {
        lemma_filter_all(calls, other_id(reply_id));
    }
}

/// Once a reply has settled a call, no call with that id waits any more, so
/// a second reply with the same `reply_id` matches nothing and is discarded.
pub proof fn lemma_second_reply_unmatched(calls: Seq<PendingCall>, reply_id: Seq<char>)
    ensures
        !has_id(calls.filter(other_id(reply_id)), reply_id),
{
    lemma_has_id_filter(calls, other_id(reply_id), reply_id);
}

/// Once a plugin's calls are cancelled, none of the remaining calls belongs
/// to it, so no later reply from it can settle one.
pub proof fn lemma_no_calls_after_end(calls: Seq<PendingCall>, plugin: Seq<char>)
    ensures
        forall|i: int|
            0 <= i < calls.filter(not_of_plugin(plugin)).len() ==> (#[trigger] calls.filter(
                not_of_plugin(plugin),
            )[i]).plugin_ref_id@ != plugin,
{
}

} // verus!
