use vstd::prelude::*;
use crate::catalog::{answers, shape_of, PayloadFamily};
use crate::events::InternalEventPayload;

verus! {

broadcast use vstd::seq_lib::group_filter_ensures;

/// A request that was sent and waits for its reply.
#[derive(Debug)]
pub struct PendingCall {
    /// The id of the request envelope.
    pub id: String,
    /// The plugin the request was sent to.
    pub plugin_ref_id: String,
    /// The family whose response answers the request.
    pub expected: PayloadFamily,
    /// The time after which the call has timed out.
    pub deadline: u64,
}

/// Why a call failed.
#[derive(Debug, Clone, Copy, PartialEq, Eq, Structural)]
pub enum CallError {
    /// The reply's shape is not the one the request expects.
    ShapeMismatch,
    /// The deadline passed with no reply.
    Timeout,
    /// The plugin terminated or its channel was lost while the call waited.
    Cancelled,
    /// The plugin is not in a state that permits the call.
    LifecycleViolation,
    /// A call with the same id is already waiting.
    DuplicateId,
}

/// What a waiting caller finally receives.
#[derive(Debug, Clone)]
pub enum CallOutcome {
    Reply(InternalEventPayload),
    Failed(CallError),
}

/// The outcome of the call with the given id.
#[derive(Debug, Clone)]
pub struct Delivery {
    pub id: String,
    pub outcome: CallOutcome,
}

/// What became of an incoming reply.
#[derive(Debug, Clone)]
pub enum Resolution {
    /// It settled the waiting call.
    Delivered(Delivery),
    /// No call waits for its `reply_id`: it was discarded.
    Unmatched,
}

/// Whether no two calls of `s` share an id.
pub open spec fn unique_ids(s: Seq<PendingCall>) -> bool {
    forall|i: int, j: int|
        0 <= i < s.len() && 0 <= j < s.len() && i != j ==> s[i].id@ != s[j].id@
}

/// Whether a call of `s` has the id `id`.
pub open spec fn has_id(s: Seq<PendingCall>, id: Seq<char>) -> bool {
    exists|i: int| 0 <= i < s.len() && s[i].id@ == id
}

pub open spec fn with_id(id: Seq<char>) -> spec_fn(PendingCall) -> bool {
    |p: PendingCall| p.id@ == id
}

pub open spec fn other_id(id: Seq<char>) -> spec_fn(PendingCall) -> bool {
    |p: PendingCall| p.id@ != id
}

pub open spec fn due(now: u64) -> spec_fn(PendingCall) -> bool {
    |p: PendingCall| p.deadline <= now
}

pub open spec fn not_due(now: u64) -> spec_fn(PendingCall) -> bool {
    |p: PendingCall| p.deadline > now
}

pub open spec fn of_plugin(plugin: Seq<char>) -> spec_fn(PendingCall) -> bool {
    |p: PendingCall| p.plugin_ref_id@ == plugin
}

pub open spec fn not_of_plugin(plugin: Seq<char>) -> spec_fn(PendingCall) -> bool {
    |p: PendingCall| p.plugin_ref_id@ != plugin
}

/// The outcome that a reply with payload `payload` gives a call that expects
/// `expected`.
pub open spec fn reply_outcome(expected: PayloadFamily, payload: InternalEventPayload) -> CallOutcome {
    if answers(expected, shape_of(payload)) {
        CallOutcome::Reply(payload)
    } else {
        CallOutcome::Failed(CallError::ShapeMismatch)
    }
}

/// Whether `r` fails each call of `calls`, in order, with `err`.
pub open spec fn fails_each(r: Seq<Delivery>, calls: Seq<PendingCall>, err: CallError) -> bool {
    &&& r.len() == calls.len()
    &&& forall|k: int|
        0 <= k < r.len() ==> r[k].id@ == calls[k].id@ && r[k].outcome == CallOutcome::Failed(err)
}

enum Selector {
    Id(String),
    DueBy(u64),
    Plugin(String),
}

spec fn takes(sel: Selector) -> spec_fn(PendingCall) -> bool {
    match sel {
        Selector::Id(id) => with_id(id@),
        Selector::DueBy(now) => due(now),
        Selector::Plugin(plugin) => of_plugin(plugin@),
    }
}

spec fn keeps(sel: Selector) -> spec_fn(PendingCall) -> bool {
    match sel {
        Selector::Id(id) => other_id(id@),
        Selector::DueBy(now) => not_due(now),
        Selector::Plugin(plugin) => not_of_plugin(plugin@),
    }
}

pub(crate) proof fn lemma_filter_unique(s: Seq<PendingCall>, f: spec_fn(PendingCall) -> bool)
    requires
        unique_ids(s),
    ensures
        unique_ids(s.filter(f)),
    decreases s.len(),
{
    reveal(Seq::filter);
    if s.len() > 0 {
        let rest = s.drop_last();
        lemma_filter_unique(rest, f);
        if f(s.last()) {
            let fr = rest.filter(f);
            assert forall|k: int| 0 <= k < fr.len() implies fr[k].id@ != s.last().id@ by {
                assert(fr.contains(fr[k]));
                rest.lemma_filter_contains_rev(f, fr[k]);
                let j = choose|j: int| 0 <= j < rest.len() && rest[j] == fr[k];
                assert(s[j] == fr[k]);
            }
        }
    }
}

pub(crate) proof fn lemma_filter_all(s: Seq<PendingCall>, f: spec_fn(PendingCall) -> bool)
    requires
        forall|i: int| 0 <= i < s.len() ==> f(s[i]),
    ensures
        s.filter(f) == s,
    decreases s.len(),
{
    reveal(Seq::filter);
    if s.len() > 0 {
        lemma_filter_all(s.drop_last(), f);
        assert(s.drop_last().push(s.last()) =~= s);
    }
}

proof fn lemma_filter_step(s: Seq<PendingCall>, f: spec_fn(PendingCall) -> bool, i: int)
    requires
        0 <= i < s.len(),
    ensures
        s.subrange(0, i + 1).filter(f) == (if f(s[i]) {
            s.subrange(0, i).filter(f).push(s[i])
        } else {
            s.subrange(0, i).filter(f)
        }),
{
    reveal(Seq::filter);
    assert(s.subrange(0, i + 1).drop_last() =~= s.subrange(0, i));
}

/// The calls that wait for their replies, one record per id.
pub struct CorrelationTable {
    pending: Vec<PendingCall>,
}

impl CorrelationTable {
    pub closed spec fn calls(&self) -> Seq<PendingCall> {
        self.pending@
    }

    pub open spec fn wf(&self) -> bool {
        unique_ids(self.calls())
    }

    /// An empty table.
    pub fn new() -> (r: Self)
        ensures
            r.wf(),
            r.calls() == Seq::<PendingCall>::empty(),
    {
        CorrelationTable { pending: Vec::new() }
    }

    /// The number of waiting calls.
    pub fn len(&self) -> (r: usize)
        ensures
            r == self.calls().len(),
    {
        self.pending.len()
    }

    /// The position of the call with id `id`, if one waits.
    fn position(&self, id: &String) -> (r: Option<usize>)
        ensures
            r is None <==> !has_id(self.calls(), id@),
            r matches Some(i) ==> i < self.calls().len() && self.calls()[i as int].id@ == id@,
    {
        let mut i: usize = 0;
        while i < self.pending.len()
            invariant
                i <= self.pending@.len(),
                forall|k: int| 0 <= k < i ==> self.pending@[k].id@ != id@,
            decreases self.pending@.len() - i,
        {
            if self.pending[i].id == *id {
                return Some(i);
            }
            i = i + 1;
        }
        None
    }

    /// Whether a call with id `id` waits for its reply.
    pub fn is_pending(&self, id: &String) -> (r: bool)
        ensures
            r == has_id(self.calls(), id@),
    {
        self.position(id).is_some()
    }

    /// The family that answers the call with id `id`, if one waits.
    pub fn expected_of(&self, id: &String) -> (r: Option<PayloadFamily>)
        ensures
            r is None <==> !has_id(self.calls(), id@),
            r matches Some(f) ==> exists|i: int|
                0 <= i < self.calls().len() && self.calls()[i].id@ == id@ && self.calls()[i].expected
                    == f,
    {
        match self.position(id) {
            Some(i) => Some(self.pending[i].expected),
            None => None,
        }
    }

    /// Records a call that now waits for its reply; fails if a call with the
    /// same id already waits.
    pub fn register(&mut self, call: PendingCall) -> (r: Result<(), CallError>)
        requires
            old(self).wf(),
        ensures
            final(self).wf(),
            has_id(old(self).calls(), call.id@) ==> r == Err::<(), CallError>(CallError::DuplicateId)
                && final(self).calls() == old(self).calls(),
            !has_id(old(self).calls(), call.id@) ==> r is Ok && final(self).calls()
                == old(self).calls().push(call),
    {
        if self.position(&call.id).is_some() {
            return Err(CallError::DuplicateId);
        }
        self.pending.push(call);
        Ok(())
    }

    /// Removes the calls that `sel` picks and returns them, in table order.
    fn take_matching(&mut self, sel: Selector) -> (taken: Vec<PendingCall>)
        requires
            old(self).wf(),
        ensures
            final(self).wf(),
            final(self).calls() == old(self).calls().filter(keeps(sel)),
            taken@ == old(self).calls().filter(takes(sel)),
    {
        let ghost orig = self.pending@;
        let total: usize = self.pending.len();
        let mut kept: Vec<PendingCall> = Vec::new();
        let mut taken: Vec<PendingCall> = Vec::new();
        let mut i: usize = 0;
        while self.pending.len() > 0
            invariant
                i <= orig.len(),
                orig.len() == total,
                self.pending@ == orig.subrange(i as int, orig.len() as int),
                kept@ == orig.subrange(0, i as int).filter(keeps(sel)),
                taken@ == orig.subrange(0, i as int).filter(takes(sel)),
            decreases self.pending@.len(),
        {
            let p = self.pending.remove(0);
            proof {
                lemma_filter_step(orig, keeps(sel), i as int);
                lemma_filter_step(orig, takes(sel), i as int);
                assert(orig.subrange(i + 1, orig.len() as int) =~= orig.subrange(
                    i as int,
                    orig.len() as int,
                ).remove(0));
            }
            let hit = match &sel {
                Selector::Id(id) => p.id == *id,
                Selector::DueBy(now) => p.deadline <= *now,
                Selector::Plugin(plugin) => p.plugin_ref_id == *plugin,
            };
            if hit {
                taken.push(p);
            } else {
                kept.push(p);
            }
            i = i + 1;
        }
        proof {
            assert(orig.subrange(0, orig.len() as int) =~= orig);
            lemma_filter_unique(orig, keeps(sel));
        }
        self.pending = kept;
        taken
    }

    /// Settles the call that a reply answers. The call leaves the table; its
    /// caller receives the payload when its shape answers the request, and a
    /// shape-mismatch failure otherwise. A reply that no waiting call matches
    /// changes nothing.
    pub fn resolve(&mut self, reply_id: &String, payload: InternalEventPayload) -> (r: Resolution)
        requires
            old(self).wf(),
        ensures
            final(self).wf(),
            final(self).calls() == old(self).calls().filter(other_id(reply_id@)),
            !has_id(old(self).calls(), reply_id@) ==> r is Unmatched && final(self).calls()
                == old(self).calls(),
            has_id(old(self).calls(), reply_id@) ==> exists|i: int|
                0 <= i < old(self).calls().len() && old(self).calls()[i].id@ == reply_id@
                    && (r matches Resolution::Delivered(d) && d.id@ == reply_id@ && d.outcome
                    == reply_outcome(old(self).calls()[i].expected, payload)),
    {
        let ghost orig = self.pending@;
        let mut taken = self.take_matching(Selector::Id(reply_id.clone()));
        if taken.len() == 0 {
            proof {
                if has_id(orig, reply_id@) {
                    let i = choose|i: int| 0 <= i < orig.len() && orig[i].id@ == reply_id@;
                    orig.lemma_filter_contains(with_id(reply_id@), i);
                }
                lemma_filter_all(orig, other_id(reply_id@));
            }
            return Resolution::Unmatched;
        }
        let call = taken.remove(0);
        proof {
            assert(orig.filter(with_id(reply_id@)).contains(call));
            orig.lemma_filter_contains_rev(with_id(reply_id@), call);
        }
        let outcome = if reply_answers_family(call.expected, &payload) {
            CallOutcome::Reply(payload)
        } else {
            CallOutcome::Failed(CallError::ShapeMismatch)
        };
        Resolution::Delivered(Delivery { id: call.id, outcome })
    }

    /// Removes every call whose deadline is at or before `now` and returns
    /// them, in table order.
    pub(crate) fn take_due(&mut self, now: u64) -> (taken: Vec<PendingCall>)
        requires
            old(self).wf(),
        ensures
            final(self).wf(),
            final(self).calls() == old(self).calls().filter(not_due(now)),
            taken@ == old(self).calls().filter(due(now)),
    {
        self.take_matching(Selector::DueBy(now))
    }

    /// Removes every call whose deadline is at or before `now`; each of their
    /// callers receives a timeout.
    pub fn expire(&mut self, now: u64) -> (r: Vec<Delivery>)
        requires
            old(self).wf(),
        ensures
            final(self).wf(),
            final(self).calls() == old(self).calls().filter(not_due(now)),
            fails_each(r@, old(self).calls().filter(due(now)), CallError::Timeout),
    {
        let taken = self.take_matching(Selector::DueBy(now));
        fail_all(&taken, CallError::Timeout)
    }

    /// Removes every call to plugin `plugin_ref_id`; each of their callers
    /// receives a cancellation.
    pub fn cancel_all(&mut self, plugin_ref_id: &String) -> (r: Vec<Delivery>)
        requires
            old(self).wf(),
        ensures
            final(self).wf(),
            final(self).calls() == old(self).calls().filter(not_of_plugin(plugin_ref_id@)),
            fails_each(r@, old(self).calls().filter(of_plugin(plugin_ref_id@)), CallError::Cancelled),
    {
        let taken = self.take_matching(Selector::Plugin(plugin_ref_id.clone()));
        fail_all(&taken, CallError::Cancelled)
    }
}

fn reply_answers_family(expected: PayloadFamily, payload: &InternalEventPayload) -> (r: bool)
    ensures
        r == answers(expected, shape_of(*payload)),
{
    crate::catalog::reply_answers(expected, payload.shape())
}

/// One failure `err` for each of `calls`, in order.
pub(crate) fn fail_all(calls: &Vec<PendingCall>, err: CallError) -> (r: Vec<Delivery>)
    ensures
        fails_each(r@, calls@, err),
{
    let mut r: Vec<Delivery> = Vec::new();
    let mut k: usize = 0;
    while k < calls.len()
        invariant
            k <= calls@.len(),
            fails_each(r@, calls@.subrange(0, k as int), err),
        decreases calls@.len() - k,
    {
        r.push(Delivery { id: calls[k].id.clone(), outcome: CallOutcome::Failed(err) });
        k = k + 1;
    }
    proof {
        assert(calls@.subrange(0, calls@.len() as int) =~= calls@);
    }
    r
}

} // verus!
