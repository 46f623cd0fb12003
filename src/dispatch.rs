use vstd::prelude::*;
use crate::catalog::{answers, reply_answers, shape_of, PayloadFamily, PayloadRole, PayloadShape};
use crate::correlation::{
    fails_each, has_id, not_of_plugin, of_plugin, other_id, reply_outcome, unique_ids, CallError,
    CorrelationTable, Delivery, PendingCall, Resolution,
};
use crate::events::{InternalEvent, InternalEventPayload};
use crate::lifecycle::{
    is_final, may_receive_request, may_send, next_state, LifecycleEvent, PluginRecord, PluginState,
};
use crate::router::{label_views, route, WindowRouter};

verus! {

/// Whether no two records share a reference id.
pub open spec fn unique_refs(s: Seq<PluginRecord>) -> bool {
    forall|i: int, j: int|
        0 <= i < s.len() && 0 <= j < s.len() && i != j ==> s[i].ref_id@ != s[j].ref_id@
}

/// The state of plugin `r` among the records `s`, if it is known.
pub open spec fn state_in(s: Seq<PluginRecord>, r: Seq<char>) -> Option<PluginState> {
    if exists|i: int| 0 <= i < s.len() && s[i].ref_id@ == r {
        Some(s[choose|i: int| 0 <= i < s.len() && s[i].ref_id@ == r].state)
    } else {
        None
    }
}

proof fn lemma_state_at(s: Seq<PluginRecord>, i: int)
    requires
        unique_refs(s),
        0 <= i < s.len(),
    ensures
        state_in(s, s[i].ref_id@) == Some(s[i].state),
{
}

/// The state a plugin in state `s` is in after the host sent it a request
/// of `family`.
pub open spec fn state_after_send(s: PluginState, family: PayloadFamily) -> PluginState {
    match family {
        PayloadFamily::Reload => PluginState::Reloading,
        PayloadFamily::Terminate => PluginState::Terminating,
        _ => s,
    }
}

/// The family that answers the call with id `id` among `calls`, if one
/// waits.
pub open spec fn expected_in(calls: Seq<PendingCall>, id: Seq<char>) -> Option<PayloadFamily> {
    if has_id(calls, id) {
        Some(calls[choose|i: int| 0 <= i < calls.len() && calls[i].id@ == id].expected)
    } else {
        None
    }
}

/// The state a live plugin in state `s` moves to when it sends a reply of
/// shape `reply` that answers a call expecting `expected` (`None` where the
/// reply matches no call). A terminate response ends the plugin's life
/// whether or not it was asked for; a boot response that answers the boot
/// request makes it ready, any other answer to it makes it fail; an answer
/// to a reload makes it ready again, success or not.
pub open spec fn state_after_reply(
    s: PluginState,
    expected: Option<PayloadFamily>,
    reply: PayloadShape,
) -> PluginState {
    if reply.family == PayloadFamily::Terminate && reply.role == PayloadRole::Response {
        PluginState::Terminated
    } else {
        match expected {
            Some(PayloadFamily::Boot) if s == PluginState::Booting => if answers(
                PayloadFamily::Boot,
                reply,
            ) {
                PluginState::Ready
            } else {
                PluginState::Failed
            },
            Some(PayloadFamily::Reload) if s == PluginState::Reloading => PluginState::Ready,
            _ => s,
        }
    }
}

proof fn lemma_expected_at(calls: Seq<PendingCall>, i: int)
    requires
        unique_ids(calls),
        0 <= i < calls.len(),
    ensures
        expected_in(calls, calls[i].id@) == Some(calls[i].expected),
{
}

/// Whether a boot request to plugin `p` is among the timed-out `calls`.
pub open spec fn boot_timed_out(calls: Seq<PendingCall>, p: Seq<char>) -> bool {
    exists|j: int|
        0 <= j < calls.len() && calls[j].plugin_ref_id@ == p && calls[j].expected
            == PayloadFamily::Boot
}

/// What the host does with an inbound envelope.
#[derive(Debug)]
pub enum Dispatch {
    /// A reply settled the call it answers.
    Settled(Delivery),
    /// A reply that no waiting call matches, discarded.
    Unmatched,
    /// A request from the plugin, for the handler of its payload.
    Handle(InternalEvent),
    /// A request from a plugin whose state does not permit it.
    Rejected(InternalEvent),
    /// A one-way notification, for the surfaces listed.
    Notify { targets: Vec<String>, event: InternalEvent },
}

/// The result of receiving an envelope: what to do with it, and the calls
/// it cancelled by ending the plugin's life.
#[derive(Debug)]
pub struct Received {
    pub dispatch: Dispatch,
    pub cancelled: Vec<Delivery>,
}

/// The host-side state of every plugin channel: the plugins' records, the
/// calls that wait for replies, and the open UI surfaces.
pub struct Host {
    plugins: Vec<PluginRecord>,
    table: CorrelationTable,
    windows: WindowRouter,
}

impl Host {
    pub closed spec fn records(&self) -> Seq<PluginRecord> {
        self.plugins@
    }

    pub closed spec fn calls(&self) -> Seq<PendingCall> {
        self.table.calls()
    }

    pub closed spec fn surfaces(&self) -> Seq<Seq<char>> {
        self.windows.surfaces()
    }

    pub open spec fn state(&self, r: Seq<char>) -> Option<PluginState> {
        state_in(self.records(), r)
    }

    pub closed spec fn wf(&self) -> bool {
        &&& unique_refs(self.plugins@)
        &&& self.table.wf()
        &&& self.windows.wf()
    }

    /// A host with no plugin, no waiting call and no open surface.
    pub fn new() -> (r: Self)
        ensures
            r.wf(),
            r.records() == Seq::<PluginRecord>::empty(),
            r.calls() == Seq::<PendingCall>::empty(),
            r.surfaces() == Seq::<Seq<char>>::empty(),
    {
        Host { plugins: Vec::new(), table: CorrelationTable::new(), windows: WindowRouter::new() }
    }

    fn find(&self, ref_id: &String) -> (r: Option<usize>)
        requires
            self.wf(),
        ensures
            r is None <==> self.state(ref_id@) is None,
            r matches Some(i) ==> i < self.records().len() && self.records()[i as int].ref_id@
                == ref_id@ && self.state(ref_id@) == Some(self.records()[i as int].state),
    {
        let mut i: usize = 0;
        while i < self.plugins.len()
            invariant
                self.wf(),
                i <= self.plugins@.len(),
                forall|k: int| 0 <= k < i ==> self.plugins@[k].ref_id@ != ref_id@,
            decreases self.plugins@.len() - i,
        {
            if self.plugins[i].ref_id == *ref_id {
                proof {
                    lemma_state_at(self.plugins@, i as int);
                }
                return Some(i);
            }
            i = i + 1;
        }
        None
    }

    /// The state of plugin `ref_id`, if it is known.
    pub fn plugin_state(&self, ref_id: &String) -> (r: Option<PluginState>)
        requires
            self.wf(),
        ensures
            r == self.state(ref_id@),
    {
        match self.find(ref_id) {
            Some(i) => Some(self.plugins[i].state),
            None => None,
        }
    }

    /// Whether a call with id `id` waits for its reply.
    pub fn is_pending(&self, id: &String) -> (r: bool)
        ensures
            r == has_id(self.calls(), id@),
    {
        self.table.is_pending(id)
    }

    /// The number of calls that wait for their replies.
    pub fn pending_len(&self) -> (r: usize)
        ensures
            r == self.calls().len(),
    {
        self.table.len()
    }

    fn set_state(&mut self, i: usize, s: PluginState)
        requires
            old(self).wf(),
            i < old(self).records().len(),
        ensures
            final(self).wf(),
            final(self).calls() == old(self).calls(),
            final(self).surfaces() == old(self).surfaces(),
            final(self).state(old(self).records()[i as int].ref_id@) == Some(s),
            final(self).records().len() == old(self).records().len(),
            forall|k: int|
                0 <= k < old(self).records().len() ==> (#[trigger] final(self).records()[k]).ref_id
                    == old(self).records()[k].ref_id && final(self).records()[k].name == old(
                    self,
                ).records()[k].name && final(self).records()[k].version == old(
                    self,
                ).records()[k].version && final(self).records()[k].capabilities == old(
                    self,
                ).records()[k].capabilities,
            forall|r: Seq<char>|
                r != old(self).records()[i as int].ref_id@ ==> final(self).state(r) == old(
                    self,
                ).state(r),
    {
        let ghost before = self.plugins@;
        let mut rec = self.plugins.remove(i);
        rec.state = s;
        self.plugins.insert(i, rec);
        proof {
            let after = self.plugins@;
            assert(forall|k: int| 0 <= k < after.len() ==> after[k].ref_id@ == before[k].ref_id@);
            lemma_state_at(after, i as int);
            assert forall|r: Seq<char>| r != before[i as int].ref_id@ implies state_in(after, r)
                == state_in(before, r) by {
                if exists|k: int| 0 <= k < before.len() && before[k].ref_id@ == r {
                    let k = choose|k: int| 0 <= k < before.len() && before[k].ref_id@ == r;
                    lemma_state_at(before, k);
                    lemma_state_at(after, k);
                } else {
                    assert(!exists|k: int| 0 <= k < after.len() && after[k].ref_id@ == r);
                }
            }
        }
    }

    /// Starts the life of plugin `ref_id` in `Booting`. A plugin whose life
    /// has ended starts anew; one that is still alive is refused.
    pub fn add_plugin(&mut self, ref_id: String, watch: bool) -> (r: Result<(), CallError>)
        requires
            old(self).wf(),
        ensures
            final(self).wf(),
            final(self).calls() == old(self).calls(),
            final(self).surfaces() == old(self).surfaces(),
            match old(self).state(ref_id@) {
                Some(s) if !is_final(s) => r == Err::<(), CallError>(CallError::LifecycleViolation)
                    && final(self).records() == old(self).records(),
                _ => r is Ok && final(self).state(ref_id@) == Some(PluginState::Booting) && forall|
                    o: Seq<char>,
                | o != ref_id@ ==> final(self).state(o) == old(self).state(o),
            },
    {
        match self.find(&ref_id) {
            Some(i) => {
                if self.plugins[i].state.is_final() {
                    self.set_state(i, PluginState::Booting);
                    Ok(())
                } else {
                    Err(CallError::LifecycleViolation)
                }
            },
            None => {
                let ghost before = self.plugins@;
                let rec = PluginRecord {
                    ref_id,
                    name: String::new(),
                    version: String::new(),
                    capabilities: Vec::new(),
                    state: PluginState::Booting,
                    watch,
                };
                self.plugins.push(rec);
                proof {
                    let after = self.plugins@;
                    lemma_state_at(after, before.len() as int);
                    assert forall|o: Seq<char>| o != ref_id@ implies state_in(after, o) == state_in(
                        before,
                        o,
                    ) by {
                        if exists|k: int| 0 <= k < before.len() && before[k].ref_id@ == o {
                            let k = choose|k: int| 0 <= k < before.len() && before[k].ref_id@ == o;
                            lemma_state_at(before, k);
                            lemma_state_at(after, k);
                        } else {
                            assert(!exists|k: int| 0 <= k < after.len() && after[k].ref_id@ == o);
                        }
                    }
                }
                Ok(())
            },
        }
    }

    /// Records what plugin `i` declared in its boot response.
    fn declare(&mut self, i: usize, name: String, version: String, capabilities: Vec<String>)
        requires
            old(self).wf(),
            i < old(self).records().len(),
        ensures
            final(self).wf(),
            final(self).calls() == old(self).calls(),
            final(self).surfaces() == old(self).surfaces(),
            final(self).records().len() == old(self).records().len(),
            final(self).records()[i as int].name == name,
            final(self).records()[i as int].version == version,
            final(self).records()[i as int].capabilities == capabilities,
            forall|k: int|
                0 <= k < old(self).records().len() ==> (#[trigger] final(self).records()[k]).ref_id
                    == old(self).records()[k].ref_id && final(self).records()[k].state == old(
                    self,
                ).records()[k].state,
            forall|o: Seq<char>| final(self).state(o) == old(self).state(o),
    {
        let ghost before = self.plugins@;
        let mut rec = self.plugins.remove(i);
        rec.name = name;
        rec.version = version;
        rec.capabilities = capabilities;
        self.plugins.insert(i, rec);
        proof {
            let after = self.plugins@;
            assert(forall|k: int| 0 <= k < after.len() ==> after[k].ref_id == before[k].ref_id);
            assert forall|o: Seq<char>| state_in(after, o) == state_in(before, o) by {
                if exists|k: int| 0 <= k < before.len() && before[k].ref_id@ == o {
                    let k = choose|k: int| 0 <= k < before.len() && before[k].ref_id@ == o;
                    lemma_state_at(before, k);
                    lemma_state_at(after, k);
                } else {
                    assert(!exists|k: int| 0 <= k < after.len() && after[k].ref_id@ == o);
                }
            }
        }
    }

    /// Moves plugin `i` to state `s`; where `s` is final, every call that
    /// waits on the plugin fails with a cancellation, returned.
    fn enter(&mut self, i: usize, s: PluginState) -> (r: Vec<Delivery>)
        requires
            old(self).wf(),
            i < old(self).records().len(),
        ensures
            final(self).wf(),
            final(self).surfaces() == old(self).surfaces(),
            final(self).state(old(self).records()[i as int].ref_id@) == Some(s),
            final(self).records().len() == old(self).records().len(),
            forall|k: int|
                0 <= k < old(self).records().len() ==> (#[trigger] final(self).records()[k]).ref_id
                    == old(self).records()[k].ref_id && final(self).records()[k].name == old(
                    self,
                ).records()[k].name && final(self).records()[k].version == old(
                    self,
                ).records()[k].version && final(self).records()[k].capabilities == old(
                    self,
                ).records()[k].capabilities,
            forall|o: Seq<char>|
                o != old(self).records()[i as int].ref_id@ ==> final(self).state(o) == old(
                    self,
                ).state(o),
            is_final(s) ==> final(self).calls() == old(self).calls().filter(
                not_of_plugin(old(self).records()[i as int].ref_id@),
            ) && fails_each(
                r@,
                old(self).calls().filter(of_plugin(old(self).records()[i as int].ref_id@)),
                CallError::Cancelled,
            ),
            !is_final(s) ==> final(self).calls() == old(self).calls() && r@.len() == 0,
    {
        let ref_id = self.plugins[i].ref_id.clone();
        self.set_state(i, s);
        if s.is_final() {
            self.table.cancel_all(&ref_id)
        } else {
            Vec::new()
        }
    }

    /// Applies lifecycle event `e` to plugin `ref_id`. An unknown plugin, or
    /// an event that its state does not permit, is refused with nothing
    /// changed. Entering a final state fails every call that waits on the
    /// plugin with a cancellation, in the same step.
    pub fn transition(&mut self, ref_id: &String, e: LifecycleEvent) -> (r: Result<
        Vec<Delivery>,
        CallError,
    >)
        requires
            old(self).wf(),
        ensures
            final(self).wf(),
            final(self).surfaces() == old(self).surfaces(),
            match old(self).state(ref_id@) {
                Some(s) => match next_state(s, e) {
                    Some(n) => r is Ok && final(self).state(ref_id@) == Some(n) && (forall|
                        o: Seq<char>,
                    | o != ref_id@ ==> final(self).state(o) == old(self).state(o)) && (is_final(n)
                        ==> final(self).calls() == old(self).calls().filter(
                        not_of_plugin(ref_id@),
                    ) && fails_each(
                        r->Ok_0@,
                        old(self).calls().filter(of_plugin(ref_id@)),
                        CallError::Cancelled,
                    )) && (!is_final(n) ==> final(self).calls() == old(self).calls()
                        && r->Ok_0@.len() == 0),
                    None => r == Err::<Vec<Delivery>, CallError>(CallError::LifecycleViolation)
                        && final(self).records() == old(self).records() && final(self).calls()
                        == old(self).calls(),
                },
                None => r == Err::<Vec<Delivery>, CallError>(CallError::LifecycleViolation)
                    && final(self).records() == old(self).records() && final(self).calls()
                    == old(self).calls(),
            },
    {
        match self.find(ref_id) {
            None => Err(CallError::LifecycleViolation),
            Some(i) => match self.plugins[i].state.next(e) {
                None => Err(CallError::LifecycleViolation),
                Some(n) => Ok(self.enter(i, n)),
            },
        }
    }

    /// Registers an outbound request, which the caller then sends. It is
    /// refused with a lifecycle violation where the plugin is unknown or its
    /// state does not permit the request, and with a duplicate id where a
    /// call with the same id already waits; either way nothing changes.
    /// Sending a reload or a terminate request moves the plugin to
    /// `Reloading` or `Terminating`.
    pub fn send_request(&mut self, event: &InternalEvent, deadline: u64) -> (r: Result<
        (),
        CallError,
    >)
        requires
            old(self).wf(),
            shape_of(event.payload).role == PayloadRole::Request,
        ensures
            final(self).wf(),
            final(self).surfaces() == old(self).surfaces(),
            ({
                let fam = shape_of(event.payload).family;
                let p = event.plugin_ref_id@;
                match old(self).state(p) {
                    Some(s) if may_send(s, fam) => if has_id(old(self).calls(), event.id@) {
                        r == Err::<(), CallError>(CallError::DuplicateId) && final(self).records()
                            == old(self).records() && final(self).calls() == old(self).calls()
                    } else {
                        &&& r is Ok
                        &&& final(self).calls().len() == old(self).calls().len() + 1
                        &&& final(self).calls().drop_last() == old(self).calls()
                        &&& final(self).calls().last().id@ == event.id@
                        &&& final(self).calls().last().plugin_ref_id@ == p
                        &&& final(self).calls().last().expected == fam
                        &&& final(self).calls().last().deadline == deadline
                        &&& final(self).state(p) == Some(state_after_send(s, fam))
                        &&& forall|o: Seq<char>| o != p ==> final(self).state(o) == old(self).state(o)
                    },
                    _ => r == Err::<(), CallError>(CallError::LifecycleViolation) && final(self).records()
                        == old(self).records() && final(self).calls() == old(self).calls(),
                }
            }),
    {
        let fam = event.payload.shape().family;
        let i = match self.find(&event.plugin_ref_id) {
            Some(i) => i,
            None => return Err(CallError::LifecycleViolation),
        };
        let s = self.plugins[i].state;
        if !s.may_send(fam) {
            return Err(CallError::LifecycleViolation);
        }
        if self.table.is_pending(&event.id) {
            return Err(CallError::DuplicateId);
        }
        let call = PendingCall {
            id: event.id.clone(),
            plugin_ref_id: event.plugin_ref_id.clone(),
            expected: fam,
            deadline,
        };
        let ghost calls_before = self.table.calls();
        let _ = self.table.register(call);
        assert(self.table.calls().drop_last() =~= calls_before);
        match fam {
            PayloadFamily::Reload => self.set_state(i, PluginState::Reloading),
            PayloadFamily::Terminate => self.set_state(i, PluginState::Terminating),
            _ => {},
        }
        Ok(())
    }

    /// Fails every call whose deadline is at or before `now` with a timeout.
    /// A plugin still booting whose boot request timed out fails.
    pub fn expire(&mut self, now: u64) -> (r: Vec<Delivery>)
        requires
            old(self).wf(),
        ensures
            final(self).wf(),
            final(self).surfaces() == old(self).surfaces(),
            final(self).calls() == old(self).calls().filter(crate::correlation::not_due(now)),
            fails_each(r@, old(self).calls().filter(crate::correlation::due(now)), CallError::Timeout),
            forall|p: Seq<char>|
                #![trigger final(self).state(p)]
                final(self).state(p) == if old(self).state(p) == Some(PluginState::Booting)
                    && boot_timed_out(old(self).calls().filter(crate::correlation::due(now)), p) {
                    Some(PluginState::Failed)
                } else {
                    old(self).state(p)
                },
    {
        let taken = self.table.take_due(now);
        let mut k: usize = 0;
        while k < taken.len()
            invariant
                self.wf(),
                k <= taken@.len(),
                self.calls() == old(self).calls().filter(crate::correlation::not_due(now)),
                self.surfaces() == old(self).surfaces(),
                taken@ == old(self).calls().filter(crate::correlation::due(now)),
                forall|p: Seq<char>|
                    #![trigger self.state(p)]
                    self.state(p) == if old(self).state(p) == Some(PluginState::Booting)
                        && boot_timed_out(taken@.subrange(0, k as int), p) {
                        Some(PluginState::Failed)
                    } else {
                        old(self).state(p)
                    },
            decreases taken@.len() - k,
        {
            let c = &taken[k];
            if c.expected == PayloadFamily::Boot {
                if let Some(i) = self.find(&c.plugin_ref_id) {
                    if self.plugins[i].state == PluginState::Booting {
                        self.set_state(i, PluginState::Failed);
                    }
                }
            }
            proof {
                let pre = taken@.subrange(0, k as int);
                let post = taken@.subrange(0, k + 1);
                assert(post =~= pre.push(taken@[k as int]));
                assert forall|p: Seq<char>| #[trigger] boot_timed_out(post, p) == (boot_timed_out(pre, p) || (
                    taken@[k as int].plugin_ref_id@ == p && taken@[k as int].expected == PayloadFamily::Boot)) by {
                    if boot_timed_out(post, p) {
                        let j = choose|j: int| 0 <= j < post.len() && post[j].plugin_ref_id@ == p && post[j].expected == PayloadFamily::Boot;
                        if j < pre.len() {
                            assert(pre[j] == post[j]);
                        }
                    }
                    if boot_timed_out(pre, p) {
                        let j = choose|j: int| 0 <= j < pre.len() && pre[j].plugin_ref_id@ == p && pre[j].expected == PayloadFamily::Boot;
                        assert(post[j] == pre[j]);
                    }
                    if taken@[k as int].plugin_ref_id@ == p && taken@[k as int].expected == PayloadFamily::Boot {
                        assert(post[k as int] == taken@[k as int]);
                    }
                }
            }
            k = k + 1;
        }
        proof {
            assert(taken@.subrange(0, taken@.len() as int) =~= taken@);
        }
        crate::correlation::fail_all(&taken, CallError::Timeout)
    }

    /// Records that the surface `label` opened.
    pub fn open_window(&mut self, label: &str)
        requires
            old(self).wf(),
        ensures
            final(self).wf(),
            final(self).records() == old(self).records(),
            final(self).calls() == old(self).calls(),
            final(self).surfaces() == (if old(self).surfaces().contains(label@) {
                old(self).surfaces()
            } else {
                old(self).surfaces().push(label@)
            }),
    {
        self.windows.open(label);
    }

    /// Records that the surface `label` closed.
    pub fn close_window(&mut self, label: &str)
        requires
            old(self).wf(),
        ensures
            final(self).wf(),
            final(self).records() == old(self).records(),
            final(self).calls() == old(self).calls(),
            forall|x: Seq<char>|
                final(self).surfaces().contains(x) <==> old(self).surfaces().contains(x) && x
                    != label@,
    {
        self.windows.close(label);
    }

    /// Handles an envelope from a plugin.
    ///
    /// A reply (one with a `reply_id`) from a plugin that is unknown or
    /// whose life has ended matches nothing. Otherwise it settles the call it
    /// answers, if one waits, and moves the plugin as `state_after_reply`
    /// says; entering a final state cancels the plugin's other calls.
    /// A request from the plugin goes to its handler where the plugin is
    /// ready, and is rejected otherwise. A notification goes to the surfaces
    /// its window context reaches. A response without a `reply_id` matches
    /// nothing, though a terminate response still ends a live plugin.
    #[verifier::rlimit(40)]
    pub fn receive(&mut self, event: InternalEvent) -> (r: Received)
        requires
            old(self).wf(),
        ensures
            final(self).wf(),
            final(self).surfaces() == old(self).surfaces(),
            ({
                let p = event.plugin_ref_id@;
                let shape = shape_of(event.payload);
                let live = old(self).state(p) matches Some(s) && !is_final(s);
                let rid = event.reply_id;
                let after = match rid {
                    Some(x) => old(self).calls().filter(other_id(x@)),
                    None => old(self).calls(),
                };
                let expected = match rid {
                    Some(x) => expected_in(old(self).calls(), x@),
                    None => None,
                };
                &&& (!live || (rid is None && shape.role != PayloadRole::Response)) ==> {
                    &&& final(self).records() == old(self).records()
                    &&& final(self).calls() == old(self).calls()
                    &&& r.cancelled@.len() == 0
                }
                &&& (live && (rid is Some || shape.role == PayloadRole::Response)) ==> {
                    let n = state_after_reply(old(self).state(p)->Some_0, expected, shape);
                    &&& final(self).state(p) == Some(n)
                    &&& forall|o: Seq<char>| o != p ==> final(self).state(o) == old(self).state(o)
                    &&& is_final(n) ==> final(self).calls() == after.filter(not_of_plugin(p))
                        && fails_each(r.cancelled@, after.filter(of_plugin(p)), CallError::Cancelled)
                    &&& !is_final(n) ==> final(self).calls() == after && r.cancelled@.len() == 0
                }
                &&& rid is Some ==> if live && has_id(old(self).calls(), rid->Some_0@) {
                    r.dispatch matches Dispatch::Settled(d) && d.id@ == rid->Some_0@ && d.outcome
                        == reply_outcome(expected->Some_0, event.payload)
                } else {
                    r.dispatch is Unmatched
                }
                &&& (live && rid is Some && expected == Some(PayloadFamily::Boot)
                    && old(self).state(p) == Some(PluginState::Booting)) ==> match event.payload {
                    InternalEventPayload::BootResponse(b) => exists|k: int|
                        0 <= k < final(self).records().len() && final(self).records()[k].ref_id@
                            == p && final(self).records()[k].name@ == b.name@
                            && final(self).records()[k].version@ == b.version@ && label_views(
                            final(self).records()[k].capabilities@,
                        ) == label_views(b.capabilities@),
                    _ => true,
                }
                &&& rid is None && shape.role == PayloadRole::Response ==> r.dispatch is Unmatched
                &&& rid is None && shape.role == PayloadRole::Request ==> if old(self).state(p) matches Some(s)
                    && may_receive_request(s) {
                    r.dispatch == Dispatch::Handle(event)
                } else {
                    r.dispatch == Dispatch::Rejected(event)
                }
                &&& rid is None && shape.role == PayloadRole::Notification ==> (r.dispatch matches Dispatch::Notify {
                    targets,
                    event: e,
                } && e == event && label_views(targets@) == route(
                    old(self).surfaces(),
                    event.window_context,
                ))
            }),
    {
        let shape = event.payload.shape();
        let found = self.find(&event.plugin_ref_id);
        if event.reply_id.is_none() {
            if shape.role == PayloadRole::Request {
                let permitted = match found {
                    Some(i) => self.plugins[i].state.may_receive_request(),
                    None => false,
                };
                let dispatch = if permitted {
                    Dispatch::Handle(event)
                } else {
                    Dispatch::Rejected(event)
                };
                return Received { dispatch, cancelled: Vec::new() };
            }
            if shape.role == PayloadRole::Notification {
                let targets = self.windows.targets(&event.window_context);
                return Received { dispatch: Dispatch::Notify { targets, event }, cancelled: Vec::new() };
            }
        }
        let i = match found {
            Some(i) => i,
            None => return Received { dispatch: Dispatch::Unmatched, cancelled: Vec::new() },
        };
        let st = self.plugins[i].state;
        if st.is_final() {
            return Received { dispatch: Dispatch::Unmatched, cancelled: Vec::new() };
        }
        let ghost calls0 = self.table.calls();
        let ghost ev = event;
        let InternalEvent { id: _, plugin_ref_id: _, reply_id, payload, window_context: _ } = event;
        let declared = match &payload {
            InternalEventPayload::BootResponse(b) => Some(
                (b.name.clone(), b.version.clone(), b.capabilities.clone()),
            ),
            _ => None,
        };
        let (dispatch, expected) = match reply_id {
            Some(rid) => {
                let expected = self.table.expected_of(&rid);
                proof {
                    if has_id(calls0, rid@) {
                        let k = choose|k: int|
                            0 <= k < calls0.len() && calls0[k].id@ == rid@ && calls0[k].expected
                                == expected->Some_0;
                        lemma_expected_at(calls0, k);
                    }
                }
                let res = self.table.resolve(&rid, payload);
                proof {
                    if has_id(calls0, rid@) {
                        let k = choose|k: int|
                            0 <= k < calls0.len() && calls0[k].id@ == rid@ && (res matches Resolution::Delivered(d)
                                && d.id@ == rid@ && d.outcome == reply_outcome(calls0[k].expected, event.payload));
                        lemma_expected_at(calls0, k);
                    }
                }
                let dispatch = match res {
                    Resolution::Delivered(d) => Dispatch::Settled(d),
                    Resolution::Unmatched => Dispatch::Unmatched,
                };
                (dispatch, expected)
            },
            None => (Dispatch::Unmatched, None),
        };
        let cancelled = if shape.family == PayloadFamily::Terminate && shape.role
            == PayloadRole::Response {
            self.enter(i, PluginState::Terminated)
        } else {
            let boot = expected == Some(PayloadFamily::Boot) && st == PluginState::Booting;
            let reload = expected == Some(PayloadFamily::Reload) && st == PluginState::Reloading;
            if boot {
                if reply_answers(PayloadFamily::Boot, shape) {
                    if let Some((name, version, capabilities)) = declared {
                        proof {
                            if let InternalEventPayload::BootResponse(b) = ev.payload {
                                assert forall|k: int| 0 <= k < capabilities@.len() implies capabilities@[k]@
                                    == b.capabilities@[k]@ by {
                                    assert(cloned::<String>(b.capabilities@[k], capabilities@[k]));
                                }
                                assert(label_views(capabilities@) =~= label_views(b.capabilities@));
                            }
                        }
                        self.declare(i, name, version, capabilities);
                    }
                    self.enter(i, PluginState::Ready)
                } else {
                    self.enter(i, PluginState::Failed)
                }
            } else if reload {
                self.enter(i, PluginState::Ready)
            } else {
                Vec::new()
            }
        };
        Received { dispatch, cancelled }
    }
}

} // verus!
