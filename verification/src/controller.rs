//! What the controller loops share: the flags of the process, the readiness
//! barrier at which they meet before the first reconcile, the state that is
//! built once at start and handed to each of them, the policy for failed
//! reconciles, and the upkeep of the status conditions of the configuration.

use crate::api::capi_cluster::{Cluster, ClusterView};
use crate::error::Error;
use crate::meta::{condition_views, same_opt_i64, Condition, ConditionView};
use crate::multi_dispatcher::{DynamicObject, MultiDispatcher, WatchEvent, WatchSet};
use crate::runtime::{Action, ERROR_REQUEUE_SECONDS};
use crate::text::{joined, opt_text, same_opt_text, text};
use vstd::prelude::*;

verus! {

/// The flags of the process.
#[derive(Clone, Copy, Debug, Default)]
pub struct Flags {
    /// Run only the controller that installs the charts of the fleet manager.
    pub helm_install: bool,
}

/// The number of events that the dispatcher retains.
pub const DISPATCH_CAPACITY: usize = 128;

/// The number of parties that meet at the readiness barrier: the cluster
/// controller, the cluster class controller, and the configuration controller
/// with the dispatcher.
pub const BARRIER_PARTIES: usize = 3;

/// Where a readiness barrier stands.
#[derive(Clone, Copy, Debug, PartialEq, Eq, Structural)]
pub enum BarrierState {
    /// Not all parties have arrived: no loop may take reconcile events yet.
    Waiting,
    /// All parties have arrived.
    Released,
    /// A party failed before all had arrived: the process must end.
    Aborted,
}

/// The readiness barrier: a meeting point of a fixed number of parties, each
/// of which arrives when its part of the start is done.
pub struct Barrier {
    parties: usize,
    arrived: usize,
    failed: bool,
}

pub struct BarrierView {
    pub parties: nat,
    pub arrived: nat,
    pub failed: bool,
}

impl BarrierView {
    pub open spec fn state(self) -> BarrierState {
        if self.failed {
            BarrierState::Aborted
        } else if self.arrived >= self.parties {
            BarrierState::Released
        } else {
            BarrierState::Waiting
        }
    }

    /// The barrier after one more party has arrived. Arrivals at a barrier
    /// that is released or aborted change nothing.
    pub open spec fn arrive(self) -> BarrierView {
        if self.state() == BarrierState::Waiting {
            BarrierView { arrived: self.arrived + 1, ..self }
        } else {
            self
        }
    }

    /// The barrier after a party has failed. A barrier that is released stays
    /// released: the failure came after the start.
    pub open spec fn fail(self) -> BarrierView {
        if self.state() == BarrierState::Waiting {
            BarrierView { failed: true, ..self }
        } else {
            self
        }
    }

    /// The barrier after a run of arrivals (`true`) and failures (`false`).
    pub open spec fn after(self, events: Seq<bool>) -> BarrierView
        decreases events.len(),
    {
        if events.len() == 0 {
            self
        } else if events.last() {
            self.after(events.drop_last()).arrive()
        } else {
            self.after(events.drop_last()).fail()
        }
    }
}

/// The number of arrivals in a run.
pub open spec fn arrivals(events: Seq<bool>) -> nat
    decreases events.len(),
{
    if events.len() == 0 {
        0
    } else {
        arrivals(events.drop_last()) + if events.last() {
            1nat
        } else {
            0nat
        }
    }
}

impl View for Barrier {
    type V = BarrierView;

    closed spec fn view(&self) -> BarrierView {
        BarrierView { parties: self.parties as nat, arrived: self.arrived as nat, failed: self.failed }
    }
}

impl Barrier {
    /// A barrier for the given number of parties, none of which has arrived.
    pub fn new(parties: usize) -> (b: Self)
        ensures
            b@ == (BarrierView { parties: parties as nat, arrived: 0, failed: false }),
    {
        Barrier { parties, arrived: 0, failed: false }
    }

    pub fn state(&self) -> (s: BarrierState)
        ensures
            s == self@.state(),
    {
        if self.failed {
            BarrierState::Aborted
        } else if self.arrived >= self.parties {
            BarrierState::Released
        } else {
            BarrierState::Waiting
        }
    }

    /// One party arrives.
    pub fn arrive(&mut self) -> (s: BarrierState)
        ensures
            final(self)@ == old(self)@.arrive(),
            s == final(self)@.state(),
    {
        if !self.failed && self.arrived < self.parties {
            self.arrived = self.arrived + 1;
        }
        self.state()
    }

    /// One party fails.
    pub fn fail(&mut self) -> (s: BarrierState)
        ensures
            final(self)@ == old(self)@.fail(),
            s == final(self)@.state(),
    {
        if !self.failed && self.arrived < self.parties {
            self.failed = true;
        }
        self.state()
    }
}

/// No loop takes reconcile events before all parties have arrived: whatever
/// the order of arrivals and failures, a barrier is released only when as
/// many parties have arrived as it has, and never once a party failed before
/// that; and a released barrier stays released.
pub proof fn lemma_barrier_releases_when_all_arrived(parties: nat, events: Seq<bool>)
    ensures
        ({
            let start = BarrierView { parties, arrived: 0, failed: false };
            let end = start.after(events);
            &&& end.parties == parties
            &&& end.arrived <= arrivals(events)
            &&& end.arrived <= parties || parties == 0
            &&& end.state() == BarrierState::Released ==> arrivals(events) >= parties
            &&& end.state() == BarrierState::Released ==> end.arrive() == end && end.fail() == end
            &&& end.state() == BarrierState::Aborted ==> end.arrive() == end && end.fail() == end
        }),
    decreases events.len(),
{
    if events.len() > 0 {
        lemma_barrier_releases_when_all_arrived(parties, events.drop_last());
    }
}

/// What is built once when the process starts and handed to every controller
/// loop: the dispatcher, the watch set, the barrier, and what the process
/// was told about itself.
pub struct State {
    pub flags: Flags,
    pub dispatcher: MultiDispatcher<WatchEvent<DynamicObject>>,
    pub stream: WatchSet,
    /// The minor version of the API server.
    pub version: u32,
    pub barrier: Barrier,
}

impl State {
    pub fn new(version: u32, flags: Flags) -> (s: Self)
        ensures
            s.version == version,
            s.flags == flags,
            s.dispatcher@.wf(),
            s.dispatcher@.capacity == DISPATCH_CAPACITY,
            s.dispatcher@.retained.len() == 0,
            s.dispatcher@.first == 0,
            s.stream@.len() == 0,
            s.barrier@ == (BarrierView { parties: BARRIER_PARTIES as nat, arrived: 0, failed: false }),
    {
        State {
            flags,
            dispatcher: MultiDispatcher::new(DISPATCH_CAPACITY),
            stream: WatchSet::new(),
            version,
            barrier: Barrier::new(BARRIER_PARTIES),
        }
    }
}

/// A failure to count: the object and the class of the error.
pub struct Failure {
    pub instance: String,
    pub error: String,
}

/// What follows a failed reconcile: the failure is counted under the name of
/// the object and the label of the class of the error, and the object is
/// tried again after a fixed delay. No error ends a controller loop.
pub fn error_policy(name: &String, error: &Error) -> (r: (Action, Failure))
    ensures
        r.0 == Action::Requeue(ERROR_REQUEUE_SECONDS),
        r.1.instance@ == name@,
        r.1.error@ == error.class().label(),
{
    (
        Action::requeue(ERROR_REQUEUE_SECONDS),
        Failure { instance: name.clone(), error: error.metric_label() },
    )
}

/// Whether two conditions say the same, the time of the transition aside.
pub open spec fn same_observation(a: ConditionView, b: ConditionView) -> bool {
    a.message == b.message && a.reason == b.reason && a.status == b.status && a.observed_generation
        == b.observed_generation
}

/// The position of the condition of a type, where the list has one.
pub open spec fn position_of(list: Seq<ConditionView>, type_: Seq<char>) -> Option<int> {
    if exists|i: int| 0 <= i < list.len() && list[i].type_ == type_ {
        Some(
            choose|i: int|
                0 <= i < list.len() && list[i].type_ == type_ && forall|j: int|
                    0 <= j < i ==> list[j].type_ != type_,
        )
    } else {
        None
    }
}

/// The number of leading conditions of the list whose type comes before the
/// given one: the place of a condition of that type in a list that is in
/// the order of its types.
pub open spec fn rank(list: Seq<ConditionView>, type_: Seq<char>) -> int
    decreases list.len(),
{
    if list.len() == 0 {
        0
    } else if crate::text::text_before(list[0].type_, type_) {
        1 + rank(list.skip(1), type_)
    } else {
        0
    }
}

/// The list with a condition taken in: a condition of a new type joins at
/// its place in the order of the types; one of a known type replaces the
/// earlier one unless both say the same, in which case the earlier one stays
/// with its time.
pub open spec fn taken_in(list: Seq<ConditionView>, c: ConditionView) -> Seq<ConditionView> {
    match position_of(list, c.type_) {
        Some(i) => if same_observation(list[i], c) {
            list
        } else {
            list.update(i, c)
        },
        None => list.insert(rank(list, c.type_), c),
    }
}

/// The conditions with one condition per type, each taken in in its turn.
pub open spec fn unique_conditions(conditions: Seq<ConditionView>) -> Seq<ConditionView>
    decreases conditions.len(),
{
    if conditions.len() == 0 {
        Seq::empty()
    } else {
        taken_in(unique_conditions(conditions.drop_last()), conditions.last())
    }
}

/// The conditions are in the order of their types, none of which occurs twice.
pub open spec fn in_type_order(list: Seq<ConditionView>) -> bool {
    forall|i: int, j: int|
        0 <= i < j < list.len() ==> crate::text::text_before(
            (#[trigger] list[i]).type_,
            (#[trigger] list[j]).type_,
        )
}

/// What [`rank`] gives: the conditions before it have types before the
/// given one, the condition at it, if there is one, has not.
pub proof fn lemma_rank(list: Seq<ConditionView>, type_: Seq<char>)
    ensures
        0 <= rank(list, type_) <= list.len(),
        forall|j: int|
            0 <= j < rank(list, type_) ==> crate::text::text_before((#[trigger] list[j]).type_, type_),
        rank(list, type_) < list.len() ==> !crate::text::text_before(
            list[rank(list, type_)].type_,
            type_,
        ),
    decreases list.len(),
{
    if list.len() != 0 && crate::text::text_before(list[0].type_, type_) {
        let rest = list.skip(1);
        lemma_rank(rest, type_);
        assert forall|j: int| 0 <= j < rank(list, type_) implies crate::text::text_before(
            (#[trigger] list[j]).type_,
            type_,
        ) by {
            if j > 0 {
                assert(list[j] == rest[j - 1]);
            }
        }
        if rank(list, type_) < list.len() {
            assert(list[rank(list, type_)] == rest[rank(rest, type_)]);
        }
    }
}

/// Taking a condition in keeps the order of the types.
pub proof fn lemma_taken_in_keeps_order(list: Seq<ConditionView>, c: ConditionView)
    requires
        in_type_order(list),
    ensures
        in_type_order(taken_in(list, c)),
{
    let next = taken_in(list, c);
    if exists|i: int| 0 <= i < list.len() && list[i].type_ == c.type_ {
        let i = position_of(list, c.type_)->0;
        let w = choose|i: int| 0 <= i < list.len() && list[i].type_ == c.type_;
        lemma_first_of_type(list, c.type_, w);
        assert forall|a: int, b: int| 0 <= a < b < next.len() implies crate::text::text_before(
            (#[trigger] next[a]).type_,
            (#[trigger] next[b]).type_,
        ) by {
            assert(next[a].type_ == list[a].type_);
            assert(next[b].type_ == list[b].type_);
            assert(crate::text::text_before(list[a].type_, list[b].type_));
        }
    } else {
        let r = rank(list, c.type_);
        lemma_rank(list, c.type_);
        assert forall|a: int, b: int| 0 <= a < b < next.len() implies crate::text::text_before(
            (#[trigger] next[a]).type_,
            (#[trigger] next[b]).type_,
        ) by {
            if b < r {
                assert(next[a] == list[a] && next[b] == list[b]);
                assert(crate::text::text_before(list[a].type_, list[b].type_));
            } else if b == r {
                assert(next[a] == list[a]);
                assert(crate::text::text_before(list[a].type_, c.type_));
            } else {
                assert(next[b] == list[b - 1]);
                assert(list[r].type_ != c.type_);
                crate::text::lemma_text_order_total(c.type_, list[r].type_);
                if b - 1 > r {
                    assert(crate::text::text_before(list[r].type_, list[b - 1].type_));
                    crate::text::lemma_text_order_transitive(c.type_, list[r].type_, list[b - 1].type_);
                }
                if a == r {
                } else if a < r {
                    assert(next[a] == list[a]);
                    assert(crate::text::text_before(list[a].type_, c.type_));
                    crate::text::lemma_text_order_transitive(list[a].type_, c.type_, list[b - 1].type_);
                } else {
                    assert(next[a] == list[a - 1]);
                    assert(crate::text::text_before(list[a - 1].type_, list[b - 1].type_));
                }
            }
        }
    }
}

/// Among the conditions of a type there is a first one, which is what
/// [`position_of`] gives.
pub proof fn lemma_first_of_type(list: Seq<ConditionView>, type_: Seq<char>, n: int)
    requires
        0 <= n < list.len(),
        list[n].type_ == type_,
    ensures
        position_of(list, type_) matches Some(i) && 0 <= i <= n && list[i].type_ == type_,
    decreases n,
{
    if forall|j: int| 0 <= j < n ==> list[j].type_ != type_ {
        assert(0 <= n < list.len() && list[n].type_ == type_ && forall|j: int|
            0 <= j < n ==> list[j].type_ != type_);
        let i = position_of(list, type_)->0;
        if i > n {
            assert(list[n].type_ != type_);
        }
    } else {
        let j = choose|j: int| 0 <= j < n && list[j].type_ == type_;
        lemma_first_of_type(list, type_, j);
    }
}

/// The conditions of a status after its upkeep are in the order of their
/// types, one for each type.
pub proof fn lemma_unique_conditions_in_type_order(conditions: Seq<ConditionView>)
    ensures
        in_type_order(unique_conditions(conditions)),
    decreases conditions.len(),
{
    if conditions.len() != 0 {
        lemma_unique_conditions_in_type_order(conditions.drop_last());
        lemma_taken_in_keeps_order(unique_conditions(conditions.drop_last()), conditions.last());
    }
}

/// Computes [`taken_in`].
fn take_in(list: &mut Vec<Condition>, c: &Condition)
    ensures
        condition_views(final(list)@) == taken_in(condition_views(old(list)@), c@),
{
    let ghost before = condition_views(list@);
    let mut i: usize = 0;
    while i < list.len()
        invariant
            i <= list@.len(),
            condition_views(list@) == before,
            before == condition_views(old(list)@),
            forall|j: int| 0 <= j < i ==> before[j].type_ != c@.type_,
        decreases list@.len() - i,
    {
        if list[i].type_ == c.type_ {
            proof {
                assert(before[i as int] == list@[i as int]@);
                assert(before[i as int].type_ == c@.type_);
                assert(exists|j: int| 0 <= j < before.len() && before[j].type_ == c@.type_);
                let k = position_of(before, c@.type_)->0;
                if k < i {
                    assert(before[k].type_ != c@.type_);
                } else if i < k {
                    assert(before[i as int].type_ != c@.type_);
                }
                assert(position_of(before, c@.type_) == Some(i as int));
            }
            let same = list[i].message == c.message && list[i].reason == c.reason && list[i].status
                == c.status && same_opt_i64(list[i].observed_generation, c.observed_generation);
            if !same {
                list.set(i, c.duplicate());
                assert(condition_views(list@) =~= before.update(i as int, c@));
            }
            return ;
        }
        i += 1;
    }
    proof {
        assert forall|j: int| 0 <= j < before.len() implies before[j].type_ != c@.type_ by {}
    }
    let mut at: usize = 0;
    assert(before.skip(0) =~= before);
    while at < list.len() && crate::text::before(&list[at].type_, &c.type_)
        invariant
            at <= list@.len(),
            condition_views(list@) == before,
            rank(before, c@.type_) == at + rank(before.skip(at as int), c@.type_),
        decreases list@.len() - at,
    {
        proof {
            assert(before.skip(at as int)[0] == before[at as int]);
            assert(before[at as int] == list@[at as int]@);
            assert(before.skip(at as int).skip(1) =~= before.skip(at + 1));
        }
        at += 1;
    }
    proof {
        if at < list@.len() {
            assert(before.skip(at as int)[0] == before[at as int]);
            assert(before[at as int] == list@[at as int]@);
        } else {
            assert(before.skip(at as int).len() == 0);
        }
        assert(rank(before, c@.type_) == at);
    }
    list.insert(at, c.duplicate());
    assert(condition_views(list@) =~= before.insert(at as int, c@));
}

/// Computes [`unique_conditions`]: one condition per type, in the order of
/// the types.
pub fn dedup_conditions(conditions: &Vec<Condition>) -> (r: Vec<Condition>)
    ensures
        condition_views(r@) == unique_conditions(condition_views(conditions@)),
        in_type_order(condition_views(r@)),
{
    let mut r: Vec<Condition> = Vec::new();
    let mut i: usize = 0;
    assert(condition_views(conditions@).take(0) =~= Seq::empty());
    assert(condition_views(r@) =~= Seq::empty());
    while i < conditions.len()
        invariant
            i <= conditions@.len(),
            condition_views(r@) == unique_conditions(condition_views(conditions@).take(i as int)),
        decreases conditions@.len() - i,
    {
        proof {
            let next = condition_views(conditions@).take(i + 1);
            assert(next.drop_last() =~= condition_views(conditions@).take(i as int));
            assert(next.last() == conditions@[i as int]@);
        }
        take_in(&mut r, &conditions[i]);
        i += 1;
    }
    assert(condition_views(conditions@).take(i as int) =~= condition_views(conditions@));
    proof {
        lemma_unique_conditions_in_type_order(condition_views(conditions@));
    }
    r
}

/// A condition that holds: its reason is its type.
pub open spec fn held(
    type_: Seq<char>,
    message: Seq<char>,
    generation: Option<i64>,
    now: Seq<char>,
) -> ConditionView {
    ConditionView {
        type_,
        status: "True"@,
        reason: type_,
        message,
        observed_generation: generation,
        last_transition_time: now,
    }
}

/// Computes [`held`].
pub fn condition(type_: &String, message: String, generation: Option<i64>, now: &String) -> (c: Condition)
    ensures
        c@ == held(type_@, message@, generation, now@),
{
    Condition {
        type_: type_.clone(),
        status: text("True"),
        reason: type_.clone(),
        message,
        observed_generation: generation,
        last_transition_time: now.clone(),
    }
}

/// The condition that tells whether the operator is ready, after a reconcile
/// that succeeded or failed with the given description.
pub open spec fn ready(failure: Option<Seq<char>>, generation: Option<i64>, now: Seq<char>) -> ConditionView {
    ConditionView {
        type_: "Ready"@,
        status: if failure is Some {
            "False"@
        } else {
            "True"@
        },
        reason: "Ready"@,
        message: match failure {
            Some(e) => "FleetAddonConfig reconcile error: "@ + e,
            None => "Addon provider is ready"@,
        },
        observed_generation: generation,
        last_transition_time: now,
    }
}

/// Computes [`ready`].
pub fn ready_condition(failure: Option<&String>, generation: Option<i64>, now: &String) -> (c: Condition)
    ensures
        c@ == ready(
            match failure {
                Some(e) => Some(e@),
                None => None,
            },
            generation,
            now@,
        ),
{
    Condition {
        type_: text("Ready"),
        status: match failure {
            Some(_) => text("False"),
            None => text("True"),
        },
        reason: text("Ready"),
        message: match failure {
            Some(e) => joined(&text("FleetAddonConfig reconcile error: "), e),
            None => text("Addon provider is ready"),
        },
        observed_generation: generation,
        last_transition_time: now.clone(),
    }
}

/// The result of a reconcile of the installation after its status was
/// written: a failure of the reconcile stays, whatever became of the status;
/// a failure to write the status fails a reconcile that succeeded.
pub fn with_status_result(
    reconciled: Result<Action, Error>,
    status_patched: Result<(), crate::runtime::KubeError>,
) -> (r: Result<Action, Error>)
    ensures
        r == match reconciled {
            Ok(a) => match status_patched {
                Ok(()) => Ok::<Action, Error>(a),
                Err(e) => Err(Error::KubeError(e)),
            },
            Err(e) => Err(e),
        },
{
    match reconciled {
        Ok(a) => match status_patched {
            Ok(()) => Ok(a),
            Err(e) => Err(Error::KubeError(e)),
        },
        Err(e) => Err(e),
    }
}

/// Whether a cluster has to be reconciled again when a namespace mapping of
/// the given namespace changes: its class lives there.
pub open spec fn affected_by_mapping(c: ClusterView, mapping_namespace: Option<Seq<char>>) -> bool {
    c.class_ref is Some && c.cluster_class_namespace() == mapping_namespace
}

/// Whether the cluster at a position is one that a change of the mapping affects.
pub open spec fn affected_at(
    clusters: Seq<Cluster>,
    mapping_namespace: Option<Seq<char>>,
    position: int,
) -> bool {
    0 <= position < clusters.len() && affected_by_mapping(clusters[position]@, mapping_namespace)
}

/// The positions, in rising order, of the cached clusters that a change of a
/// namespace mapping affects.
pub fn clusters_for_mapping(clusters: &Vec<Cluster>, mapping_namespace: &Option<String>) -> (r: Vec<usize>)
    ensures
        forall|k: int|
            0 <= k < r@.len() ==> affected_at(clusters@, opt_text(*mapping_namespace), #[trigger] r@[k] as int),
        forall|i: int|
            #[trigger] affected_at(clusters@, opt_text(*mapping_namespace), i) ==> r@.contains(i as usize),
        forall|a: int, b: int| 0 <= a < b < r@.len() ==> #[trigger] r@[a] < #[trigger] r@[b],
{
    let mut r: Vec<usize> = Vec::new();
    let mut i: usize = 0;
    while i < clusters.len()
        invariant
            i <= clusters@.len(),
            forall|k: int|
                0 <= k < r@.len() ==> (#[trigger] r@[k]) < i && affected_at(
                    clusters@,
                    opt_text(*mapping_namespace),
                    r@[k] as int,
                ),
            forall|j: int|
                0 <= j < i && #[trigger] affected_at(clusters@, opt_text(*mapping_namespace), j)
                    ==> r@.contains(j as usize),
            forall|a: int, b: int| 0 <= a < b < r@.len() ==> #[trigger] r@[a] < #[trigger] r@[b],
        decreases clusters@.len() - i,
    {
        let affected = clusters[i].spec.proxy.topology.is_some() && same_opt_text(
            &clusters[i].cluster_class_namespace(),
            mapping_namespace,
        );
        if affected {
            let ghost before = r@;
            r.push(i);
            proof {
                assert(r@[before.len() as int] == i);
                assert forall|j: int|
                    0 <= j < i + 1 && #[trigger] affected_at(
                        clusters@,
                        opt_text(*mapping_namespace),
                        j,
                    ) implies r@.contains(j as usize) by {
                    if j < i {
                        assert(before.contains(j as usize));
                        let k = choose|k: int| 0 <= k < before.len() && before[k] == j as usize;
                        assert(r@[k] == j as usize);
                    }
                }
            }
        }
        i += 1;
    }
    r
}

} // verus!
