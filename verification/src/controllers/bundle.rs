//! The bundle contract: the desired downstream state that is derived for one
//! source object at one reconcile, and the ordered writes that bring it about.
//!
//! A sync is a list of writes, each one a call of the diff-patch engine. The
//! caller performs them one after the other and reports each outcome; the
//! first failure ends the sync. Nothing is kept between two syncs: a sync
//! that is tried again starts from the first write.

use crate::api::bundle_namespace_mapping::{BundleNamespaceMapping, BundleNamespaceMappingView};
use crate::api::comparable::{Namespace, NamespaceView, ResourceDiff};
use crate::api::fleet_cluster::{Cluster, ClusterView};
use crate::api::fleet_cluster_registration_token::{
    ClusterRegistrationToken, ClusterRegistrationTokenView,
};
use crate::api::fleet_clustergroup::{ClusterGroup, ClusterGroupView};
use crate::controllers::controller::{key_of, prepared, write_due};
use crate::controllers::store::{
    after_get_or_create, after_patch, lemma_create_not_duplicated, lemma_patch_idempotent, live_of,
    Store,
};
use crate::controllers::{GetOrCreateError, PatchError, SyncError};
use crate::runtime::ObjectKeyView;
use crate::runtime::Action;
use vstd::prelude::*;

verus! {

/// A downstream object of one of the kinds that the operator writes.
pub enum Downstream {
    Mapping(BundleNamespaceMapping),
    Cluster(Cluster),
    Token(ClusterRegistrationToken),
    Group(ClusterGroup),
    Namespace(Namespace),
}

pub enum DownstreamView {
    Mapping(BundleNamespaceMappingView),
    Cluster(ClusterView),
    Token(ClusterRegistrationTokenView),
    Group(ClusterGroupView),
    Namespace(NamespaceView),
}

impl View for Downstream {
    type V = DownstreamView;

    open spec fn view(&self) -> DownstreamView {
        match self {
            Downstream::Mapping(o) => DownstreamView::Mapping(o@),
            Downstream::Cluster(o) => DownstreamView::Cluster(o@),
            Downstream::Token(o) => DownstreamView::Token(o@),
            Downstream::Group(o) => DownstreamView::Group(o@),
            Downstream::Namespace(o) => DownstreamView::Namespace(o@),
        }
    }
}

/// Which primitive of the diff-patch engine writes an object.
pub enum WriteMode {
    /// Patch-if-different, under the given writer identity.
    Patch(String),
    /// Get-or-create: an existing object is left as it is.
    GetOrCreate,
}

pub enum WriteModeView {
    Patch(Seq<char>),
    GetOrCreate,
}

impl View for WriteMode {
    type V = WriteModeView;

    open spec fn view(&self) -> WriteModeView {
        match self {
            WriteMode::Patch(m) => WriteModeView::Patch(m@),
            WriteMode::GetOrCreate => WriteModeView::GetOrCreate,
        }
    }
}

/// One write of a sync.
pub struct Write {
    pub object: Downstream,
    pub mode: WriteMode,
}

pub struct WriteView {
    pub object: DownstreamView,
    pub mode: WriteModeView,
}

impl View for Write {
    type V = WriteView;

    open spec fn view(&self) -> WriteView {
        WriteView { object: self.object@, mode: self.mode@ }
    }
}

/// Why a write failed.
#[derive(Debug)]
pub enum WriteError {
    GetOrCreate(GetOrCreateError),
    Patch(PatchError),
}

/// What a sync asks of its caller next.
pub enum SyncStep {
    /// Perform the write with the diff-patch engine, then report its result.
    Run(Write),
    /// The sync is over, with this result.
    Finish(Result<Action, SyncError>),
}

/// What a sync does after `done` writes, the last of which ended as `last`
/// says: it ends with the wrapped error where the last write failed, asks for
/// the next write of the plan where there is one, and ends with success
/// after the last.
pub open spec fn sync_decision(
    plan: Seq<WriteView>,
    done: nat,
    last: Option<Result<Action, WriteError>>,
) -> Option<WriteView> {
    if last matches Some(Err(_)) {
        None
    } else if done < plan.len() {
        Some(plan[done as int])
    } else {
        None
    }
}

/// The bundle of a source object.
pub trait FleetBundle: View + Sized {
    /// The writes of a sync, in their order.
    spec fn plan(v: Self::V) -> Seq<WriteView>;

    /// The error with which the sync ends where the write at position
    /// `index` of the plan failed.
    spec fn failure(v: Self::V, index: int, e: WriteError) -> SyncError;

    /// One decision of the sync. `done` counts the writes that were
    /// performed, `last` is the result of the latest one.
    fn sync(&self, done: usize, last: Option<Result<Action, WriteError>>) -> (step: SyncStep)
        ensures
            match step {
                SyncStep::Run(w) => sync_decision(Self::plan(self@), done as nat, last) == Some(w@),
                SyncStep::Finish(r) => sync_decision(Self::plan(self@), done as nat, last) is None && r
                    == (match last {
                    Some(Err(e)) => Err::<Action, SyncError>(Self::failure(self@, done - 1, e)),
                    _ => Ok::<Action, SyncError>(Action::AwaitChange),
                }),
            },
    ;
}

/// The downstream objects that the API server holds, kind by kind.
pub struct World {
    pub mappings: Store<BundleNamespaceMappingView>,
    pub clusters: Store<ClusterView>,
    pub tokens: Store<ClusterRegistrationTokenView>,
    pub groups: Store<ClusterGroupView>,
    pub namespaces: Store<NamespaceView>,
}

/// The store after a write of the given mode, and the number of writes made.
pub open spec fn after_mode<R: ResourceDiff>(store: Store<R::V>, v: R::V, mode: WriteModeView) -> (
    Store<R::V>,
    nat,
) {
    match mode {
        WriteModeView::Patch(_) => after_patch::<R>(store, v),
        WriteModeView::GetOrCreate => after_get_or_create::<R>(store, v),
    }
}

impl World {
    /// The world after the engine has performed a write, and the number of
    /// calls that changed it: zero or one.
    pub open spec fn after_write(self, w: WriteView) -> (World, nat) {
        match w.object {
            DownstreamView::Mapping(v) => {
                let r = after_mode::<BundleNamespaceMapping>(self.mappings, v, w.mode);
                (World { mappings: r.0, ..self }, r.1)
            },
            DownstreamView::Cluster(v) => {
                let r = after_mode::<Cluster>(self.clusters, v, w.mode);
                (World { clusters: r.0, ..self }, r.1)
            },
            DownstreamView::Token(v) => {
                let r = after_mode::<ClusterRegistrationToken>(self.tokens, v, w.mode);
                (World { tokens: r.0, ..self }, r.1)
            },
            DownstreamView::Group(v) => {
                let r = after_mode::<ClusterGroup>(self.groups, v, w.mode);
                (World { groups: r.0, ..self }, r.1)
            },
            DownstreamView::Namespace(v) => {
                let r = after_mode::<Namespace>(self.namespaces, v, w.mode);
                (World { namespaces: r.0, ..self }, r.1)
            },
        }
    }

    /// The world after a sync in which every write went through, and the
    /// number of calls that changed it.
    pub open spec fn after_sync(self, plan: Seq<WriteView>) -> (World, nat)
        decreases plan.len(),
    {
        if plan.len() == 0 {
            (self, 0)
        } else {
            let first = self.after_write(plan[0]);
            let rest = first.0.after_sync(plan.skip(1));
            (rest.0, first.1 + rest.1)
        }
    }

    /// Whether a write has nothing to change in this world.
    pub open spec fn at_rest(self, w: WriteView) -> bool {
        self.after_write(w) == (self, 0nat)
    }
}

/// The kind and the identity that a write is addressed to.
pub open spec fn slot(w: WriteView) -> (int, ObjectKeyView) {
    match w.object {
        DownstreamView::Mapping(v) => (0int, key_of::<BundleNamespaceMapping>(v)),
        DownstreamView::Cluster(v) => (1int, key_of::<Cluster>(v)),
        DownstreamView::Token(v) => (2int, key_of::<ClusterRegistrationToken>(v)),
        DownstreamView::Group(v) => (3int, key_of::<ClusterGroup>(v)),
        DownstreamView::Namespace(v) => (4int, key_of::<Namespace>(v)),
    }
}

/// No two writes of the plan are addressed to the same object.
pub open spec fn slots_distinct(plan: Seq<WriteView>) -> bool {
    forall|i: int, j: int| 0 <= i < j < plan.len() ==> slot(#[trigger] plan[i]) != slot(#[trigger] plan[j])
}

/// A write has nothing to change when it is made again.
pub proof fn lemma_write_comes_to_rest(world: World, w: WriteView)
    ensures
        world.after_write(w).0.at_rest(w),
{
    match w.object {
        DownstreamView::Mapping(v) => lemma_mode_comes_to_rest::<BundleNamespaceMapping>(
            world.mappings,
            v,
            w.mode,
        ),
        DownstreamView::Cluster(v) => lemma_mode_comes_to_rest::<Cluster>(world.clusters, v, w.mode),
        DownstreamView::Token(v) => lemma_mode_comes_to_rest::<ClusterRegistrationToken>(
            world.tokens,
            v,
            w.mode,
        ),
        DownstreamView::Group(v) => lemma_mode_comes_to_rest::<ClusterGroup>(world.groups, v, w.mode),
        DownstreamView::Namespace(v) => lemma_mode_comes_to_rest::<Namespace>(
            world.namespaces,
            v,
            w.mode,
        ),
    }
}

proof fn lemma_mode_comes_to_rest<R: ResourceDiff>(store: Store<R::V>, v: R::V, mode: WriteModeView)
    ensures
        after_mode::<R>(after_mode::<R>(store, v, mode).0, v, mode) == (
            after_mode::<R>(store, v, mode).0,
            0nat,
        ),
{
    match mode {
        WriteModeView::Patch(_) => lemma_patch_idempotent::<R>(store, v),
        WriteModeView::GetOrCreate => lemma_create_not_duplicated::<R>(store, v),
    }
}

proof fn lemma_mode_frame<R: ResourceDiff>(
    store: Store<R::V>,
    w: R::V,
    w_mode: WriteModeView,
    u: R::V,
    u_mode: WriteModeView,
)
    requires
        key_of::<R>(w) != key_of::<R>(u),
        after_mode::<R>(store, u, u_mode) == (store, 0nat),
    ensures
        after_mode::<R>(after_mode::<R>(store, w, w_mode).0, u, u_mode) == (
            after_mode::<R>(store, w, w_mode).0,
            0nat,
        ),
{
    let next = after_mode::<R>(store, w, w_mode).0;
    assert(live_of::<R>(next, u) == live_of::<R>(store, u));
    assert(next.contains_key(key_of::<R>(u)) == store.contains_key(key_of::<R>(u)));
    match u_mode {
        WriteModeView::Patch(_) => {
            if write_due::<R>(u, live_of::<R>(store, u)) {
                assert(after_patch::<R>(store, u).1 == 1);
            }
        },
        WriteModeView::GetOrCreate => {
            if !store.contains_key(key_of::<R>(u)) {
                assert(after_get_or_create::<R>(store, u).1 == 1);
            }
        },
    }
}

/// A write to one object leaves a write to another object at rest.
pub proof fn lemma_rest_is_kept(world: World, w: WriteView, u: WriteView)
    requires
        slot(w) != slot(u),
        world.at_rest(u),
    ensures
        world.after_write(w).0.at_rest(u),
{
    match (w.object, u.object) {
        (DownstreamView::Mapping(a), DownstreamView::Mapping(b)) => lemma_mode_frame::<
            BundleNamespaceMapping,
        >(world.mappings, a, w.mode, b, u.mode),
        (DownstreamView::Cluster(a), DownstreamView::Cluster(b)) => lemma_mode_frame::<Cluster>(
            world.clusters,
            a,
            w.mode,
            b,
            u.mode,
        ),
        (DownstreamView::Token(a), DownstreamView::Token(b)) => lemma_mode_frame::<
            ClusterRegistrationToken,
        >(world.tokens, a, w.mode, b, u.mode),
        (DownstreamView::Group(a), DownstreamView::Group(b)) => lemma_mode_frame::<ClusterGroup>(
            world.groups,
            a,
            w.mode,
            b,
            u.mode,
        ),
        (DownstreamView::Namespace(a), DownstreamView::Namespace(b)) => lemma_mode_frame::<Namespace>(
            world.namespaces,
            a,
            w.mode,
            b,
            u.mode,
        ),
        _ => {},
    }
}

/// After a sync, a write that was at rest before and is addressed to none of
/// the objects of the plan is still at rest.
proof fn lemma_rest_survives_sync(world: World, plan: Seq<WriteView>, u: WriteView)
    requires
        world.at_rest(u),
        forall|i: int| 0 <= i < plan.len() ==> slot(#[trigger] plan[i]) != slot(u),
    ensures
        world.after_sync(plan).0.at_rest(u),
    decreases plan.len(),
{
    if plan.len() > 0 {
        lemma_rest_is_kept(world, plan[0], u);
        assert forall|i: int| 0 <= i < plan.skip(1).len() implies slot(#[trigger] plan.skip(1)[i])
            != slot(u) by {
            assert(plan.skip(1)[i] == plan[i + 1]);
        }
        lemma_rest_survives_sync(world.after_write(plan[0]).0, plan.skip(1), u);
    }
}

/// After a sync every write of the plan is at rest.
proof fn lemma_sync_comes_to_rest(world: World, plan: Seq<WriteView>)
    requires
        slots_distinct(plan),
    ensures
        forall|i: int| 0 <= i < plan.len() ==> world.after_sync(plan).0.at_rest(#[trigger] plan[i]),
    decreases plan.len(),
{
    if plan.len() > 0 {
        let next = world.after_write(plan[0]).0;
        let rest = plan.skip(1);
        assert(slots_distinct(rest)) by {
            assert forall|i: int, j: int| 0 <= i < j < rest.len() implies slot(#[trigger] rest[i])
                != slot(#[trigger] rest[j]) by {
                assert(rest[i] == plan[i + 1] && rest[j] == plan[j + 1]);
            }
        }
        lemma_sync_comes_to_rest(next, rest);
        lemma_write_comes_to_rest(world, plan[0]);
        assert forall|i: int| 0 <= i < rest.len() implies slot(#[trigger] rest[i]) != slot(plan[0]) by {
            assert(rest[i] == plan[i + 1]);
        }
        lemma_rest_survives_sync(next, rest, plan[0]);
        assert forall|i: int| 0 <= i < plan.len() implies world.after_sync(plan).0.at_rest(
            #[trigger] plan[i],
        ) by {
            if i > 0 {
                assert(plan[i] == rest[i - 1]);
            }
        }
    }
}

/// A sync over a world in which all its writes are at rest changes nothing.
proof fn lemma_sync_at_rest(world: World, plan: Seq<WriteView>)
    requires
        forall|i: int| 0 <= i < plan.len() ==> world.at_rest(#[trigger] plan[i]),
    ensures
        world.after_sync(plan) == (world, 0nat),
    decreases plan.len(),
{
    if plan.len() > 0 {
        assert(world.at_rest(plan[0]));
        assert forall|i: int| 0 <= i < plan.skip(1).len() implies world.at_rest(
            #[trigger] plan.skip(1)[i],
        ) by {
            assert(plan.skip(1)[i] == plan[i + 1]);
        }
        lemma_sync_at_rest(world, plan.skip(1));
    }
}

/// A sync is idempotent. Let the writes of a plan be addressed to different
/// objects. Then, whatever the API server held before, a second sync against
/// the state that the first one left makes no write at all and leaves that
/// state as it is.
pub proof fn lemma_sync_idempotent(world: World, plan: Seq<WriteView>)
    requires
        slots_distinct(plan),
    ensures
        world.after_sync(plan).0.after_sync(plan) == (world.after_sync(plan).0, 0nat),
{
    lemma_sync_comes_to_rest(world, plan);
    lemma_sync_at_rest(world.after_sync(plan).0, plan);
}

} // verus!
