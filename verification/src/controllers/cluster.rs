//! The cluster controller: the bundle that mirrors one cluster descriptor
//! downstream, its sync and its cleanup.

use crate::api::bundle_namespace_mapping::{BundleNamespaceMapping, BundleNamespaceMappingView};
use crate::api::capi_cluster::{opt_config, Cluster, ClusterView, FLEET_WORKSPACE_ANNOTATION};
use crate::api::comparable::{Namespace, NamespaceView, ResourceDiff};
use crate::api::fleet_addon_config::{FleetAddonConfig, FleetAddonConfigView};
use crate::api::fleet_cluster;
use crate::api::fleet_cluster_registration_token::{
    ClusterRegistrationToken, ClusterRegistrationTokenView,
};
use crate::api::fleet_clustergroup::{ClusterGroup, ClusterGroupView};
use crate::controllers::bundle::{
    Downstream, DownstreamView, FleetBundle, SyncStep, Write, WriteError, WriteMode,
    WriteModeView, WriteView,
};
use crate::controllers::controller::{key_of, object_key, FIELD_MANAGER};
use crate::controllers::reconcile::Cleanup;
use crate::controllers::{ClusterSyncError, SyncError};
use crate::meta::ObjectMetaView;
use crate::multi_dispatcher::{
    initial_list_strategy, strategy_for, WatchDescriptor, WatchDescriptorView, WatchScope,
    WatchScopeView, WatchSet,
};
use crate::runtime::{Action, KubeError, ObjectKey, ObjectKeyView};
use crate::string_map::StringMap;
use crate::text::{joined, text};
use vstd::prelude::*;

verus! {

/// The writer identity under which the namespace of a cluster is annotated.
pub const NAMESPACE_FIELD_MANAGER: &'static str = "namespace-addon-provider-fleet";

/// The downstream state that one cluster descriptor asks for.
pub struct FleetClusterBundle {
    pub namespace: Namespace,
    pub fleet: fleet_cluster::Cluster,
    pub fleet_group: Option<ClusterGroup>,
    pub mapping: Option<BundleNamespaceMapping>,
    pub cluster_registration_token: Option<ClusterRegistrationToken>,
    /// Whether existing downstream objects are patched, or only missing ones created.
    pub patch_enabled: bool,
}

pub struct FleetClusterBundleView {
    pub namespace: NamespaceView,
    pub fleet: fleet_cluster::ClusterView,
    pub fleet_group: Option<ClusterGroupView>,
    pub mapping: Option<BundleNamespaceMappingView>,
    pub cluster_registration_token: Option<ClusterRegistrationTokenView>,
    pub patch_enabled: bool,
}

impl View for FleetClusterBundle {
    type V = FleetClusterBundleView;

    open spec fn view(&self) -> FleetClusterBundleView {
        FleetClusterBundleView {
            namespace: self.namespace@,
            fleet: self.fleet@,
            fleet_group: match self.fleet_group {
                Some(g) => Some(g@),
                None => None,
            },
            mapping: match self.mapping {
                Some(m) => Some(m@),
                None => None,
            },
            cluster_registration_token: match self.cluster_registration_token {
                Some(t) => Some(t@),
                None => None,
            },
            patch_enabled: self.patch_enabled,
        }
    }
}

/// The writer identity under which the objects that belong to one cluster are patched.
pub open spec fn cluster_field_manager(name: Seq<char>) -> Seq<char> {
    "cluster-"@ + name + "-addon-provider-fleet"@
}

/// Zero or one write.
pub open spec fn optional(write: Option<WriteView>) -> Seq<WriteView> {
    match write {
        Some(w) => seq![w],
        None => Seq::empty(),
    }
}

impl FleetClusterBundleView {
    /// The write of the mapping: only where there is one and patching is enabled.
    pub open spec fn mapping_write(self) -> Option<WriteView> {
        if self.mapping is Some && self.patch_enabled {
            Some(
                WriteView {
                    object: DownstreamView::Mapping(self.mapping->0),
                    mode: WriteModeView::Patch(cluster_field_manager(self.fleet.metadata.name_any())),
                },
            )
        } else {
            None
        }
    }

    /// The write of the cluster: a patch where patching is enabled, else a get-or-create.
    pub open spec fn cluster_write(self) -> WriteView {
        WriteView {
            object: DownstreamView::Cluster(self.fleet),
            mode: if self.patch_enabled {
                WriteModeView::Patch(FIELD_MANAGER@)
            } else {
                WriteModeView::GetOrCreate
            },
        }
    }

    /// The write of the registration token: a get-or-create where there is one.
    pub open spec fn token_write(self) -> Option<WriteView> {
        match self.cluster_registration_token {
            Some(t) => Some(
                WriteView { object: DownstreamView::Token(t), mode: WriteModeView::GetOrCreate },
            ),
            None => None,
        }
    }

    /// The write of the group: only where there is one and patching is enabled.
    pub open spec fn group_write(self) -> Option<WriteView> {
        if self.fleet_group is Some && self.patch_enabled {
            Some(
                WriteView {
                    object: DownstreamView::Group(self.fleet_group->0),
                    mode: WriteModeView::Patch(cluster_field_manager(self.fleet.metadata.name_any())),
                },
            )
        } else {
            None
        }
    }

    /// The write of the namespace, which makes sure of the workspace annotation.
    pub open spec fn namespace_write(self) -> WriteView {
        WriteView {
            object: DownstreamView::Namespace(self.namespace),
            mode: WriteModeView::Patch(NAMESPACE_FIELD_MANAGER@),
        }
    }

    /// The writes of a sync, in their order: mapping, cluster, registration
    /// token, group, namespace.
    pub open spec fn writes(self) -> Seq<WriteView> {
        optional(self.mapping_write()) + seq![self.cluster_write()] + optional(self.token_write())
            + optional(self.group_write()) + seq![self.namespace_write()]
    }
}

/// The error of a failed write of a cluster sync, by the primitive and the
/// object that failed. A failed patch of an object that the caller does not
/// name counts as a patch of the cluster.
pub open spec fn cluster_sync_failure(write: Option<WriteView>, e: WriteError) -> ClusterSyncError {
    match e {
        WriteError::GetOrCreate(e) => ClusterSyncError::GetOrCreateError(e),
        WriteError::Patch(e) => match write {
            Some(w) => match w.object {
                DownstreamView::Mapping(_) => ClusterSyncError::BundleNamespaceMappingError(e),
                DownstreamView::Group(_) => ClusterSyncError::GroupPatchError(e),
                DownstreamView::Namespace(_) => ClusterSyncError::NamespacePatchError(e),
                _ => ClusterSyncError::PatchError(e),
            },
            None => ClusterSyncError::PatchError(e),
        },
    }
}

/// The view of an optional write.
pub open spec fn opt_write(write: Option<&Write>) -> Option<WriteView> {
    match write {
        Some(w) => Some(w@),
        None => None,
    }
}

/// Computes [`cluster_sync_failure`].
fn wrap_failure(write: Option<&Write>, e: WriteError) -> (r: ClusterSyncError)
    ensures
        r == cluster_sync_failure(opt_write(write), e),
{
    match e {
        WriteError::GetOrCreate(e) => ClusterSyncError::GetOrCreateError(e),
        WriteError::Patch(e) => match write {
            Some(w) => match &w.object {
                Downstream::Mapping(_) => ClusterSyncError::BundleNamespaceMappingError(e),
                Downstream::Group(_) => ClusterSyncError::GroupPatchError(e),
                Downstream::Namespace(_) => ClusterSyncError::NamespacePatchError(e),
                _ => ClusterSyncError::PatchError(e),
            },
            None => ClusterSyncError::PatchError(e),
        },
    }
}

/// The entry of a plan at a position, where the plan has one there.
pub open spec fn entry(plan: Seq<WriteView>, index: int) -> Option<WriteView> {
    if 0 <= index < plan.len() {
        Some(plan[index])
    } else {
        None
    }
}

/// The views of a list of writes.
pub open spec fn write_views(v: Seq<Write>) -> Seq<WriteView> {
    Seq::new(v.len(), |i: int| v[i]@)
}

impl FleetClusterBundle {
    /// The writer identity under which the objects that belong to the cluster are patched.
    fn field_manager(&self) -> (r: String)
        ensures
            r@ == cluster_field_manager(self@.fleet.metadata.name_any()),
    {
        joined(
            &joined(&text("cluster-"), &self.fleet.metadata.name_any()),
            &text("-addon-provider-fleet"),
        )
    }

    /// Computes [`FleetClusterBundleView::writes`].
    pub fn writes(&self) -> (r: Vec<Write>)
        ensures
            write_views(r@) == self@.writes(),
    {
        let mut r: Vec<Write> = Vec::new();
        match &self.mapping {
            Some(m) => {
                if self.patch_enabled {
                    r.push(
                        Write {
                            object: Downstream::Mapping(m.duplicate()),
                            mode: WriteMode::Patch(self.field_manager()),
                        },
                    );
                }
            },
            None => {},
        }
        r.push(
            Write {
                object: Downstream::Cluster(self.fleet.duplicate()),
                mode: if self.patch_enabled {
                    WriteMode::Patch(text(FIELD_MANAGER))
                } else {
                    WriteMode::GetOrCreate
                },
            },
        );
        match &self.cluster_registration_token {
            Some(t) => {
                r.push(Write { object: Downstream::Token(t.duplicate()), mode: WriteMode::GetOrCreate });
            },
            None => {},
        }
        match &self.fleet_group {
            Some(g) => {
                if self.patch_enabled {
                    r.push(
                        Write {
                            object: Downstream::Group(g.duplicate()),
                            mode: WriteMode::Patch(self.field_manager()),
                        },
                    );
                }
            },
            None => {},
        }
        r.push(
            Write {
                object: Downstream::Namespace(self.namespace.duplicate()),
                mode: WriteMode::Patch(text(NAMESPACE_FIELD_MANAGER)),
            },
        );
        assert(write_views(r@) =~= self@.writes());
        r
    }

    /// Takes the template values that were resolved for the cluster, as
    /// decoded text per key: none leaves the cluster as it is, values are
    /// set, and values that did not decode end the sync.
    pub fn set_template_values(&mut self, resolved: Option<Result<StringMap, String>>) -> (r: Result<
        (),
        ClusterSyncError,
    >)
        ensures
            match resolved {
                None => r is Ok && final(self)@ == old(self)@,
                Some(Ok(values)) => r is Ok && final(self)@ == (FleetClusterBundleView {
                    fleet: fleet_cluster::ClusterView {
                        spec: fleet_cluster::ClusterSpecView {
                            template_values: Some(values@),
                            ..old(self)@.fleet.spec
                        },
                        ..old(self)@.fleet
                    },
                    ..old(self)@
                }),
                Some(Err(e)) => r == Err::<(), ClusterSyncError>(ClusterSyncError::ClusterEncodeError(e))
                    && final(self)@ == old(self)@,
            },
    {
        match resolved {
            None => Ok(()),
            Some(Ok(values)) => {
                self.fleet.spec.template_values = Some(values);
                Ok(())
            },
            Some(Err(e)) => Err(ClusterSyncError::ClusterEncodeError(e)),
        }
    }
}

impl FleetBundle for FleetClusterBundle {
    open spec fn plan(v: FleetClusterBundleView) -> Seq<WriteView> {
        v.writes()
    }

    open spec fn failure(v: FleetClusterBundleView, index: int, e: WriteError) -> SyncError {
        SyncError::ClusterSync(cluster_sync_failure(entry(v.writes(), index), e))
    }

    fn sync(&self, done: usize, last: Option<Result<Action, WriteError>>) -> (step: SyncStep) {
        let mut writes = self.writes();
        match last {
            Some(Err(e)) => {
                let failed = if 0 < done && done <= writes.len() {
                    Some(&writes[done - 1])
                } else {
                    None
                };
                SyncStep::Finish(Err(SyncError::ClusterSync(wrap_failure(failed, e))))
            },
            _ => {
                if done < writes.len() {
                    SyncStep::Run(writes.swap_remove(done))
                } else {
                    SyncStep::Finish(Ok(Action::AwaitChange))
                }
            },
        }
    }
}

/// The writes of a cluster sync are addressed to objects of different kinds.
pub proof fn lemma_cluster_writes_distinct(bundle: FleetClusterBundleView)
    ensures
        crate::controllers::bundle::slots_distinct(bundle.writes()),
{
    let plan = bundle.writes();
    let a = optional(bundle.mapping_write());
    let b = seq![bundle.cluster_write()];
    let c = optional(bundle.token_write());
    let d = optional(bundle.group_write());
    let e = seq![bundle.namespace_write()];
    assert(plan == a + b + c + d + e);
    assert forall|i: int| 0 <= i < plan.len() implies {
        let t = crate::controllers::bundle::slot(#[trigger] plan[i]).0;
        if i < a.len() {
            t == 0
        } else if i < a.len() + 1 {
            t == 1
        } else if i < a.len() + 1 + c.len() {
            t == 2
        } else if i < a.len() + 1 + c.len() + d.len() {
            t == 3
        } else {
            t == 4
        }
    } by {
        if i < a.len() {
            assert(plan[i] == a[i]);
        } else if i < a.len() + 1 {
            assert(plan[i] == b[i - a.len()]);
        } else if i < a.len() + 1 + c.len() {
            assert(plan[i] == c[i - a.len() - 1]);
        } else if i < a.len() + 1 + c.len() + d.len() {
            assert(plan[i] == d[i - a.len() - 1 - c.len()]);
        } else {
            assert(plan[i] == e[i - a.len() - 1 - c.len() - d.len()]);
        }
    }
    assert(a.len() <= 1 && c.len() <= 1 && d.len() <= 1);
}

/// The sync of a cluster bundle is idempotent: whatever the API server held
/// before, a second sync of the same bundle against the state that the first
/// one left makes no write.
pub proof fn lemma_cluster_sync_idempotent(world: crate::controllers::bundle::World, bundle: FleetClusterBundleView)
    ensures
        world.after_sync(bundle.writes()).0.after_sync(bundle.writes()) == (
            world.after_sync(bundle.writes()).0,
            0nat,
        ),
{
    lemma_cluster_writes_distinct(bundle);
    crate::controllers::bundle::lemma_sync_idempotent(world, bundle.writes());
}

/// What the cleanup of a cluster bundle asks of its caller next.
pub enum CleanupStep {
    /// List the cluster descriptors of the namespace, then report them.
    ListClusters { namespace: String },
    /// Look up whether the mapping exists, then report it.
    LookupMapping(ObjectKey),
    /// Delete the mapping, then report how that went.
    DeleteMapping(ObjectKey),
    /// List at most `limit` cluster descriptors of the namespace under the
    /// field selector, then report whether there is none.
    ListOthers { namespace: String, field_selector: String, limit: u32 },
    /// Remove the annotation from the namespace by a merge patch, then report
    /// how that went.
    RemoveAnnotation { namespace: String, annotation: String },
    /// The cleanup is over, with this result.
    Finish(Result<Cleanup, SyncError>),
}

pub enum CleanupStepView {
    ListClusters { namespace: Seq<char> },
    LookupMapping(ObjectKeyView),
    DeleteMapping(ObjectKeyView),
    ListOthers { namespace: Seq<char>, field_selector: Seq<char>, limit: u32 },
    RemoveAnnotation { namespace: Seq<char>, annotation: Seq<char> },
    Finish(Result<Cleanup, SyncError>),
}

impl View for CleanupStep {
    type V = CleanupStepView;

    open spec fn view(&self) -> CleanupStepView {
        match self {
            CleanupStep::ListClusters { namespace } => CleanupStepView::ListClusters {
                namespace: namespace@,
            },
            CleanupStep::LookupMapping(k) => CleanupStepView::LookupMapping(k@),
            CleanupStep::DeleteMapping(k) => CleanupStepView::DeleteMapping(k@),
            CleanupStep::ListOthers { namespace, field_selector, limit } => CleanupStepView::ListOthers {
                namespace: namespace@,
                field_selector: field_selector@,
                limit: *limit,
            },
            CleanupStep::RemoveAnnotation { namespace, annotation } => CleanupStepView::RemoveAnnotation {
                namespace: namespace@,
                annotation: annotation@,
            },
            CleanupStep::Finish(r) => CleanupStepView::Finish(*r),
        }
    }
}

/// The views of a list of cluster descriptors.
pub open spec fn cluster_views(v: Seq<Cluster>) -> Seq<ClusterView> {
    Seq::new(v.len(), |i: int| v[i]@)
}

impl FleetClusterBundleView {
    /// The namespace in which the downstream cluster lives.
    pub open spec fn cluster_namespace(self) -> Seq<char> {
        match self.fleet.metadata.namespace {
            Some(n) => n,
            None => "default"@,
        }
    }

    /// Whether a cluster descriptor still needs the mapping: it is another
    /// cluster than the one of the bundle, it is not being deleted, and its
    /// class lives in the namespace of the mapping.
    pub open spec fn referenced_by(self, c: ClusterView) -> bool {
        &&& self.mapping is Some
        &&& c.cluster_class_namespace() == self.mapping->0.metadata.namespace
        &&& c.metadata.name_any() != self.fleet.metadata.name_any()
        &&& c.metadata.deletion_timestamp is None
    }

    /// Whether one of the cluster descriptors still needs the mapping.
    pub open spec fn referenced_by_any(self, clusters: Seq<ClusterView>) -> bool {
        exists|i: int| 0 <= i < clusters.len() && #[trigger] self.referenced_by(clusters[i])
    }

    /// The step that asks whether the namespace holds other clusters.
    pub open spec fn list_others(self) -> CleanupStepView {
        CleanupStepView::ListOthers {
            namespace: self.cluster_namespace(),
            field_selector: "metadata.name!="@ + self.fleet.metadata.name_any(),
            limit: 1,
        }
    }

    /// The first step of a cleanup: with a mapping, the clusters of its
    /// namespace are listed; without one, the cleanup goes on to the namespace.
    pub open spec fn cleanup(self) -> CleanupStepView {
        match self.mapping {
            Some(m) => CleanupStepView::ListClusters {
                namespace: match m.metadata.namespace {
                    Some(n) => n,
                    None => Seq::empty(),
                },
            },
            None => self.list_others(),
        }
    }

    /// The step after the clusters were listed. While a live cluster still
    /// refers to the mapping, the cleanup is deferred and nothing is deleted.
    pub open spec fn cleanup_listed(self, clusters: Result<Seq<ClusterView>, KubeError>) -> CleanupStepView {
        match clusters {
            Err(e) => CleanupStepView::Finish(Err(SyncError::BundleNsMappingDelete(e))),
            Ok(cs) => if self.referenced_by_any(cs) {
                CleanupStepView::Finish(Ok(Cleanup::Deferred(Action::AwaitChange)))
            } else {
                match self.mapping {
                    Some(m) => CleanupStepView::LookupMapping(key_of::<BundleNamespaceMapping>(m)),
                    None => self.list_others(),
                }
            },
        }
    }

    /// The step after the mapping was looked up: it is deleted where it exists.
    pub open spec fn cleanup_looked_up(self, found: Result<bool, KubeError>) -> CleanupStepView {
        match found {
            Err(e) => CleanupStepView::Finish(Err(SyncError::BundleNsMappingDelete(e))),
            Ok(true) => match self.mapping {
                Some(m) => CleanupStepView::DeleteMapping(key_of::<BundleNamespaceMapping>(m)),
                None => self.list_others(),
            },
            Ok(false) => self.list_others(),
        }
    }

    /// The step after the mapping was deleted.
    pub open spec fn cleanup_deleted(self, deleted: Result<(), KubeError>) -> CleanupStepView {
        match deleted {
            Err(e) => CleanupStepView::Finish(Err(SyncError::BundleNsMappingDelete(e))),
            Ok(()) => self.list_others(),
        }
    }

    /// The step after the other clusters of the namespace were listed: where
    /// there is none, the namespace loses its workspace annotation.
    pub open spec fn cleanup_others(self, none_left: Result<bool, KubeError>) -> CleanupStepView {
        match none_left {
            Err(e) => CleanupStepView::Finish(Err(SyncError::BundleNsMappingDelete(e))),
            Ok(true) => CleanupStepView::RemoveAnnotation {
                namespace: self.cluster_namespace(),
                annotation: FLEET_WORKSPACE_ANNOTATION@,
            },
            Ok(false) => CleanupStepView::Finish(Ok(Cleanup::Done(Action::AwaitChange))),
        }
    }
}

/// The last step of a cleanup, after the annotation was removed.
pub open spec fn cleanup_annotated(removed: Result<(), KubeError>) -> Result<Cleanup, SyncError> {
    match removed {
        Err(e) => Err(SyncError::BundleNsMappingDelete(e)),
        Ok(()) => Ok(Cleanup::Done(Action::AwaitChange)),
    }
}

/// The view of listed cluster descriptors, or of the failure to list them.
pub open spec fn listed_view(clusters: Result<Vec<Cluster>, KubeError>) -> Result<
    Seq<ClusterView>,
    KubeError,
> {
    match clusters {
        Ok(cs) => Ok(cluster_views(cs@)),
        Err(e) => Err(e),
    }
}

impl FleetClusterBundle {
    fn cluster_namespace(&self) -> (r: String)
        ensures
            r@ == self@.cluster_namespace(),
    {
        match &self.fleet.metadata.namespace {
            Some(n) => n.clone(),
            None => text("default"),
        }
    }

    fn list_others(&self) -> (step: CleanupStep)
        ensures
            step@ == self@.list_others(),
    {
        CleanupStep::ListOthers {
            namespace: self.cluster_namespace(),
            field_selector: joined(&text("metadata.name!="), &self.fleet.metadata.name_any()),
            limit: 1,
        }
    }

    fn referenced_by(&self, c: &Cluster) -> (b: bool)
        ensures
            b == self@.referenced_by(c@),
    {
        match &self.mapping {
            None => false,
            Some(m) => {
                crate::text::same_opt_text(&c.cluster_class_namespace(), &m.metadata.namespace)
                    && c.metadata.name_any() != self.fleet.metadata.name_any()
                    && c.metadata.deletion_timestamp.is_none()
            },
        }
    }

    /// Computes [`FleetClusterBundleView::cleanup`].
    pub fn cleanup(&self) -> (step: CleanupStep)
        ensures
            step@ == self@.cleanup(),
    {
        match &self.mapping {
            Some(m) => CleanupStep::ListClusters {
                namespace: match &m.metadata.namespace {
                    Some(n) => n.clone(),
                    None => String::new(),
                },
            },
            None => self.list_others(),
        }
    }

    /// Computes [`FleetClusterBundleView::cleanup_listed`].
    pub fn cleanup_listed(&self, clusters: Result<Vec<Cluster>, KubeError>) -> (step: CleanupStep)
        ensures
            step@ == self@.cleanup_listed(listed_view(clusters)),
    {
        match clusters {
            Err(e) => CleanupStep::Finish(Err(SyncError::BundleNsMappingDelete(e))),
            Ok(cs) => {
                let mut i: usize = 0;
                while i < cs.len()
                    invariant
                        i <= cs@.len(),
                        clusters == Ok::<Vec<Cluster>, KubeError>(cs),
                        forall|j: int| 0 <= j < i ==> !#[trigger] self@.referenced_by(cluster_views(cs@)[j]),
                    decreases cs@.len() - i,
                {
                    if self.referenced_by(&cs[i]) {
                        assert(self@.referenced_by(cluster_views(cs@)[i as int]));
                        return CleanupStep::Finish(Ok(Cleanup::Deferred(Action::AwaitChange)));
                    }
                    i += 1;
                }
                match &self.mapping {
                    Some(m) => CleanupStep::LookupMapping(object_key(m)),
                    None => self.list_others(),
                }
            },
        }
    }

    /// Computes [`FleetClusterBundleView::cleanup_looked_up`].
    pub fn cleanup_looked_up(&self, found: Result<bool, KubeError>) -> (step: CleanupStep)
        ensures
            step@ == self@.cleanup_looked_up(found),
    {
        match found {
            Err(e) => CleanupStep::Finish(Err(SyncError::BundleNsMappingDelete(e))),
            Ok(true) => match &self.mapping {
                Some(m) => CleanupStep::DeleteMapping(object_key(m)),
                None => self.list_others(),
            },
            Ok(false) => self.list_others(),
        }
    }

    /// Computes [`FleetClusterBundleView::cleanup_deleted`].
    pub fn cleanup_deleted(&self, deleted: Result<(), KubeError>) -> (step: CleanupStep)
        ensures
            step@ == self@.cleanup_deleted(deleted),
    {
        match deleted {
            Err(e) => CleanupStep::Finish(Err(SyncError::BundleNsMappingDelete(e))),
            Ok(()) => self.list_others(),
        }
    }

    /// Computes [`FleetClusterBundleView::cleanup_others`].
    pub fn cleanup_others(&self, none_left: Result<bool, KubeError>) -> (step: CleanupStep)
        ensures
            step@ == self@.cleanup_others(none_left),
    {
        match none_left {
            Err(e) => CleanupStep::Finish(Err(SyncError::BundleNsMappingDelete(e))),
            Ok(true) => CleanupStep::RemoveAnnotation {
                namespace: self.cluster_namespace(),
                annotation: text(FLEET_WORKSPACE_ANNOTATION),
            },
            Ok(false) => CleanupStep::Finish(Ok(Cleanup::Done(Action::AwaitChange))),
        }
    }

    /// Computes [`cleanup_annotated`].
    pub fn cleanup_annotated(&self, removed: Result<(), KubeError>) -> (r: Result<Cleanup, SyncError>)
        ensures
            r == cleanup_annotated(removed),
    {
        match removed {
            Err(e) => Err(SyncError::BundleNsMappingDelete(e)),
            Ok(()) => Ok(Cleanup::Done(Action::AwaitChange)),
        }
    }
}

/// While another live cluster refers to the mapping of a bundle, the cleanup
/// of the bundle asks for no delete: it is deferred, and the finalizer of the
/// source object stays with it.
pub proof fn lemma_referenced_mapping_is_kept(bundle: FleetClusterBundleView, clusters: Seq<ClusterView>, i: int)
    requires
        0 <= i < clusters.len(),
        bundle.referenced_by(clusters[i]),
    ensures
        bundle.cleanup_listed(Ok(clusters)) == CleanupStepView::Finish(
            Ok(Cleanup::Deferred(Action::AwaitChange)),
        ),
{
}

impl ClusterView {
    /// The bundle of a cluster descriptor: none while clusters are not
    /// mirrored or the control plane of the cluster is not up.
    pub open spec fn to_bundle(self, config: FleetAddonConfigView, client_id: Seq<char>) -> Option<
        FleetClusterBundleView,
    > {
        if config.cluster_operations_enabled() && self.cluster_ready() {
            Some(
                FleetClusterBundleView {
                    namespace: self.to_namespace(),
                    fleet: self.to_cluster(config.cluster, client_id),
                    fleet_group: self.to_group(config.cluster),
                    mapping: self.to_bundle_ns_mapping(config.cluster),
                    cluster_registration_token: self.to_cluster_registration_token(config.cluster),
                    patch_enabled: config.cluster_patch_enabled(),
                },
            )
        } else {
            None
        }
    }
}

impl Cluster {
    /// Computes [`ClusterView::to_bundle`] for a given client identity.
    pub fn to_bundle_with(&self, config: &FleetAddonConfig, client_id: String) -> (r: Option<
        FleetClusterBundle,
    >)
        ensures
            match r {
                Some(b) => self@.to_bundle(config@, client_id@) == Some(b@),
                None => self@.to_bundle(config@, client_id@) is None,
            },
    {
        if !config.cluster_operations_enabled() {
            return None;
        }
        if !self.cluster_ready() {
            return None;
        }
        let cluster_config = config.spec.cluster.as_ref();
        assert(opt_config(cluster_config) == config@.cluster);
        Some(
            FleetClusterBundle {
                fleet: self.to_cluster_with(cluster_config, client_id),
                fleet_group: self.to_group(cluster_config),
                mapping: self.to_bundle_ns_mapping(cluster_config),
                cluster_registration_token: self.to_cluster_registration_token(cluster_config),
                patch_enabled: config.cluster_patch_enabled(),
                namespace: self.to_namespace(),
            },
        )
    }

    /// The bundle of the cluster. A client identity is drawn at random where
    /// a bundle is derived and the agent connects by itself, and only there.
    pub fn to_bundle(&self, config: &FleetAddonConfig) -> (r: Option<FleetClusterBundle>)
        ensures
            if crate::api::capi_cluster::carries_client_id(config@.cluster) && self@.to_bundle(
                config@,
                Seq::empty(),
            ) is Some {
                r is Some && exists|id: Seq<char>|
                    crate::api::capi_cluster::is_client_id(id) && #[trigger] self@.to_bundle(
                        config@,
                        id,
                    ) == Some(r->0@)
            } else {
                match r {
                    Some(b) => self@.to_bundle(config@, Seq::empty()) == Some(b@),
                    None => self@.to_bundle(config@, Seq::empty()) is None,
                }
            },
    {
        if !config.cluster_operations_enabled() || !self.cluster_ready() {
            return None;
        }
        let cluster_config = config.spec.cluster.as_ref();
        assert(opt_config(cluster_config) == config@.cluster);
        let fleet = self.to_cluster(cluster_config);
        let ghost drawn = if crate::api::capi_cluster::carries_client_id(config@.cluster) {
            choose|id: Seq<char>|
                crate::api::capi_cluster::is_client_id(id) && fleet@ == #[trigger] self@.to_cluster(
                    opt_config(cluster_config),
                    id,
                )
        } else {
            Seq::empty()
        };
        let b = FleetClusterBundle {
            fleet,
            fleet_group: self.to_group(cluster_config),
            mapping: self.to_bundle_ns_mapping(cluster_config),
            cluster_registration_token: self.to_cluster_registration_token(cluster_config),
            patch_enabled: config.cluster_patch_enabled(),
            namespace: self.to_namespace(),
        };
        assert(self@.to_bundle(config@, drawn) == Some(b@));
        Some(b)
    }

    /// The watch on the cluster descriptors of one namespace, for an API
    /// server of the given minor version.
    pub open spec fn namespace_watch(namespace: Seq<char>, version: u32) -> WatchDescriptorView {
        WatchDescriptorView {
            resource: ClusterView::kind_of(),
            scope: WatchScopeView::Namespace(namespace),
            label_selector: None,
            field_selector: None,
            strategy: strategy_for(version),
        }
    }

    /// Adds the watch on the cluster descriptors of a namespace that was
    /// newly seen. The watches that are there stay.
    pub fn add_namespace_dynamic_watch(ns: &Namespace, watches: &mut WatchSet, version: u32) -> (r: Action)
        ensures
            r == Action::AwaitChange,
            final(watches)@ == old(watches)@.push(
                Self::namespace_watch(ns@.metadata.name_any(), version),
            ),
    {
        watches.push(
            WatchDescriptor {
                resource: Cluster::type_meta(),
                scope: WatchScope::Namespace(ns.metadata.name_any()),
                label_selector: None,
                field_selector: None,
                strategy: initial_list_strategy(version),
            },
        );
        Action::AwaitChange
    }
}

/// Where an object that a cluster refers to is looked up.
pub struct DynamicLookup {
    pub group: String,
    pub version: String,
    pub kind: String,
    pub namespace: String,
    pub name: String,
}

pub struct DynamicLookupView {
    pub group: Seq<char>,
    pub version: Seq<char>,
    pub kind: Seq<char>,
    pub namespace: Seq<char>,
    pub name: Seq<char>,
}

impl View for DynamicLookup {
    type V = DynamicLookupView;

    open spec fn view(&self) -> DynamicLookupView {
        DynamicLookupView {
            group: self.group@,
            version: self.version@,
            kind: self.kind@,
            namespace: self.namespace@,
            name: self.name@,
        }
    }
}

/// The lookup for a reference that names API version, kind, namespace and
/// name. The API version is a group and a version with a slash between
/// them, or a version alone, which stands for the empty group.
pub open spec fn lookup_of(reference: crate::meta::ObjectReferenceView) -> Option<DynamicLookupView> {
    if reference.api_version is Some && reference.kind is Some && reference.namespace is Some
        && reference.name is Some {
        let (group, version) = match crate::text::split_once_at(reference.api_version->0, '/') {
            Some(parts) => parts,
            None => (Seq::empty(), reference.api_version->0),
        };
        Some(
            DynamicLookupView {
                group,
                version,
                kind: reference.kind->0,
                namespace: reference.namespace->0,
                name: reference.name->0,
            },
        )
    } else {
        None
    }
}

/// Computes [`lookup_of`].
pub fn lookup_for(reference: &crate::meta::ObjectReference) -> (r: Option<DynamicLookup>)
    ensures
        match r {
            Some(l) => lookup_of(reference@) == Some(l@),
            None => lookup_of(reference@) is None,
        },
{
    match (&reference.api_version, &reference.kind, &reference.namespace, &reference.name) {
        (Some(api_version), Some(kind), Some(namespace), Some(name)) => {
            let (group, version) = match crate::text::split_once(api_version, '/') {
                Some(parts) => parts,
                None => (String::new(), api_version.clone()),
            };
            Some(
                DynamicLookup {
                    group,
                    version,
                    kind: kind.clone(),
                    namespace: namespace.clone(),
                    name: name.clone(),
                },
            )
        },
        _ => None,
    }
}

/// The objects from which the template values of a cluster are taken: its
/// control plane and its infrastructure cluster.
pub struct TemplateSources {
    pub control_plane_ref: Option<crate::meta::ObjectReference>,
    pub infrastructure_ref: Option<crate::meta::ObjectReference>,
}

impl TemplateSources {
    pub fn new(cluster: &Cluster) -> (r: Self)
        ensures
            r.control_plane() == cluster@.control_plane_ref,
            r.infrastructure() == cluster@.infrastructure_ref,
    {
        TemplateSources {
            control_plane_ref: match &cluster.spec.proxy.control_plane_ref {
                Some(r) => Some(r.duplicate()),
                None => None,
            },
            infrastructure_ref: match &cluster.spec.proxy.infrastructure_ref {
                Some(r) => Some(r.duplicate()),
                None => None,
            },
        }
    }

    pub open spec fn control_plane(&self) -> Option<crate::meta::ObjectReferenceView> {
        match self.control_plane_ref {
            Some(r) => Some(r@),
            None => None,
        }
    }

    pub open spec fn infrastructure(&self) -> Option<crate::meta::ObjectReferenceView> {
        match self.infrastructure_ref {
            Some(r) => Some(r@),
            None => None,
        }
    }

    /// The lookups that resolve the template values: both, or none where one
    /// of the references is absent or incomplete.
    pub open spec fn lookups(&self) -> Option<(DynamicLookupView, DynamicLookupView)> {
        match (self.control_plane(), self.infrastructure()) {
            (Some(c), Some(i)) => match (lookup_of(c), lookup_of(i)) {
                (Some(c), Some(i)) => Some((c, i)),
                _ => None,
            },
            _ => None,
        }
    }

    /// Computes [`Self::lookups`].
    pub fn resolve(&self) -> (r: Option<(DynamicLookup, DynamicLookup)>)
        ensures
            match r {
                Some((c, i)) => self.lookups() == Some((c@, i@)),
                None => self.lookups() is None,
            },
    {
        match (&self.control_plane_ref, &self.infrastructure_ref) {
            (Some(c), Some(i)) => match (lookup_for(c), lookup_for(i)) {
                (Some(c), Some(i)) => Some((c, i)),
                _ => None,
            },
            _ => None,
        }
    }
}

/// Removes from the metadata of an object what changes with every write, so
/// that template values stay the same while the object does.
pub fn strip_volatile(meta: &mut crate::meta::ObjectMeta)
    ensures
        final(meta)@ == (ObjectMetaView { managed_fields: None, resource_version: None, ..old(meta)@ }),
{
    meta.managed_fields = None;
    meta.resource_version = None;
}

} // verus!
