//! The cluster class controller: the bundle that mirrors one cluster class
//! as a cluster group.

use crate::api::capi_clusterclass::{ClusterClass, ClusterClassView};
use crate::api::comparable::ResourceDiff;
use crate::api::fleet_addon_config::{FleetAddonConfig, FleetAddonConfigView};
use crate::api::fleet_clustergroup::{ClusterGroup, ClusterGroupView};
use crate::controllers::bundle::{
    Downstream, DownstreamView, FleetBundle, SyncStep, Write, WriteError, WriteMode, WriteModeView,
    WriteView,
};
use crate::controllers::controller::FIELD_MANAGER;
use crate::controllers::reconcile::Cleanup;
use crate::controllers::{GroupSyncError, SyncError};
use crate::meta::ObjectMetaView;
use crate::runtime::Action;
use crate::text::text;
use vstd::prelude::*;

verus! {

/// The downstream state that one cluster class asks for.
pub struct FleetClusterClassBundle {
    pub fleet_group: ClusterGroup,
    /// Whether an existing group is patched, or only a missing one created.
    pub patch_enabled: bool,
}

pub struct FleetClusterClassBundleView {
    pub fleet_group: ClusterGroupView,
    pub patch_enabled: bool,
}

impl View for FleetClusterClassBundle {
    type V = FleetClusterClassBundleView;

    open spec fn view(&self) -> FleetClusterClassBundleView {
        FleetClusterClassBundleView { fleet_group: self.fleet_group@, patch_enabled: self.patch_enabled }
    }
}

impl FleetClusterClassBundleView {
    /// The one write of a sync: the group is patched where patching is
    /// enabled, else created where it is missing.
    pub open spec fn group_write(self) -> WriteView {
        WriteView {
            object: DownstreamView::Group(self.fleet_group),
            mode: if self.patch_enabled {
                WriteModeView::Patch(FIELD_MANAGER@)
            } else {
                WriteModeView::GetOrCreate
            },
        }
    }
}

/// The error of a failed write of a cluster class sync.
pub open spec fn group_sync_failure(e: WriteError) -> GroupSyncError {
    match e {
        WriteError::GetOrCreate(e) => GroupSyncError::GetOrCreateError(e),
        WriteError::Patch(e) => GroupSyncError::PatchError(e),
    }
}

impl FleetBundle for FleetClusterClassBundle {
    open spec fn plan(v: FleetClusterClassBundleView) -> Seq<WriteView> {
        seq![v.group_write()]
    }

    open spec fn failure(v: FleetClusterClassBundleView, index: int, e: WriteError) -> SyncError {
        SyncError::GroupSync(group_sync_failure(e))
    }

    fn sync(&self, done: usize, last: Option<Result<Action, WriteError>>) -> (step: SyncStep) {
        match last {
            Some(Err(WriteError::GetOrCreate(e))) => SyncStep::Finish(
                Err(SyncError::GroupSync(GroupSyncError::GetOrCreateError(e))),
            ),
            Some(Err(WriteError::Patch(e))) => SyncStep::Finish(
                Err(SyncError::GroupSync(GroupSyncError::PatchError(e))),
            ),
            _ => {
                if done == 0 {
                    SyncStep::Run(
                        Write {
                            object: Downstream::Group(self.fleet_group.duplicate()),
                            mode: if self.patch_enabled {
                                WriteMode::Patch(text(FIELD_MANAGER))
                            } else {
                                WriteMode::GetOrCreate
                            },
                        },
                    )
                } else {
                    SyncStep::Finish(Ok(Action::AwaitChange))
                }
            },
        }
    }
}

impl FleetClusterClassBundle {
    /// The cleanup of a cluster class bundle has nothing to do: the group
    /// goes with its owner.
    pub fn cleanup(&self) -> (r: Result<Cleanup, SyncError>)
        ensures
            r == Ok::<Cleanup, SyncError>(Cleanup::Done(Action::AwaitChange)),
    {
        Ok(Cleanup::Done(Action::AwaitChange))
    }
}

impl ClusterClassView {
    /// The bundle of a cluster class: none while cluster classes are not
    /// mirrored. The group is owned by the class only where the
    /// configuration says so.
    pub open spec fn to_bundle(self, config: FleetAddonConfigView) -> Option<FleetClusterClassBundleView> {
        if config.cluster_class_operations_enabled() {
            let group = ClusterGroupView::from_class(self);
            Some(
                FleetClusterClassBundleView {
                    fleet_group: if config.cluster_class_owner_references() {
                        group
                    } else {
                        ClusterGroupView {
                            metadata: ObjectMetaView { owner_references: None, ..group.metadata },
                            ..group
                        }
                    },
                    patch_enabled: config.cluster_class_patch_enabled(),
                },
            )
        } else {
            None
        }
    }
}

impl ClusterClass {
    /// Computes [`ClusterClassView::to_bundle`].
    pub fn to_bundle(&self, config: &FleetAddonConfig) -> (r: Option<FleetClusterClassBundle>)
        ensures
            match r {
                Some(b) => self@.to_bundle(config@) == Some(b@),
                None => self@.to_bundle(config@) is None,
            },
    {
        if !config.cluster_class_operations_enabled() {
            return None;
        }
        let mut fleet_group = ClusterGroup::from(self);
        if !config.cluster_class_owner_references() {
            fleet_group.metadata.owner_references = None;
        }
        Some(FleetClusterClassBundle { fleet_group, patch_enabled: config.cluster_class_patch_enabled() })
    }
}

} // verus!
