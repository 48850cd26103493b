//! The cluster group controller: keeps the labels of a group in step with
//! its cluster class and releases groups from the finalizer of the operator.

use crate::api::capi_clusterclass::{ClusterClass, ClusterClassView};
use crate::api::comparable::ResourceDiff;
use crate::api::fleet_clustergroup::{ClusterGroup, ClusterGroupView};
use crate::controllers::controller::{FIELD_MANAGER, FLEET_FINALIZER};
use crate::controllers::{GroupSyncError, PatchError};
use crate::meta::{ObjectMetaView, ObjectReference, ObjectReferenceView};
use crate::runtime::{Action, KubeError};
use crate::string_map::StringMap;
use crate::text::{text, texts};
use vstd::prelude::*;

verus! {

/// What the sync of a group asks of its caller next.
pub enum GroupStep {
    /// Fetch the cluster class that the reference points at, then report it.
    FetchClass(ObjectReference),
    /// Patch the group with the diff-patch engine under the writer identity,
    /// then report the result.
    Patch { group: ClusterGroup, field_manager: String },
    /// Set the finalizers of the group to the list by a merge patch, then
    /// report how that went.
    PatchFinalizers(Vec<String>),
    /// The sync is over, with this result.
    Finish(Result<Action, GroupSyncError>),
}

pub enum GroupStepView {
    FetchClass(ObjectReferenceView),
    Patch { group: ClusterGroupView, field_manager: Seq<char> },
    PatchFinalizers(Seq<Seq<char>>),
    Finish(Result<Action, GroupSyncError>),
}

impl View for GroupStep {
    type V = GroupStepView;

    open spec fn view(&self) -> GroupStepView {
        match self {
            GroupStep::FetchClass(r) => GroupStepView::FetchClass(r@),
            GroupStep::Patch { group, field_manager } => GroupStepView::Patch {
                group: group@,
                field_manager: field_manager@,
            },
            GroupStep::PatchFinalizers(f) => GroupStepView::PatchFinalizers(texts(f@)),
            GroupStep::Finish(r) => GroupStepView::Finish(*r),
        }
    }
}

impl ClusterGroupView {
    /// The group with the labels of its class added to its own, those of
    /// the class winning.
    pub open spec fn with_class_labels(self, class: ClusterClassView) -> ClusterGroupView {
        ClusterGroupView {
            metadata: ObjectMetaView {
                labels: Some(self.metadata.label_map().union_prefer_right(class.metadata.label_map())),
                ..self.metadata
            },
            ..self
        }
    }

    /// The group without the finalizer of the operator.
    pub open spec fn released(self) -> ClusterGroupView {
        ClusterGroupView {
            metadata: ObjectMetaView {
                finalizers: Some(
                    self.metadata.finalizer_list().filter(|f: Seq<char>| f != FLEET_FINALIZER@),
                ),
                ..self.metadata
            },
            ..self
        }
    }

    /// The group after the release: without the finalizer of the operator
    /// where it held it, else as it was.
    pub open spec fn after_release(self) -> ClusterGroupView {
        if self.metadata.has_finalizer(FLEET_FINALIZER@) {
            self.released()
        } else {
            self
        }
    }

    /// The step that releases the group from the finalizer of the operator
    /// where it holds it, and ends the sync where it does not.
    pub open spec fn release_step(self) -> GroupStepView {
        if self.metadata.has_finalizer(FLEET_FINALIZER@) {
            GroupStepView::PatchFinalizers(self.released().metadata.finalizer_list())
        } else {
            GroupStepView::Finish(Ok(Action::AwaitChange))
        }
    }

    /// The first step of a sync: a group that names its class has the class
    /// fetched; another one goes on to the finalizer.
    pub open spec fn sync(self) -> GroupStepView {
        match self.cluster_class_ref() {
            Some(r) => GroupStepView::FetchClass(r),
            None => self.release_step(),
        }
    }
}

impl ClusterGroup {
    /// Releases the group from the finalizer where it holds it.
    fn release(&mut self) -> (step: GroupStep)
        ensures
            step@ == old(self)@.release_step(),
            final(self)@ == old(self)@.after_release(),
    {
        let token = text(FLEET_FINALIZER);
        if self.metadata.has_finalizer(&token) {
            let rest = self.metadata.finalizers_without(&token);
            let list = crate::text::copy_texts(&rest);
            self.metadata.finalizers = Some(rest);
            GroupStep::PatchFinalizers(list)
        } else {
            GroupStep::Finish(Ok(Action::AwaitChange))
        }
    }

    /// Computes [`ClusterGroupView::sync`]. A group that names no class may
    /// lose the finalizer of the operator by it.
    pub fn sync(&mut self) -> (step: GroupStep)
        ensures
            step@ == old(self)@.sync(),
            final(self)@ == if old(self)@.cluster_class_ref() is None {
                old(self)@.after_release()
            } else {
                old(self)@
            },
    {
        match self.cluster_class_ref() {
            Some(r) => GroupStep::FetchClass(r),
            None => self.release(),
        }
    }

    /// The step after the class was fetched: the group takes the labels of
    /// the class and is patched.
    pub fn sync_class(&mut self, class: Result<ClusterClass, KubeError>) -> (step: GroupStep)
        ensures
            match class {
                Err(e) => {
                    &&& step@ == GroupStepView::Finish(Err(GroupSyncError::ClassLookup(e)))
                    &&& final(self)@ == old(self)@
                },
                Ok(c) => final(self)@ == old(self)@.with_class_labels(c@) && step@
                    == (GroupStepView::Patch { group: final(self)@, field_manager: FIELD_MANAGER@ }),
            },
    {
        match class {
            Err(e) => GroupStep::Finish(Err(GroupSyncError::ClassLookup(e))),
            Ok(c) => {
                let mut labels = match &self.metadata.labels {
                    Some(l) => l.duplicate(),
                    None => StringMap::new(),
                };
                match &c.metadata.labels {
                    Some(l) => {
                        labels.extend(l);
                    },
                    None => {
                        assert(labels@ =~= labels@.union_prefer_right(Map::empty()));
                    },
                }
                self.metadata.labels = Some(labels);
                GroupStep::Patch {
                    group: <ClusterGroup as ResourceDiff>::duplicate(self),
                    field_manager: text(FIELD_MANAGER),
                }
            },
        }
    }

    /// The step after the patch: a failure ends the sync, a success goes on
    /// to the finalizer.
    pub fn sync_patched(&mut self, patched: Result<Action, PatchError>) -> (step: GroupStep)
        ensures
            match patched {
                Err(e) => {
                    &&& step@ == GroupStepView::Finish(Err(GroupSyncError::PatchError(e)))
                    &&& final(self)@ == old(self)@
                },
                Ok(_) => {
                    &&& step@ == old(self)@.release_step()
                    &&& final(self)@ == old(self)@.after_release()
                },
            },
    {
        match patched {
            Err(e) => GroupStep::Finish(Err(GroupSyncError::PatchError(e))),
            Ok(_) => self.release(),
        }
    }

    /// The last step, after the finalizers were patched.
    pub fn sync_released(released: Result<(), KubeError>) -> (r: Result<Action, GroupSyncError>)
        ensures
            r == match released {
                Err(e) => Err::<Action, GroupSyncError>(GroupSyncError::ClassLookup(e)),
                Ok(()) => Ok::<Action, GroupSyncError>(Action::AwaitChange),
            },
    {
        match released {
            Err(e) => Err(GroupSyncError::ClassLookup(e)),
            Ok(()) => Ok(Action::AwaitChange),
        }
    }
}

} // verus!
