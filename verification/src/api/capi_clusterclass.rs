//! The cluster class template that cluster descriptors are stamped from.

use crate::meta::{ObjectMeta, ObjectMetaView, TypeMeta, TypeMetaView};
use crate::text::text;
use vstd::prelude::*;

verus! {

pub struct ClusterClass {
    pub metadata: ObjectMeta,
}

pub struct ClusterClassView {
    pub metadata: ObjectMetaView,
}

impl View for ClusterClass {
    type V = ClusterClassView;

    open spec fn view(&self) -> ClusterClassView {
        ClusterClassView { metadata: self.metadata@ }
    }
}

impl ClusterClass {
    /// API version and kind of cluster classes.
    pub open spec fn kind_of() -> TypeMetaView {
        TypeMetaView { api_version: "cluster.x-k8s.io/v1beta2"@, kind: "ClusterClass"@ }
    }

    pub fn type_meta() -> (t: TypeMeta)
        ensures
            t@ == Self::kind_of(),
    {
        TypeMeta { api_version: text("cluster.x-k8s.io/v1beta2"), kind: text("ClusterClass") }
    }
}

} // verus!
