//! The registration token with which a downstream agent first connects.

use crate::api::comparable::{merged_meta, meta_diff, ResourceDiff};
use crate::meta::{opt_types, ObjectMeta, ObjectMetaView, TypeMeta, TypeMetaView};
use crate::text::{copy_opt_text, opt_text, same_opt_text, text};
use vstd::prelude::*;

verus! {

pub struct ClusterRegistrationTokenSpec {
    /// How long the token stays valid, as a duration text.
    pub ttl: Option<String>,
}

pub struct ClusterRegistrationTokenSpecView {
    pub ttl: Option<Seq<char>>,
}

impl View for ClusterRegistrationTokenSpec {
    type V = ClusterRegistrationTokenSpecView;

    open spec fn view(&self) -> ClusterRegistrationTokenSpecView {
        ClusterRegistrationTokenSpecView { ttl: opt_text(self.ttl) }
    }
}

pub struct ClusterRegistrationTokenStatus {
    /// The secret that holds the issued token.
    pub secret_name: Option<String>,
}

pub struct ClusterRegistrationTokenStatusView {
    pub secret_name: Option<Seq<char>>,
}

impl View for ClusterRegistrationTokenStatus {
    type V = ClusterRegistrationTokenStatusView;

    open spec fn view(&self) -> ClusterRegistrationTokenStatusView {
        ClusterRegistrationTokenStatusView { secret_name: opt_text(self.secret_name) }
    }
}

pub struct ClusterRegistrationToken {
    pub types: Option<TypeMeta>,
    pub metadata: ObjectMeta,
    pub spec: ClusterRegistrationTokenSpec,
    pub status: Option<ClusterRegistrationTokenStatus>,
}

pub struct ClusterRegistrationTokenView {
    pub types: Option<TypeMetaView>,
    pub metadata: ObjectMetaView,
    pub spec: ClusterRegistrationTokenSpecView,
    pub status: Option<ClusterRegistrationTokenStatusView>,
}

impl View for ClusterRegistrationToken {
    type V = ClusterRegistrationTokenView;

    open spec fn view(&self) -> ClusterRegistrationTokenView {
        ClusterRegistrationTokenView {
            types: opt_types(self.types),
            metadata: self.metadata@,
            spec: self.spec@,
            status: match self.status {
                Some(s) => Some(s@),
                None => None,
            },
        }
    }
}

impl ResourceDiff for ClusterRegistrationToken {
    open spec fn meta_of(v: ClusterRegistrationTokenView) -> ObjectMetaView {
        v.metadata
    }

    open spec fn with_meta(
        v: ClusterRegistrationTokenView,
        m: ObjectMetaView,
    ) -> ClusterRegistrationTokenView {
        ClusterRegistrationTokenView { metadata: m, ..v }
    }

    open spec fn kind_of() -> TypeMetaView {
        TypeMetaView { api_version: "fleet.cattle.io/v1alpha1"@, kind: "ClusterRegistrationToken"@ }
    }

    open spec fn is_namespaced() -> bool {
        true
    }

    /// The spec is compared for equality.
    open spec fn fields_differ(
        desired: ClusterRegistrationTokenView,
        live: ClusterRegistrationTokenView,
    ) -> bool {
        desired.spec != live.spec
    }

    open spec fn written(
        desired: ClusterRegistrationTokenView,
        live: Option<ClusterRegistrationTokenView>,
    ) -> ClusterRegistrationTokenView {
        match live {
            Some(l) => ClusterRegistrationTokenView {
                metadata: merged_meta(desired.metadata, l.metadata),
                spec: desired.spec,
                ..l
            },
            None => desired,
        }
    }

    proof fn lemma_meta_of_with_meta(v: ClusterRegistrationTokenView, m: ObjectMetaView) {
    }

    proof fn lemma_fields_apart_from_meta(
        desired: ClusterRegistrationTokenView,
        live: ClusterRegistrationTokenView,
        m: ObjectMetaView,
    ) {
    }

    proof fn lemma_written(
        desired: ClusterRegistrationTokenView,
        live: Option<ClusterRegistrationTokenView>,
    ) {
    }

    fn meta(&self) -> (m: &ObjectMeta) {
        &self.metadata
    }

    fn clear_managed_fields(&mut self) {
        self.metadata.managed_fields = None;
    }

    fn type_meta() -> (t: TypeMeta) {
        TypeMeta { api_version: text("fleet.cattle.io/v1alpha1"), kind: text("ClusterRegistrationToken") }
    }

    fn namespaced() -> (b: bool) {
        true
    }

    fn diff(&self, live: &Self) -> (b: bool) {
        !same_opt_text(&self.spec.ttl, &live.spec.ttl) || meta_diff(&self.metadata, &live.metadata)
    }

    fn duplicate(&self) -> (r: Self) {
        ClusterRegistrationToken {
            types: match &self.types {
                Some(t) => Some(t.duplicate()),
                None => None,
            },
            metadata: self.metadata.duplicate(),
            spec: ClusterRegistrationTokenSpec { ttl: copy_opt_text(&self.spec.ttl) },
            status: match &self.status {
                Some(s) => Some(
                    ClusterRegistrationTokenStatus { secret_name: copy_opt_text(&s.secret_name) },
                ),
                None => None,
            },
        }
    }
}

} // verus!
