//! The mapping that lets bundles of a cluster class namespace reach the
//! namespace of a cluster.

use crate::api::comparable::{merged_meta, meta_diff, ResourceDiff};
use crate::api::label_selector::{LabelSelector, LabelSelectorView};
use crate::meta::{opt_types, ObjectMeta, ObjectMetaView, TypeMeta, TypeMetaView};
use crate::text::text;
use vstd::prelude::*;

verus! {

/// The spec of a mapping. A mapping has none: its selectors stand beside its
/// metadata.
#[derive(Clone, Copy, Debug, Default)]
pub struct BundleNamespaceMappingFantomSpec {}

pub struct BundleNamespaceMapping {
    pub types: Option<TypeMeta>,
    pub metadata: ObjectMeta,
    pub bundle_selector: LabelSelector,
    pub namespace_selector: LabelSelector,
}

pub struct BundleNamespaceMappingView {
    pub types: Option<TypeMetaView>,
    pub metadata: ObjectMetaView,
    pub bundle_selector: LabelSelectorView,
    pub namespace_selector: LabelSelectorView,
}

impl View for BundleNamespaceMapping {
    type V = BundleNamespaceMappingView;

    open spec fn view(&self) -> BundleNamespaceMappingView {
        BundleNamespaceMappingView {
            types: opt_types(self.types),
            metadata: self.metadata@,
            bundle_selector: self.bundle_selector@,
            namespace_selector: self.namespace_selector@,
        }
    }
}

impl ResourceDiff for BundleNamespaceMapping {
    open spec fn meta_of(v: BundleNamespaceMappingView) -> ObjectMetaView {
        v.metadata
    }

    open spec fn with_meta(v: BundleNamespaceMappingView, m: ObjectMetaView) -> BundleNamespaceMappingView {
        BundleNamespaceMappingView { metadata: m, ..v }
    }

    open spec fn kind_of() -> TypeMetaView {
        TypeMetaView { api_version: "fleet.cattle.io/v1alpha1"@, kind: "BundleNamespaceMapping"@ }
    }

    open spec fn is_namespaced() -> bool {
        true
    }

    /// The two selectors are compared for equality.
    open spec fn fields_differ(desired: BundleNamespaceMappingView, live: BundleNamespaceMappingView) -> bool {
        desired.bundle_selector != live.bundle_selector || desired.namespace_selector
            != live.namespace_selector
    }

    open spec fn written(
        desired: BundleNamespaceMappingView,
        live: Option<BundleNamespaceMappingView>,
    ) -> BundleNamespaceMappingView {
        match live {
            Some(l) => BundleNamespaceMappingView {
                metadata: merged_meta(desired.metadata, l.metadata),
                bundle_selector: desired.bundle_selector,
                namespace_selector: desired.namespace_selector,
                ..l
            },
            None => desired,
        }
    }

    proof fn lemma_meta_of_with_meta(v: BundleNamespaceMappingView, m: ObjectMetaView) {
    }

    proof fn lemma_fields_apart_from_meta(
        desired: BundleNamespaceMappingView,
        live: BundleNamespaceMappingView,
        m: ObjectMetaView,
    ) {
    }

    proof fn lemma_written(
        desired: BundleNamespaceMappingView,
        live: Option<BundleNamespaceMappingView>,
    ) {
    }

    fn meta(&self) -> (m: &ObjectMeta) {
        &self.metadata
    }

    fn clear_managed_fields(&mut self) {
        self.metadata.managed_fields = None;
    }

    fn type_meta() -> (t: TypeMeta) {
        TypeMeta { api_version: text("fleet.cattle.io/v1alpha1"), kind: text("BundleNamespaceMapping") }
    }

    fn namespaced() -> (b: bool) {
        true
    }

    fn diff(&self, live: &Self) -> (b: bool) {
        !self.bundle_selector.same(&live.bundle_selector) || !self.namespace_selector.same(
            &live.namespace_selector,
        ) || meta_diff(&self.metadata, &live.metadata)
    }

    fn duplicate(&self) -> (r: Self) {
        BundleNamespaceMapping {
            types: match &self.types {
                Some(t) => Some(t.duplicate()),
                None => None,
            },
            metadata: self.metadata.duplicate(),
            bundle_selector: self.bundle_selector.duplicate(),
            namespace_selector: self.namespace_selector.duplicate(),
        }
    }
}

} // verus!
