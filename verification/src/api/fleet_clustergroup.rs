//! The downstream cluster group that collects the clusters of one cluster class.

use crate::api::capi_clusterclass::{ClusterClass, ClusterClassView};
use crate::api::comparable::{merged_meta, meta_diff, ResourceDiff};
use crate::api::label_selector::{LabelSelector, LabelSelectorView};
use crate::meta::{
    opt_types, ObjectMeta, ObjectMetaView, ObjectReference, ObjectReferenceView,
    TypeMeta, TypeMetaView,
};
use crate::string_map::StringMap;
use crate::text::text;
use vstd::prelude::*;

verus! {

/// The label that names the cluster class of a group or cluster.
pub const CLUSTER_CLASS_LABEL: &'static str = "clusterclass-name.fleet.addons.cluster.x-k8s.io";

/// The label that names the namespace of that cluster class.
pub const CLUSTER_CLASS_NAMESPACE_LABEL: &'static str =
    "clusterclass-namespace.fleet.addons.cluster.x-k8s.io";

pub struct ClusterGroupSpec {
    pub selector: Option<LabelSelector>,
}

pub struct ClusterGroupSpecView {
    pub selector: Option<LabelSelectorView>,
}

impl View for ClusterGroupSpec {
    type V = ClusterGroupSpecView;

    open spec fn view(&self) -> ClusterGroupSpecView {
        ClusterGroupSpecView {
            selector: match self.selector {
                Some(s) => Some(s@),
                None => None,
            },
        }
    }
}

impl ClusterGroupSpec {
    pub fn duplicate(&self) -> (r: Self)
        ensures
            r@ == self@,
    {
        ClusterGroupSpec {
            selector: match &self.selector {
                Some(s) => Some(s.duplicate()),
                None => None,
            },
        }
    }

    pub fn same(&self, other: &ClusterGroupSpec) -> (b: bool)
        ensures
            b == (self@ == other@),
    {
        match (&self.selector, &other.selector) {
            (Some(x), Some(y)) => x.same(y),
            (None, None) => true,
            _ => false,
        }
    }
}

/// What the fleet manager has observed of a group.
pub struct ClusterGroupStatus {
    pub cluster_count: i64,
    pub non_ready_cluster_count: i64,
}

pub struct ClusterGroup {
    pub types: Option<TypeMeta>,
    pub metadata: ObjectMeta,
    pub spec: ClusterGroupSpec,
    pub status: Option<ClusterGroupStatus>,
}

pub struct ClusterGroupView {
    pub types: Option<TypeMetaView>,
    pub metadata: ObjectMetaView,
    pub spec: ClusterGroupSpecView,
    pub status: Option<ClusterGroupStatus>,
}

impl View for ClusterGroup {
    type V = ClusterGroupView;

    open spec fn view(&self) -> ClusterGroupView {
        ClusterGroupView {
            types: opt_types(self.types),
            metadata: self.metadata@,
            spec: self.spec@,
            status: self.status,
        }
    }
}

impl ResourceDiff for ClusterGroup {
    open spec fn meta_of(v: ClusterGroupView) -> ObjectMetaView {
        v.metadata
    }

    open spec fn with_meta(v: ClusterGroupView, m: ObjectMetaView) -> ClusterGroupView {
        ClusterGroupView { metadata: m, ..v }
    }

    open spec fn kind_of() -> TypeMetaView {
        TypeMetaView { api_version: "fleet.cattle.io/v1alpha1"@, kind: "ClusterGroup"@ }
    }

    open spec fn is_namespaced() -> bool {
        true
    }

    /// The spec is compared for equality.
    open spec fn fields_differ(desired: ClusterGroupView, live: ClusterGroupView) -> bool {
        desired.spec != live.spec
    }

    open spec fn written(desired: ClusterGroupView, live: Option<ClusterGroupView>) -> ClusterGroupView {
        match live {
            Some(l) => ClusterGroupView {
                metadata: merged_meta(desired.metadata, l.metadata),
                spec: desired.spec,
                ..l
            },
            None => desired,
        }
    }

    proof fn lemma_meta_of_with_meta(v: ClusterGroupView, m: ObjectMetaView) {
    }

    proof fn lemma_fields_apart_from_meta(desired: ClusterGroupView, live: ClusterGroupView, m: ObjectMetaView) {
    }

    proof fn lemma_written(desired: ClusterGroupView, live: Option<ClusterGroupView>) {
    }

    fn meta(&self) -> (m: &ObjectMeta) {
        &self.metadata
    }

    fn clear_managed_fields(&mut self) {
        self.metadata.managed_fields = None;
    }

    fn type_meta() -> (t: TypeMeta) {
        TypeMeta { api_version: text("fleet.cattle.io/v1alpha1"), kind: text("ClusterGroup") }
    }

    fn namespaced() -> (b: bool) {
        true
    }

    fn diff(&self, live: &Self) -> (b: bool) {
        !self.spec.same(&live.spec) || meta_diff(&self.metadata, &live.metadata)
    }

    fn duplicate(&self) -> (r: Self) {
        ClusterGroup {
            types: match &self.types {
                Some(t) => Some(t.duplicate()),
                None => None,
            },
            metadata: self.metadata.duplicate(),
            spec: self.spec.duplicate(),
            status: match &self.status {
                Some(s) => Some(
                    ClusterGroupStatus {
                        cluster_count: s.cluster_count,
                        non_ready_cluster_count: s.non_ready_cluster_count,
                    },
                ),
                None => None,
            },
        }
    }
}

/// The value of a label, where the object carries it.
pub open spec fn label_value(m: ObjectMetaView, key: Seq<char>) -> Option<Seq<char>> {
    if m.label_map().contains_key(key) {
        Some(m.label_map()[key])
    } else {
        None
    }
}

/// Computes [`label_value`].
pub fn label_of(meta: &ObjectMeta, key: &String) -> (r: Option<String>)
    ensures
        crate::text::opt_text(r) == label_value(meta@, key@),
{
    match &meta.labels {
        Some(labels) => match labels.get(key) {
            Some(v) => Some(v.clone()),
            None => None,
        },
        None => None,
    }
}

/// The two labels that tie a group or a cluster to its cluster class.
pub open spec fn class_labels(name: Seq<char>, namespace: Seq<char>) -> Map<Seq<char>, Seq<char>> {
    Map::<Seq<char>, Seq<char>>::empty().insert(CLUSTER_CLASS_LABEL@, name).insert(
        CLUSTER_CLASS_NAMESPACE_LABEL@,
        namespace,
    )
}

/// Adds [`class_labels`] to a map.
pub fn insert_class_labels(labels: &mut StringMap, name: &String, namespace: &String)
    ensures
        final(labels)@ == old(labels)@.union_prefer_right(class_labels(name@, namespace@)),
{
    labels.insert(text(CLUSTER_CLASS_LABEL), name.clone());
    labels.insert(text(CLUSTER_CLASS_NAMESPACE_LABEL), namespace.clone());
    assert(labels@ =~= old(labels)@.union_prefer_right(class_labels(name@, namespace@)));
}

impl ClusterGroupView {
    /// The namespace of the cluster class that the group stands for.
    pub open spec fn cluster_class_namespace(self) -> Option<Seq<char>> {
        label_value(self.metadata, CLUSTER_CLASS_NAMESPACE_LABEL@)
    }

    /// The name of the cluster class that the group stands for.
    pub open spec fn cluster_class_name(self) -> Option<Seq<char>> {
        label_value(self.metadata, CLUSTER_CLASS_LABEL@)
    }

    /// The reference to that cluster class, where both labels are present.
    pub open spec fn cluster_class_ref(self) -> Option<ObjectReferenceView> {
        if self.cluster_class_name() is Some && self.cluster_class_namespace() is Some {
            Some(
                ObjectReferenceView {
                    api_version: Some(ClusterClass::kind_of().api_version),
                    kind: Some(ClusterClass::kind_of().kind),
                    name: self.cluster_class_name(),
                    namespace: self.cluster_class_namespace(),
                    uid: None,
                },
            )
        } else {
            None
        }
    }

    /// The group that stands for a cluster class: named after the class, in its
    /// namespace, carrying the labels of the class and the two class labels,
    /// owned by the class, and selecting the clusters that carry the two class
    /// labels.
    pub open spec fn from_class(class: ClusterClassView) -> ClusterGroupView {
        let name = class.metadata.name_any();
        let namespace = match class.metadata.namespace {
            Some(n) => n,
            None => Seq::empty(),
        };
        ClusterGroupView {
            types: Some(<ClusterGroup as ResourceDiff>::kind_of()),
            metadata: ObjectMetaView {
                name: Some(name),
                namespace: class.metadata.namespace,
                labels: Some(
                    class.metadata.label_map().union_prefer_right(class_labels(name, namespace)),
                ),
                owner_references: Some(class.metadata.owner_ref_list(ClusterClass::kind_of())),
                ..ObjectMetaView::empty()
            },
            spec: ClusterGroupSpecView {
                selector: Some(
                    LabelSelectorView {
                        match_labels: Some(class_labels(name, namespace)),
                        match_expressions: None,
                    },
                ),
            },
            status: None,
        }
    }
}

impl ClusterGroup {
    /// Computes [`ClusterGroupView::cluster_class_namespace`].
    pub fn cluster_class_namespace(&self) -> (r: Option<String>)
        ensures
            crate::text::opt_text(r) == self@.cluster_class_namespace(),
    {
        label_of(&self.metadata, &text(CLUSTER_CLASS_NAMESPACE_LABEL))
    }

    /// Computes [`ClusterGroupView::cluster_class_name`].
    pub fn cluster_class_name(&self) -> (r: Option<String>)
        ensures
            crate::text::opt_text(r) == self@.cluster_class_name(),
    {
        label_of(&self.metadata, &text(CLUSTER_CLASS_LABEL))
    }

    /// Computes [`ClusterGroupView::cluster_class_ref`].
    pub fn cluster_class_ref(&self) -> (r: Option<ObjectReference>)
        ensures
            match r {
                Some(o) => self@.cluster_class_ref() == Some(o@),
                None => self@.cluster_class_ref() is None,
            },
    {
        let name = self.cluster_class_name();
        let namespace = self.cluster_class_namespace();
        if name.is_none() || namespace.is_none() {
            return None;
        }
        let types = ClusterClass::type_meta();
        Some(
            ObjectReference {
                api_version: Some(types.api_version),
                kind: Some(types.kind),
                name,
                namespace,
                uid: None,
            },
        )
    }

    /// The selector of the groups that stand for a cluster class: those that
    /// carry both class labels, whatever their values.
    pub fn group_selector() -> (r: LabelSelector)
        ensures
            r@ == (LabelSelectorView {
                match_labels: None,
                match_expressions: Some(
                    seq![
                        crate::api::label_selector::LabelSelectorRequirementView {
                            key: CLUSTER_CLASS_LABEL@,
                            operator: "Exists"@,
                            values: None,
                        },
                        crate::api::label_selector::LabelSelectorRequirementView {
                            key: CLUSTER_CLASS_NAMESPACE_LABEL@,
                            operator: "Exists"@,
                            values: None,
                        },
                    ],
                ),
            }),
    {
        let mut requirements: Vec<crate::api::label_selector::LabelSelectorRequirement> = Vec::new();
        requirements.push(
            crate::api::label_selector::LabelSelectorRequirement {
                key: text(CLUSTER_CLASS_LABEL),
                operator: text("Exists"),
                values: None,
            },
        );
        requirements.push(
            crate::api::label_selector::LabelSelectorRequirement {
                key: text(CLUSTER_CLASS_NAMESPACE_LABEL),
                operator: text("Exists"),
                values: None,
            },
        );
        let r = LabelSelector { match_labels: None, match_expressions: Some(requirements) };
        assert(r@.match_expressions->0 =~= seq![
            crate::api::label_selector::LabelSelectorRequirementView {
                key: CLUSTER_CLASS_LABEL@,
                operator: "Exists"@,
                values: None,
            },
            crate::api::label_selector::LabelSelectorRequirementView {
                key: CLUSTER_CLASS_NAMESPACE_LABEL@,
                operator: "Exists"@,
                values: None,
            },
        ]);
        r
    }

    /// Computes [`ClusterGroupView::from_class`].
    pub fn from(cluster_class: &ClusterClass) -> (r: Self)
        ensures
            r@ == ClusterGroupView::from_class(cluster_class@),
    {
        let name = cluster_class.metadata.name_any();
        let namespace = match &cluster_class.metadata.namespace {
            Some(n) => n.clone(),
            None => String::new(),
        };
        let mut labels = match &cluster_class.metadata.labels {
            Some(l) => l.duplicate(),
            None => StringMap::new(),
        };
        insert_class_labels(&mut labels, &name, &namespace);
        let mut match_labels = StringMap::new();
        insert_class_labels(&mut match_labels, &name, &namespace);
        assert(match_labels@ =~= class_labels(name@, namespace@));
        let mut metadata = ObjectMeta::named(
            Some(name),
            crate::text::copy_opt_text(&cluster_class.metadata.namespace),
        );
        metadata.labels = Some(labels);
        metadata.owner_references = Some(
            cluster_class.metadata.owner_ref_list(&ClusterClass::type_meta()),
        );
        ClusterGroup {
            types: Some(<ClusterGroup as ResourceDiff>::type_meta()),
            metadata,
            spec: ClusterGroupSpec {
                selector: Some(LabelSelector { match_labels: Some(match_labels), match_expressions: None }),
            },
            status: None,
        }
    }
}

} // verus!
