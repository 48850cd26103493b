//! The cluster descriptor, the source object of the cluster controller, and
//! what is derived from it downstream.

use crate::api::bundle_namespace_mapping::{BundleNamespaceMapping, BundleNamespaceMappingView};
use crate::api::comparable::{Namespace, NamespaceView, ResourceDiff};
use crate::api::fleet_addon_config::{ClusterConfig, ClusterConfigView};
use crate::api::fleet_cluster;
use crate::api::fleet_cluster::copy_opt_env;
use crate::api::fleet_cluster_registration_token::{
    ClusterRegistrationToken, ClusterRegistrationTokenSpec, ClusterRegistrationTokenSpecView,
    ClusterRegistrationTokenView,
};
use crate::api::fleet_clustergroup::{
    class_labels, insert_class_labels, ClusterGroup, ClusterGroupSpec, ClusterGroupSpecView,
    ClusterGroupView,
};
use crate::api::label_selector::{LabelSelector, LabelSelectorView};
use crate::meta::{
    condition_views, Condition, ConditionView, ObjectMeta, ObjectMetaView, ObjectReference,
    ObjectReferenceView, TypeMeta, TypeMetaView,
};
use crate::string_map::StringMap;
use crate::text::{joined, copy_opt_text, opt_text, text};
use vstd::prelude::*;

verus! {

/// The annotation that lets the fleet manager adopt an existing namespace as a workspace.
pub const FLEET_WORKSPACE_ANNOTATION: &'static str =
    "field.cattle.io/allow-fleetworkspace-creation-for-existing-namespace";

/// The label that the API server sets on every namespace to its name.
pub const NAMESPACE_NAME_LABEL: &'static str = "kubernetes.io/metadata.name";

/// The condition that tells that the control plane of a cluster is up.
pub const CONTROLPLANE_INITIALIZED_CONDITION: &'static str = "ControlPlaneInitialized";

pub struct ClusterTopologyClassRef {
    pub name: String,
    pub namespace: Option<String>,
}

pub struct ClusterTopology {
    pub class_ref: ClusterTopologyClassRef,
}

pub struct ClusterSpec {
    pub topology: Option<ClusterTopology>,
    pub control_plane_ref: Option<ObjectReference>,
    pub infrastructure_ref: Option<ObjectReference>,
}

pub struct ClusterStatus {
    pub control_plane_ready: Option<bool>,
    pub conditions: Option<Vec<Condition>>,
}

/// The desired state of a cluster descriptor.
pub struct ClusterProxy {
    pub proxy: ClusterSpec,
}

pub struct Cluster {
    pub metadata: ObjectMeta,
    pub spec: ClusterProxy,
    pub status: Option<ClusterStatus>,
}

pub struct ClusterStatusView {
    pub control_plane_ready: Option<bool>,
    pub conditions: Option<Seq<ConditionView>>,
}

pub struct ClusterView {
    pub metadata: ObjectMetaView,
    /// Name and namespace of the cluster class, where the cluster has a topology.
    pub class_ref: Option<(Seq<char>, Option<Seq<char>>)>,
    pub control_plane_ref: Option<ObjectReferenceView>,
    pub infrastructure_ref: Option<ObjectReferenceView>,
    pub status: Option<ClusterStatusView>,
}

impl View for Cluster {
    type V = ClusterView;

    open spec fn view(&self) -> ClusterView {
        ClusterView {
            metadata: self.metadata@,
            class_ref: match self.spec.proxy.topology {
                Some(t) => Some((t.class_ref.name@, opt_text(t.class_ref.namespace))),
                None => None,
            },
            control_plane_ref: match self.spec.proxy.control_plane_ref {
                Some(r) => Some(r@),
                None => None,
            },
            infrastructure_ref: match self.spec.proxy.infrastructure_ref {
                Some(r) => Some(r@),
                None => None,
            },
            status: match self.status {
                Some(s) => Some(
                    ClusterStatusView {
                        control_plane_ready: s.control_plane_ready,
                        conditions: match s.conditions {
                            Some(c) => Some(condition_views(c@)),
                            None => None,
                        },
                    },
                ),
                None => None,
            },
        }
    }
}

/// The text, or the empty text where there is none.
pub open spec fn or_empty(o: Option<Seq<char>>) -> Seq<char> {
    match o {
        Some(s) => s,
        None => Seq::empty(),
    }
}

impl ClusterView {
    /// API version and kind of cluster descriptors.
    pub open spec fn kind_of() -> TypeMetaView {
        TypeMetaView { api_version: "cluster.x-k8s.io/v1beta2"@, kind: "Cluster"@ }
    }

    pub open spec fn cluster_class_name(self) -> Option<Seq<char>> {
        match self.class_ref {
            Some(r) => Some(r.0),
            None => None,
        }
    }

    pub open spec fn cluster_class_namespace(self) -> Option<Seq<char>> {
        match self.class_ref {
            Some(r) => r.1,
            None => None,
        }
    }

    /// Whether the control plane is up: the cluster has a status with
    /// conditions, and either the condition that says so is true or the
    /// status flags the control plane as ready.
    pub open spec fn cluster_ready(self) -> bool {
        self.status matches Some(s) && s.conditions matches Some(conditions) && (
        s.control_plane_ready == Some(true) || exists|i: int|
            0 <= i < conditions.len() && (#[trigger] conditions[i]).type_
                == CONTROLPLANE_INITIALIZED_CONDITION@ && conditions[i].status == "True"@)
    }

    /// The namespace that carries the workspace annotation for the cluster.
    pub open spec fn to_namespace(self) -> NamespaceView {
        NamespaceView {
            metadata: ObjectMetaView {
                name: self.metadata.namespace,
                annotations: Some(
                    Map::<Seq<char>, Seq<char>>::empty().insert(FLEET_WORKSPACE_ANNOTATION@, "true"@),
                ),
                ..ObjectMetaView::empty()
            },
        }
    }

    /// The registration token of the cluster, where agents connect by themselves.
    pub open spec fn to_cluster_registration_token(self, config: Option<ClusterConfigView>) -> Option<
        ClusterRegistrationTokenView,
    > {
        if config matches Some(c) && c.agent_initiated == Some(true) {
            Some(
                ClusterRegistrationTokenView {
                    types: None,
                    metadata: ObjectMetaView {
                        name: Some(self.metadata.name_any()),
                        namespace: self.metadata.namespace,
                        ..ObjectMetaView::empty()
                    },
                    spec: ClusterRegistrationTokenSpecView { ttl: Some("1h"@) },
                    status: None,
                },
            )
        } else {
            None
        }
    }

    /// The mapping that opens the namespace of the cluster to the bundles of
    /// the namespace of its class, where groups are applied and both
    /// namespaces are known.
    pub open spec fn to_bundle_ns_mapping(self, config: Option<ClusterConfigView>) -> Option<
        BundleNamespaceMappingView,
    > {
        if config matches Some(c) && c.apply_class_group() && self.cluster_class_namespace() is Some
            && self.metadata.namespace is Some {
            Some(
                BundleNamespaceMappingView {
                    types: Some(<BundleNamespaceMapping as ResourceDiff>::kind_of()),
                    metadata: ObjectMetaView {
                        name: self.metadata.namespace,
                        namespace: self.cluster_class_namespace(),
                        ..ObjectMetaView::empty()
                    },
                    bundle_selector: LabelSelectorView::empty(),
                    namespace_selector: LabelSelectorView {
                        match_labels: Some(
                            Map::<Seq<char>, Seq<char>>::empty().insert(
                                NAMESPACE_NAME_LABEL@,
                                self.metadata.namespace->0,
                            ),
                        ),
                        match_expressions: None,
                    },
                },
            )
        } else {
            None
        }
    }

    /// The group for the class of the cluster in the namespace of the cluster,
    /// where groups are applied and the class lives in a namespace of its own.
    pub open spec fn to_group(self, config: Option<ClusterConfigView>) -> Option<ClusterGroupView> {
        if config matches Some(c) && c.apply_class_group() && self.cluster_class_name() is Some
            && self.cluster_class_namespace() is Some {
            let class = self.cluster_class_name()->0;
            let class_namespace = self.cluster_class_namespace()->0;
            Some(
                ClusterGroupView {
                    types: Some(<ClusterGroup as ResourceDiff>::kind_of()),
                    metadata: ObjectMetaView {
                        name: Some(class + "."@ + class_namespace),
                        namespace: self.metadata.namespace,
                        labels: Some(class_labels(class, class_namespace)),
                        owner_references: Some(self.metadata.owner_ref_list(Self::kind_of())),
                        ..ObjectMetaView::empty()
                    },
                    spec: ClusterGroupSpecView {
                        selector: Some(
                            LabelSelectorView {
                                match_labels: Some(class_labels(class, class_namespace)),
                                match_expressions: None,
                            },
                        ),
                    },
                    status: None,
                },
            )
        } else {
            None
        }
    }

    /// The downstream cluster. It carries the annotations and labels of its
    /// source, and the labels of the class where there is one; it is named
    /// after the source as the configuration says; and its agent either
    /// connects by itself under the given client identity or is reached
    /// through the kubeconfig secret of the source.
    pub open spec fn to_cluster(
        self,
        config: Option<ClusterConfigView>,
        client_id: Seq<char>,
    ) -> fleet_cluster::ClusterView {
        let config = match config {
            Some(c) => c,
            None => ClusterConfigView::empty(),
        };
        let class_namespace = match self.cluster_class_namespace() {
            Some(n) => n,
            None => or_empty(self.metadata.namespace),
        };
        let labels = match self.cluster_class_name() {
            Some(class) => self.metadata.label_map().union_prefer_right(
                class_labels(class, class_namespace),
            ),
            None => self.metadata.label_map(),
        };
        let agent = fleet_cluster::ClusterSpecView {
            agent_namespace: Some(config.agent_install_namespace()),
            agent_tolerations: Some(config.tolerations()),
            host_network: config.host_network,
            agent_env_vars: config.agent_env_vars,
            ..fleet_cluster::ClusterSpecView::empty()
        };
        fleet_cluster::ClusterView {
            types: Some(<fleet_cluster::Cluster as ResourceDiff>::kind_of()),
            metadata: ObjectMetaView {
                annotations: Some(self.metadata.annotation_map()),
                labels: Some(labels),
                owner_references: if config.set_owner_references == Some(true) {
                    Some(self.metadata.owner_ref_list(Self::kind_of()))
                } else {
                    None
                },
                name: Some(config.apply_naming(self.metadata.name_any())),
                namespace: self.metadata.namespace,
                ..ObjectMetaView::empty()
            },
            spec: if config.agent_initiated_connection() {
                fleet_cluster::ClusterSpecView { client_id: Some(client_id), ..agent }
            } else {
                fleet_cluster::ClusterSpecView {
                    kube_config_secret: Some(self.metadata.name_any() + "-kubeconfig"@),
                    ..agent
                }
            },
            status: None,
        }
    }
}

/// The view of an optional cluster configuration.
pub open spec fn opt_config(config: Option<&ClusterConfig>) -> Option<ClusterConfigView> {
    match config {
        Some(c) => Some(c@),
        None => None,
    }
}

/// The number of characters of a client identity.
pub const CLIENT_ID_LENGTH: usize = 64;

/// Whether the text holds letters and digits only.
pub open spec fn is_alphanumeric(id: Seq<char>) -> bool {
    forall|i: int|
        0 <= i < id.len() ==> (('a' <= #[trigger] id[i] && id[i] <= 'z') || ('A' <= id[i] && id[i]
            <= 'Z') || ('0' <= id[i] && id[i] <= '9'))
}

/// Whether the text can be a client identity: 64 letters and digits.
pub open spec fn is_client_id(id: Seq<char>) -> bool {
    id.len() == CLIENT_ID_LENGTH && is_alphanumeric(id)
}

/// Whether a downstream cluster under the configuration carries a client
/// identity: it does where the agent connects by itself.
pub open spec fn carries_client_id(config: Option<ClusterConfigView>) -> bool {
    config matches Some(c) && c.agent_initiated_connection()
}

/// Draws a text of `len` characters with `rand::distr::Alphanumeric` from the
/// thread's generator of `rand::rng`. Each call gives another one; the
/// contract says only what holds of all of them: `len` characters, each a
/// letter or a digit.
#[verifier::external_body]
fn random_alphanumeric(len: usize) -> (id: String)
    ensures
        id@.len() == len,
        is_alphanumeric(id@),
{
    rand::distr::SampleString::sample_string(&rand::distr::Alphanumeric, &mut rand::rng(), len)
}

impl Cluster {
    pub fn type_meta() -> (t: TypeMeta)
        ensures
            t@ == ClusterView::kind_of(),
    {
        TypeMeta { api_version: text("cluster.x-k8s.io/v1beta2"), kind: text("Cluster") }
    }

    pub fn cluster_class_namespace(&self) -> (r: Option<String>)
        ensures
            opt_text(r) == self@.cluster_class_namespace(),
    {
        match &self.spec.proxy.topology {
            Some(t) => copy_opt_text(&t.class_ref.namespace),
            None => None,
        }
    }

    pub fn cluster_class_name(&self) -> (r: Option<String>)
        ensures
            opt_text(r) == self@.cluster_class_name(),
    {
        match &self.spec.proxy.topology {
            Some(t) => Some(t.class_ref.name.clone()),
            None => None,
        }
    }

    /// Computes [`ClusterView::cluster_ready`].
    pub fn cluster_ready(&self) -> (b: bool)
        ensures
            b == self@.cluster_ready(),
    {
        match &self.status {
            None => false,
            Some(status) => match &status.conditions {
                None => false,
                Some(conditions) => {
                    let cp_ready = match status.control_plane_ready {
                        Some(r) => r,
                        None => false,
                    };
                    let wanted = text(CONTROLPLANE_INITIALIZED_CONDITION);
                    let yes = text("True");
                    let mut found = false;
                    let mut i: usize = 0;
                    while i < conditions.len()
                        invariant
                            i <= conditions@.len(),
                            wanted@ == CONTROLPLANE_INITIALIZED_CONDITION@,
                            yes@ == "True"@,
                            found == exists|j: int|
                                0 <= j < i && (#[trigger] condition_views(conditions@)[j]).type_
                                    == CONTROLPLANE_INITIALIZED_CONDITION@ && condition_views(
                                    conditions@,
                                )[j].status == "True"@,
                        decreases conditions@.len() - i,
                    {
                        if conditions[i].type_ == wanted && conditions[i].status == yes {
                            assert(condition_views(conditions@)[i as int].type_
                                == CONTROLPLANE_INITIALIZED_CONDITION@);
                            found = true;
                        }
                        i += 1;
                    }
                    found || cp_ready
                },
            },
        }
    }

    /// Computes [`ClusterView::to_namespace`].
    pub fn to_namespace(&self) -> (r: Namespace)
        ensures
            r@ == self@.to_namespace(),
    {
        let mut annotations = StringMap::new();
        annotations.insert(text(FLEET_WORKSPACE_ANNOTATION), text("true"));
        let mut metadata = ObjectMeta::new();
        metadata.name = copy_opt_text(&self.metadata.namespace);
        metadata.annotations = Some(annotations);
        Namespace { metadata }
    }

    /// Computes [`ClusterView::to_cluster_registration_token`].
    pub fn to_cluster_registration_token(&self, config: Option<&ClusterConfig>) -> (r: Option<
        ClusterRegistrationToken,
    >)
        ensures
            match r {
                Some(t) => self@.to_cluster_registration_token(
                    opt_config(config),
                ) == Some(t@),
                None => self@.to_cluster_registration_token(
                    opt_config(config),
                ) is None,
            },
    {
        match config {
            Some(c) => {
                if c.agent_initiated_connection() {
                    Some(
                        ClusterRegistrationToken {
                            types: None,
                            metadata: ObjectMeta::named(
                                Some(self.metadata.name_any()),
                                copy_opt_text(&self.metadata.namespace),
                            ),
                            spec: ClusterRegistrationTokenSpec { ttl: Some(text("1h")) },
                            status: None,
                        },
                    )
                } else {
                    None
                }
            },
            None => None,
        }
    }

    /// Computes [`ClusterView::to_bundle_ns_mapping`].
    pub fn to_bundle_ns_mapping(&self, config: Option<&ClusterConfig>) -> (r: Option<
        BundleNamespaceMapping,
    >)
        ensures
            match r {
                Some(m) => self@.to_bundle_ns_mapping(
                    opt_config(config),
                ) == Some(m@),
                None => self@.to_bundle_ns_mapping(
                    opt_config(config),
                ) is None,
            },
    {
        let enabled = match config {
            Some(c) => c.apply_class_group(),
            None => false,
        };
        if !enabled {
            return None;
        }
        let class_namespace = self.cluster_class_namespace();
        match (class_namespace, &self.metadata.namespace) {
            (Some(class_namespace), Some(namespace)) => {
                let mut labels = StringMap::new();
                labels.insert(text(NAMESPACE_NAME_LABEL), namespace.clone());
                Some(
                    BundleNamespaceMapping {
                        types: Some(<BundleNamespaceMapping as ResourceDiff>::type_meta()),
                        metadata: ObjectMeta::named(Some(namespace.clone()), Some(class_namespace)),
                        bundle_selector: LabelSelector::new(),
                        namespace_selector: LabelSelector {
                            match_labels: Some(labels),
                            match_expressions: None,
                        },
                    },
                )
            },
            _ => None,
        }
    }

    /// Computes [`ClusterView::to_group`].
    pub fn to_group(&self, config: Option<&ClusterConfig>) -> (r: Option<ClusterGroup>)
        ensures
            match r {
                Some(g) => self@.to_group(
                    opt_config(config),
                ) == Some(g@),
                None => self@.to_group(
                    opt_config(config),
                ) is None,
            },
    {
        let enabled = match config {
            Some(c) => c.apply_class_group(),
            None => false,
        };
        if !enabled {
            return None;
        }
        match (self.cluster_class_name(), self.cluster_class_namespace()) {
            (Some(class), Some(class_namespace)) => {
                let mut labels = StringMap::new();
                insert_class_labels(&mut labels, &class, &class_namespace);
                assert(labels@ =~= class_labels(class@, class_namespace@));
                let mut match_labels = StringMap::new();
                insert_class_labels(&mut match_labels, &class, &class_namespace);
                assert(match_labels@ =~= class_labels(class@, class_namespace@));
                let name = joined(&joined(&class, &text(".")), &class_namespace);
                let mut metadata = ObjectMeta::named(
                    Some(name),
                    copy_opt_text(&self.metadata.namespace),
                );
                metadata.labels = Some(labels);
                metadata.owner_references = Some(self.metadata.owner_ref_list(&Cluster::type_meta()));
                Some(
                    ClusterGroup {
                        types: Some(<ClusterGroup as ResourceDiff>::type_meta()),
                        metadata,
                        spec: ClusterGroupSpec {
                            selector: Some(
                                LabelSelector { match_labels: Some(match_labels), match_expressions: None },
                            ),
                        },
                        status: None,
                    },
                )
            },
            _ => None,
        }
    }

    /// Computes [`ClusterView::to_cluster`] for a given client identity, which
    /// is used only where the agent connects by itself.
    pub fn to_cluster_with(&self, config: Option<&ClusterConfig>, client_id: String) -> (r:
        fleet_cluster::Cluster)
        ensures
            r@ == self@.to_cluster(
                opt_config(config),
                client_id@,
            ),
    {
        let empty = ClusterConfig::new();
        let config = match config {
            Some(c) => c,
            None => &empty,
        };
        let namespace = match &self.metadata.namespace {
            Some(n) => n.clone(),
            None => String::new(),
        };
        let class_namespace = match self.cluster_class_namespace() {
            Some(n) => n,
            None => namespace,
        };
        let mut labels = match &self.metadata.labels {
            Some(l) => l.duplicate(),
            None => StringMap::new(),
        };
        match self.cluster_class_name() {
            Some(class) => {
                insert_class_labels(&mut labels, &class, &class_namespace);
            },
            None => {},
        }
        let annotations = match &self.metadata.annotations {
            Some(a) => a.duplicate(),
            None => StringMap::new(),
        };
        let set_owner = match config.set_owner_references {
            Some(b) => b,
            None => false,
        };
        let mut metadata = ObjectMeta::named(
            Some(config.apply_naming(self.metadata.name_any())),
            copy_opt_text(&self.metadata.namespace),
        );
        metadata.annotations = Some(annotations);
        metadata.labels = Some(labels);
        metadata.owner_references = if set_owner {
            Some(self.metadata.owner_ref_list(&Cluster::type_meta()))
        } else {
            None
        };
        let mut spec = fleet_cluster::ClusterSpec::new();
        spec.agent_namespace = Some(config.agent_install_namespace());
        spec.agent_tolerations = Some(config.agent_tolerations());
        spec.host_network = config.host_network;
        spec.agent_env_vars = copy_opt_env(&config.agent_env_vars);
        if config.agent_initiated_connection() {
            spec.client_id = Some(client_id);
        } else {
            spec.kube_config_secret = Some(joined(&self.metadata.name_any(), &text("-kubeconfig")));
        }
        fleet_cluster::Cluster {
            types: Some(<fleet_cluster::Cluster as ResourceDiff>::type_meta()),
            metadata,
            spec,
            status: None,
        }
    }

    /// The downstream cluster. A client identity is drawn at random where
    /// the agent connects by itself, and only there.
    pub fn to_cluster(&self, config: Option<&ClusterConfig>) -> (r: fleet_cluster::Cluster)
        ensures
            if carries_client_id(opt_config(config)) {
                exists|id: Seq<char>|
                    is_client_id(id) && r@ == #[trigger] self@.to_cluster(opt_config(config), id)
            } else {
                r@ == self@.to_cluster(opt_config(config), Seq::empty())
            },
    {
        let draws = match config {
            Some(c) => c.agent_initiated_connection(),
            None => false,
        };
        if draws {
            let id = random_alphanumeric(CLIENT_ID_LENGTH);
            let ghost chosen = id@;
            let r = self.to_cluster_with(config, id);
            assert(is_client_id(chosen) && r@ == self@.to_cluster(opt_config(config), chosen));
            r
        } else {
            self.to_cluster_with(config, String::new())
        }
    }
}

} // verus!
