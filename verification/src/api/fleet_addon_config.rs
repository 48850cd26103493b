//! The configuration object of the operator: which kinds it mirrors, how it
//! names and owns what it writes, which clusters and namespaces it watches,
//! and how the fleet manager itself is installed.

use crate::api::fleet_cluster::{
    copy_opt_tolerations, opt_env_views, opt_toleration_views, ClusterAgentEnvVars,
    ClusterAgentEnvVarsView, ClusterAgentTolerations, ClusterAgentTolerationsView,
};
use crate::api::label_selector::{LabelSelector, LabelSelectorView};
use crate::meta::{Condition, ObjectMeta, ObjectReference};
use crate::text::{joined, opt_text, text};
use vstd::prelude::*;

verus! {

/// The namespace in which the fleet manager and its agents are installed
/// unless the configuration names another.
pub const FLEET_NAMESPACE: &'static str = "cattle-fleet-system";

/// How downstream clusters are named after their source.
pub struct NamingStrategy {
    pub prefix: Option<String>,
    pub suffix: Option<String>,
}

/// What the operator does for cluster classes.
pub struct ClusterClassConfig {
    /// Whether an existing group is patched, or only a missing one created.
    pub patch_resource: Option<bool>,
    /// Whether the group is owned by its cluster class.
    pub set_owner_references: Option<bool>,
}

/// What the operator does for clusters.
pub struct ClusterConfig {
    /// Whether a cluster gets a group and a namespace mapping for its class.
    pub apply_class_group: Option<bool>,
    /// Whether existing downstream objects are patched, or only missing ones created.
    pub patch_resource: Option<bool>,
    /// Whether the downstream cluster is owned by its source.
    pub set_owner_references: Option<bool>,
    pub naming: Option<NamingStrategy>,
    pub agent_namespace: Option<String>,
    pub host_network: Option<bool>,
    pub agent_env_vars: Option<Vec<ClusterAgentEnvVars>>,
    pub agent_tolerations: Option<Vec<ClusterAgentTolerations>>,
    /// Whether the agent connects by itself, with a registration token.
    pub agent_initiated: Option<bool>,
    /// Which clusters are watched.
    pub selector: LabelSelector,
    /// Which namespaces are watched for clusters.
    pub namespace_selector: LabelSelector,
}

pub struct ClusterConfigView {
    pub apply_class_group: Option<bool>,
    pub patch_resource: Option<bool>,
    pub set_owner_references: Option<bool>,
    pub prefix: Option<Seq<char>>,
    pub suffix: Option<Seq<char>>,
    pub agent_namespace: Option<Seq<char>>,
    pub host_network: Option<bool>,
    pub agent_env_vars: Option<Seq<ClusterAgentEnvVarsView>>,
    pub agent_tolerations: Option<Seq<ClusterAgentTolerationsView>>,
    pub agent_initiated: Option<bool>,
    pub selector: LabelSelectorView,
    pub namespace_selector: LabelSelectorView,
}

impl View for ClusterConfig {
    type V = ClusterConfigView;

    open spec fn view(&self) -> ClusterConfigView {
        ClusterConfigView {
            apply_class_group: self.apply_class_group,
            patch_resource: self.patch_resource,
            set_owner_references: self.set_owner_references,
            prefix: match self.naming {
                Some(n) => opt_text(n.prefix),
                None => None,
            },
            suffix: match self.naming {
                Some(n) => opt_text(n.suffix),
                None => None,
            },
            agent_namespace: opt_text(self.agent_namespace),
            host_network: self.host_network,
            agent_env_vars: opt_env_views(self.agent_env_vars),
            agent_tolerations: opt_toleration_views(self.agent_tolerations),
            agent_initiated: self.agent_initiated,
            selector: self.selector@,
            namespace_selector: self.namespace_selector@,
        }
    }
}

impl ClusterConfigView {
    /// The configuration that sets nothing.
    pub open spec fn empty() -> ClusterConfigView {
        ClusterConfigView {
            apply_class_group: None,
            patch_resource: None,
            set_owner_references: None,
            prefix: None,
            suffix: None,
            agent_namespace: None,
            host_network: None,
            agent_env_vars: None,
            agent_tolerations: None,
            agent_initiated: None,
            selector: LabelSelectorView::empty(),
            namespace_selector: LabelSelectorView::empty(),
        }
    }

    pub open spec fn apply_class_group(self) -> bool {
        self.apply_class_group == Some(true)
    }

    pub open spec fn agent_initiated_connection(self) -> bool {
        self.agent_initiated == Some(true)
    }

    /// The name with the configured prefix before it and the configured suffix after it.
    pub open spec fn apply_naming(self, name: Seq<char>) -> Seq<char> {
        let prefix = match self.prefix {
            Some(p) => p,
            None => Seq::empty(),
        };
        let suffix = match self.suffix {
            Some(s) => s,
            None => Seq::empty(),
        };
        prefix + name + suffix
    }

    /// The namespace of the agent: the configured one, else that of the fleet manager.
    pub open spec fn agent_install_namespace(self) -> Seq<char> {
        match self.agent_namespace {
            Some(n) => n,
            None => FLEET_NAMESPACE@,
        }
    }

    /// The configured tolerations, none where the field is absent.
    pub open spec fn tolerations(self) -> Seq<ClusterAgentTolerationsView> {
        match self.agent_tolerations {
            Some(t) => t,
            None => Seq::empty(),
        }
    }
}

impl ClusterConfig {
    /// The configuration that sets nothing.
    pub fn new() -> (c: Self)
        ensures
            c@ == ClusterConfigView::empty(),
    {
        ClusterConfig {
            apply_class_group: None,
            patch_resource: None,
            set_owner_references: None,
            naming: None,
            agent_namespace: None,
            host_network: None,
            agent_env_vars: None,
            agent_tolerations: None,
            agent_initiated: None,
            selector: LabelSelector::new(),
            namespace_selector: LabelSelector::new(),
        }
    }

    pub fn apply_class_group(&self) -> (b: bool)
        ensures
            b == self@.apply_class_group(),
    {
        match self.apply_class_group {
            Some(b) => b,
            None => false,
        }
    }

    pub fn agent_initiated_connection(&self) -> (b: bool)
        ensures
            b == self@.agent_initiated_connection(),
    {
        match self.agent_initiated {
            Some(b) => b,
            None => false,
        }
    }

    pub fn apply_naming(&self, name: String) -> (r: String)
        ensures
            r@ == self@.apply_naming(name@),
    {
        let (prefix, suffix) = match &self.naming {
            Some(n) => (
                match &n.prefix {
                    Some(p) => p.clone(),
                    None => String::new(),
                },
                match &n.suffix {
                    Some(s) => s.clone(),
                    None => String::new(),
                },
            ),
            None => (String::new(), String::new()),
        };
        joined(&joined(&prefix, &name), &suffix)
    }

    pub fn agent_install_namespace(&self) -> (r: String)
        ensures
            r@ == self@.agent_install_namespace(),
    {
        match &self.agent_namespace {
            Some(n) => n.clone(),
            None => text(FLEET_NAMESPACE),
        }
    }

    pub fn agent_tolerations(&self) -> (r: Vec<ClusterAgentTolerations>)
        ensures
            opt_toleration_views(Some(r)) == Some(self@.tolerations()),
    {
        match copy_opt_tolerations(&self.agent_tolerations) {
            Some(t) => t,
            None => {
                let t: Vec<ClusterAgentTolerations> = Vec::new();
                assert(opt_toleration_views(Some(t))->0 =~= Seq::empty());
                t
            },
        }
    }
}

/// Feature toggles of the fleet manager.
pub struct FeatureGates {
    pub experimental_oci_storage: bool,
    pub experimental_helm_ops: bool,
    /// The config map that holds the toggles of an installed fleet manager.
    pub config_map: Option<ObjectReference>,
}

impl FeatureGates {
    /// The name under which the settings hold the toggle of OCI storage.
    pub open spec fn oci_storage_key() -> Seq<char> {
        "EXPERIMENTAL_OCI_STORAGE"@
    }

    /// The name under which the settings hold the toggle of helm operations.
    pub open spec fn helm_ops_key() -> Seq<char> {
        "EXPERIMENTAL_HELM_OPS"@
    }

    /// Writes the toggles into the settings of an installed fleet manager.
    pub fn merge_features(&self, data: &mut crate::string_map::StringMap)
        ensures
            final(data)@ == old(data)@.insert(
                Self::oci_storage_key(),
                crate::text::bool_text(self.experimental_oci_storage),
            ).insert(Self::helm_ops_key(), crate::text::bool_text(self.experimental_helm_ops)),
    {
        data.insert(
            text("EXPERIMENTAL_OCI_STORAGE"),
            crate::text::bool_string(self.experimental_oci_storage),
        );
        data.insert(text("EXPERIMENTAL_HELM_OPS"), crate::text::bool_string(self.experimental_helm_ops));
    }

    /// The toggles as they are reported in a condition.
    pub open spec fn description(&self) -> Seq<char> {
        "EXPERIMENTAL_OCI_STORAGE="@ + crate::text::bool_text(self.experimental_oci_storage)
            + ",EXPERIMENTAL_HELM_OPS="@ + crate::text::bool_text(self.experimental_helm_ops)
    }

    /// Computes [`Self::description`].
    pub fn describe(&self) -> (r: String)
        ensures
            r@ == self.description(),
    {
        let mut r = joined(
            &text("EXPERIMENTAL_OCI_STORAGE="),
            &crate::text::bool_string(self.experimental_oci_storage),
        );
        r = joined(&r, &text(",EXPERIMENTAL_HELM_OPS="));
        r = joined(&r, &crate::text::bool_string(self.experimental_helm_ops));
        r
    }

    /// The config map to update with the toggles, where the configuration names one.
    pub fn config_map_ref(&self) -> (r: Option<&ObjectReference>)
        ensures
            r == match self.config_map {
                Some(m) => Some(&m),
                None => None::<&ObjectReference>,
            },
    {
        self.config_map.as_ref()
    }
}

/// The options of a custom API server endpoint.
pub struct InstallOptions {
    /// The config map that holds the certificate authority of the API server.
    pub api_server_ca_config_ref: Option<ObjectReference>,
    pub api_server_url: Option<String>,
}

/// Where downstream agents reach the API server of the management cluster.
pub enum Server {
    /// Take endpoint and certificate authority from the management cluster itself.
    InferLocal(bool),
    Custom(InstallOptions),
}

/// Settings of the fleet manager that the operator keeps in sync.
pub struct FleetConfigSettings {
    pub server: Option<Server>,
    pub feature_gates: Option<FeatureGates>,
    pub bootstrap_local_cluster: Option<bool>,
}

/// Which version of the fleet manager is installed.
pub enum Install {
    /// The newest chart of the repository, if the flag is set.
    FollowLatest(bool),
    /// This version.
    Version(String),
}

pub enum InstallView {
    FollowLatest(bool),
    Version(Seq<char>),
}

impl View for Install {
    type V = InstallView;

    open spec fn view(&self) -> InstallView {
        match self {
            Install::FollowLatest(b) => InstallView::FollowLatest(*b),
            Install::Version(v) => InstallView::Version(v@),
        }
    }
}

impl InstallView {
    /// The version with a leading `v`, whether it was written with one or not.
    pub open spec fn normalized(self) -> InstallView {
        match self {
            InstallView::FollowLatest(b) => InstallView::FollowLatest(b),
            InstallView::Version(v) => InstallView::Version("v"@ + crate::text::without_v(v)),
        }
    }
}

impl Install {
    /// Computes [`InstallView::normalized`].
    pub fn normalized(self) -> (r: Self)
        ensures
            r@ == self@.normalized(),
    {
        match self {
            Install::FollowLatest(b) => Install::FollowLatest(b),
            Install::Version(v) => Install::Version(joined(&text("v"), &crate::text::strip_v(&v))),
        }
    }

    pub fn duplicate(&self) -> (r: Self)
        ensures
            r@ == self@,
    {
        match self {
            Install::FollowLatest(b) => Install::FollowLatest(*b),
            Install::Version(v) => Install::Version(v.clone()),
        }
    }
}

pub struct FleetInstall {
    pub install_version: Install,
}

pub struct FleetAddonConfigSpec {
    pub cluster_class: Option<ClusterClassConfig>,
    pub cluster: Option<ClusterConfig>,
    pub config: Option<FleetConfigSettings>,
    pub install: Option<FleetInstall>,
}

pub struct FleetAddonConfigStatus {
    pub installed_version: Option<String>,
    pub conditions: Vec<Condition>,
}

pub struct FleetAddonConfig {
    pub metadata: ObjectMeta,
    pub spec: FleetAddonConfigSpec,
    pub status: Option<FleetAddonConfigStatus>,
}

/// The part of the configuration that decides what is derived for a source object.
pub struct FleetAddonConfigView {
    pub cluster_class: Option<(Option<bool>, Option<bool>)>,
    pub cluster: Option<ClusterConfigView>,
}

impl View for FleetAddonConfig {
    type V = FleetAddonConfigView;

    open spec fn view(&self) -> FleetAddonConfigView {
        FleetAddonConfigView {
            cluster_class: match self.spec.cluster_class {
                Some(c) => Some((c.patch_resource, c.set_owner_references)),
                None => None,
            },
            cluster: match self.spec.cluster {
                Some(c) => Some(c@),
                None => None,
            },
        }
    }
}

impl FleetAddonConfigView {
    /// Clusters are mirrored where the configuration has a section for them.
    pub open spec fn cluster_operations_enabled(self) -> bool {
        self.cluster is Some
    }

    /// Cluster classes are mirrored where the configuration has a section for them.
    pub open spec fn cluster_class_operations_enabled(self) -> bool {
        self.cluster_class is Some
    }

    pub open spec fn cluster_patch_enabled(self) -> bool {
        self.cluster matches Some(c) && c.patch_resource == Some(true)
    }

    pub open spec fn cluster_class_patch_enabled(self) -> bool {
        self.cluster_class matches Some(c) && c.0 == Some(true)
    }

    pub open spec fn cluster_class_owner_references(self) -> bool {
        self.cluster_class matches Some(c) && c.1 == Some(true)
    }
}

/// The name of the one configuration object of the operator.
pub const CONFIG_NAME: &'static str = "fleet-addon-config";

impl FleetAddonConfig {
    /// The configuration that is assumed while the cluster holds none: it
    /// has no section for clusters and none for cluster classes, so nothing
    /// is mirrored and everything is watched.
    pub fn new() -> (c: Self)
        ensures
            c@ == (FleetAddonConfigView { cluster_class: None, cluster: None }),
            c.spec.config is None,
            c.spec.install is None,
            c.status is None,
            c.metadata@ == crate::meta::ObjectMetaView::empty(),
    {
        FleetAddonConfig {
            metadata: ObjectMeta::new(),
            spec: FleetAddonConfigSpec { cluster_class: None, cluster: None, config: None, install: None },
            status: None,
        }
    }

    /// The configuration to work with, given what the lookup of the
    /// configuration object found.
    pub fn fetched(found: Option<FleetAddonConfig>) -> (c: Self)
        ensures
            match found {
                Some(f) => c == f,
                None => c@ == (FleetAddonConfigView { cluster_class: None, cluster: None }),
            },
    {
        match found {
            Some(f) => f,
            None => FleetAddonConfig::new(),
        }
    }

    pub fn cluster_operations_enabled(&self) -> (b: bool)
        ensures
            b == self@.cluster_operations_enabled(),
    {
        self.spec.cluster.is_some()
    }

    pub fn cluster_class_operations_enabled(&self) -> (b: bool)
        ensures
            b == self@.cluster_class_operations_enabled(),
    {
        self.spec.cluster_class.is_some()
    }

    pub fn cluster_patch_enabled(&self) -> (b: bool)
        ensures
            b == self@.cluster_patch_enabled(),
    {
        match &self.spec.cluster {
            Some(c) => match c.patch_resource {
                Some(b) => b,
                None => false,
            },
            None => false,
        }
    }

    pub fn cluster_class_patch_enabled(&self) -> (b: bool)
        ensures
            b == self@.cluster_class_patch_enabled(),
    {
        match &self.spec.cluster_class {
            Some(c) => match c.patch_resource {
                Some(b) => b,
                None => false,
            },
            None => false,
        }
    }

    pub fn cluster_class_owner_references(&self) -> (b: bool)
        ensures
            b == self@.cluster_class_owner_references(),
    {
        match &self.spec.cluster_class {
            Some(c) => match c.set_owner_references {
                Some(b) => b,
                None => false,
            },
            None => false,
        }
    }
}

} // verus!
