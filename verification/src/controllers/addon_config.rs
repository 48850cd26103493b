//! The configuration controller: the dynamic watch registry, which follows
//! the selectors of the configuration, and the upkeep of the settings of the
//! fleet manager.

use crate::api::capi_cluster::ClusterView;
use crate::api::comparable::{Namespace, ResourceDiff};
use crate::api::fleet_addon_config::{FleetAddonConfig, FleetAddonConfigView};
use crate::api::label_selector::{
    selector_fault, selector_text, LabelSelector, LabelSelectorView,
};
use crate::meta::{opt_types, TypeMeta, TypeMetaView};
use crate::multi_dispatcher::{
    initial_list_strategy, strategy_for, DynamicObject, DynamicObjectView, WatchDescriptor,
    WatchDescriptorView, WatchEvent, WatchScope, WatchScopeView, WatchSet,
};
use crate::controllers::{ErrorClass, PatchError};
use crate::runtime::{Action, KubeError};
use vstd::prelude::*;

verus! {

#[derive(Debug)]
pub enum DynamicWatcherError {
    /// A selector of the configuration is malformed; the text says why.
    SelectorParseError(String),
}

impl FleetAddonConfigView {
    /// The selector of the clusters to watch: that of the configuration,
    /// or the one that selects everything where clusters have no section.
    pub open spec fn cluster_selector(self) -> LabelSelectorView {
        match self.cluster {
            Some(c) => c.selector,
            None => LabelSelectorView::empty(),
        }
    }

    /// The selector of the namespaces to watch.
    pub open spec fn namespace_selector(self) -> LabelSelectorView {
        match self.cluster {
            Some(c) => c.namespace_selector,
            None => LabelSelectorView::empty(),
        }
    }
}

/// The watch on the cluster descriptors of all namespaces under a label selector.
pub open spec fn cluster_watch(selector: Seq<char>, version: u32) -> WatchDescriptorView {
    WatchDescriptorView {
        resource: ClusterView::kind_of(),
        scope: WatchScopeView::All,
        label_selector: Some(selector),
        field_selector: None,
        strategy: strategy_for(version),
    }
}

/// The watch on the namespaces under a label selector.
pub open spec fn namespace_watch(selector: Seq<char>, version: u32) -> WatchDescriptorView {
    WatchDescriptorView {
        resource: <Namespace as ResourceDiff>::kind_of(),
        scope: WatchScopeView::All,
        label_selector: Some(selector),
        field_selector: None,
        strategy: strategy_for(version),
    }
}

/// The watches that a configuration asks for: one on clusters, one on namespaces.
pub open spec fn computed_watches(
    cluster_selector: Seq<char>,
    namespace_selector: Seq<char>,
    version: u32,
) -> Seq<WatchDescriptorView> {
    seq![cluster_watch(cluster_selector, version), namespace_watch(namespace_selector, version)]
}

/// Replaces the watch set by the watches for the two selectors. Whatever the
/// set held before is dropped: after the call it holds the computed watches
/// and nothing else.
pub fn reconfigure(
    watches: &mut WatchSet,
    cluster_selector: String,
    namespace_selector: String,
    version: u32,
)
    ensures
        final(watches)@ == computed_watches(cluster_selector@, namespace_selector@, version),
{
    watches.clear();
    watches.push(
        WatchDescriptor {
            resource: crate::api::capi_cluster::Cluster::type_meta(),
            scope: WatchScope::All,
            label_selector: Some(cluster_selector),
            field_selector: None,
            strategy: initial_list_strategy(version),
        },
    );
    watches.push(
        WatchDescriptor {
            resource: <Namespace as ResourceDiff>::type_meta(),
            scope: WatchScope::All,
            label_selector: Some(namespace_selector),
            field_selector: None,
            strategy: initial_list_strategy(version),
        },
    );
    assert(watches@ =~= computed_watches(cluster_selector@, namespace_selector@, version));
}

/// What a reconfiguration does, given the texts of the two selectors or the
/// reasons why they have none: a malformed selector leaves the watch set as it
/// is and is reported, that of the clusters first; two well-formed ones
/// replace the watch set.
pub open spec fn watches_after(
    before: Seq<WatchDescriptorView>,
    cluster_selector: Result<Seq<char>, Seq<char>>,
    namespace_selector: Result<Seq<char>, Seq<char>>,
    version: u32,
) -> (Seq<WatchDescriptorView>, Option<Seq<char>>) {
    match (cluster_selector, namespace_selector) {
        (Err(e), _) => (before, Some(e)),
        (Ok(_), Err(e)) => (before, Some(e)),
        (Ok(c), Ok(n)) => (computed_watches(c, n, version), None),
    }
}

/// What is wrong with the selectors of a configuration, if anything: the
/// first malformed requirement of the selector of the clusters, else that of
/// the selector of the namespaces.
pub open spec fn malformed(cluster_selector: LabelSelectorView, namespace_selector: LabelSelectorView) -> Option<
    Seq<char>,
> {
    match selector_fault(cluster_selector) {
        Some(fault) => Some(fault),
        None => selector_fault(namespace_selector),
    }
}

impl FleetAddonConfig {
    fn cluster_selector(&self) -> (r: LabelSelector)
        ensures
            r@ == self@.cluster_selector(),
    {
        match &self.spec.cluster {
            Some(c) => c.selector.duplicate(),
            None => LabelSelector::new(),
        }
    }

    fn namespace_selector(&self) -> (r: LabelSelector)
        ensures
            r@ == self@.namespace_selector(),
    {
        match &self.spec.cluster {
            Some(c) => c.namespace_selector.duplicate(),
            None => LabelSelector::new(),
        }
    }

    /// Brings the watch set in line with the selectors of the configuration.
    pub fn update_watches(&self, watches: &mut WatchSet, version: u32) -> (r: Result<
        Action,
        DynamicWatcherError,
    >)
        ensures
            final(watches)@ == watches_after(
                old(watches)@,
                selector_text(self@.cluster_selector()),
                selector_text(self@.namespace_selector()),
                version,
            ).0,
            match watches_after(
                old(watches)@,
                selector_text(self@.cluster_selector()),
                selector_text(self@.namespace_selector()),
                version,
            ).1 {
                Some(reason) => r matches Err(DynamicWatcherError::SelectorParseError(m)) && m@ == reason,
                None => r == Ok::<Action, DynamicWatcherError>(Action::AwaitChange),
            },
            r matches Err(DynamicWatcherError::SelectorParseError(m)) ==> Some(m@) == malformed(
                self@.cluster_selector(),
                self@.namespace_selector(),
            ),
            r is Ok <==> malformed(self@.cluster_selector(), self@.namespace_selector()) is None,
    {
        let cluster_selector = match self.cluster_selector().render() {
            Ok(t) => t,
            Err(e) => {
                return Err(DynamicWatcherError::SelectorParseError(e));
            },
        };
        let namespace_selector = match self.namespace_selector().render() {
            Ok(t) => t,
            Err(e) => {
                return Err(DynamicWatcherError::SelectorParseError(e));
            },
        };
        reconfigure(watches, cluster_selector, namespace_selector, version);
        Ok(Action::AwaitChange)
    }
}

/// Whatever the watch set held, and whichever configurations came before: a
/// reconfiguration that goes through leaves exactly the watches of the latest
/// configuration. No watch of an earlier generation survives it.
pub proof fn lemma_reconfiguration_is_exact(
    before: Seq<WatchDescriptorView>,
    earlier: (Seq<char>, Seq<char>),
    latest: (Seq<char>, Seq<char>),
    version: u32,
)
    ensures
        watches_after(
            watches_after(before, Ok(earlier.0), Ok(earlier.1), version).0,
            Ok(latest.0),
            Ok(latest.1),
            version,
        ).0 == computed_watches(latest.0, latest.1, version),
        forall|w: WatchDescriptorView| #[trigger]
            computed_watches(latest.0, latest.1, version).contains(w) ==> w.label_selector == Some(
                latest.0,
            ) || w.label_selector == Some(latest.1),
{
    let c = computed_watches(latest.0, latest.1, version);
    assert forall|w: WatchDescriptorView| #[trigger] c.contains(w) implies w.label_selector == Some(
        latest.0,
    ) || w.label_selector == Some(latest.1) by {
        let i = choose|i: int| 0 <= i < c.len() && c[i] == w;
        assert(i == 0 || i == 1);
    }
}

/// An error of a watch.
#[derive(Debug)]
pub enum WatcherError {
    InitialListFailed(KubeError),
    WatchStartFailed(KubeError),
    /// The API server answered the watch with an error status.
    WatchError { code: u16, reason: String, message: String },
    WatchFailed(KubeError),
    NoResourceVersion,
}

/// The object with the type filled in where it names none.
pub open spec fn typed(o: DynamicObjectView, types: TypeMetaView) -> DynamicObjectView {
    match o.types {
        Some(_) => o,
        None => DynamicObjectView { types: Some(types), ..o },
    }
}

/// The generic event for a typed one, where the object of the typed event
/// has already been taken through its structured representation, or has
/// failed to: an event without an object stays what it is, an object gets
/// its type where it names none, and an object that did not convert fails
/// the watch.
pub open spec fn dynamic_event(
    ev: Result<WatchEvent<Result<DynamicObject, String>>, WatcherError>,
    types: TypeMetaView,
) -> Result<WatchEvent<DynamicObjectView>, WatcherError> {
    match ev {
        Err(e) => Err(e),
        Ok(WatchEvent::Init) => Ok(WatchEvent::Init),
        Ok(WatchEvent::InitDone) => Ok(WatchEvent::InitDone),
        Ok(WatchEvent::Apply(Ok(o))) => Ok(WatchEvent::Apply(typed(o@, types))),
        Ok(WatchEvent::Delete(Ok(o))) => Ok(WatchEvent::Delete(typed(o@, types))),
        Ok(WatchEvent::InitApply(Ok(o))) => Ok(WatchEvent::InitApply(typed(o@, types))),
        Ok(WatchEvent::Apply(Err(m))) => Err(WatcherError::WatchFailed(KubeError::Serde(m))),
        Ok(WatchEvent::Delete(Err(m))) => Err(WatcherError::WatchFailed(KubeError::Serde(m))),
        Ok(WatchEvent::InitApply(Err(m))) => Err(WatcherError::WatchFailed(KubeError::Serde(m))),
    }
}

/// The view of an event of generic objects, or of the error of the watch.
pub open spec fn event_view(r: Result<WatchEvent<DynamicObject>, WatcherError>) -> Result<
    WatchEvent<DynamicObjectView>,
    WatcherError,
> {
    match r {
        Err(e) => Err(e),
        Ok(WatchEvent::Init) => Ok(WatchEvent::Init),
        Ok(WatchEvent::InitDone) => Ok(WatchEvent::InitDone),
        Ok(WatchEvent::Apply(o)) => Ok(WatchEvent::Apply(o@)),
        Ok(WatchEvent::Delete(o)) => Ok(WatchEvent::Delete(o@)),
        Ok(WatchEvent::InitApply(o)) => Ok(WatchEvent::InitApply(o@)),
    }
}

/// Fills in the type of an object that names none.
fn with_type(o: DynamicObject, types: &TypeMeta) -> (r: DynamicObject)
    ensures
        r@ == typed(o@, types@),
{
    let mut o = o;
    if o.types.is_none() {
        o.types = Some(types.duplicate());
    }
    o
}

/// Computes [`dynamic_event`].
pub fn to_dynamic_event(
    ev: Result<WatchEvent<Result<DynamicObject, String>>, WatcherError>,
    types: &TypeMeta,
) -> (r: Result<WatchEvent<DynamicObject>, WatcherError>)
    ensures
        event_view(r) == dynamic_event(ev, types@),
{
    match ev {
        Err(e) => Err(e),
        Ok(WatchEvent::Init) => Ok(WatchEvent::Init),
        Ok(WatchEvent::InitDone) => Ok(WatchEvent::InitDone),
        Ok(WatchEvent::Apply(Ok(o))) => Ok(WatchEvent::Apply(with_type(o, types))),
        Ok(WatchEvent::Delete(Ok(o))) => Ok(WatchEvent::Delete(with_type(o, types))),
        Ok(WatchEvent::InitApply(Ok(o))) => Ok(WatchEvent::InitApply(with_type(o, types))),
        Ok(WatchEvent::Apply(Err(m))) => Err(WatcherError::WatchFailed(KubeError::Serde(m))),
        Ok(WatchEvent::Delete(Err(m))) => Err(WatcherError::WatchFailed(KubeError::Serde(m))),
        Ok(WatchEvent::InitApply(Err(m))) => Err(WatcherError::WatchFailed(KubeError::Serde(m))),
    }
}

/// The settings of the fleet manager as its config map holds them: the
/// endpoint and the certificate authority of the API server, and the rest
/// of the settings as structured text.
pub struct FleetConfigData {
    pub api_server_url: String,
    pub api_server_ca: String,
    pub other: String,
}

pub struct FleetConfigSpec {
    pub config: FleetConfigData,
}

/// The config map of the fleet manager.
pub struct FleetConfig {
    pub types: Option<TypeMeta>,
    pub metadata: crate::meta::ObjectMeta,
    pub data: FleetConfigSpec,
}

/// The namespace and the name of the config map of the fleet manager, and of
/// the objects of the management cluster that its settings are taken from.
pub const FLEET_CONFIG_NAME: &'static str = "fleet-controller";

pub const ROOT_CA_CONFIG_MAP: &'static str = "kube-root-ca.crt";

pub const API_SERVER_ENDPOINTS: &'static str = "kubernetes";

pub const DEFAULT_NAMESPACE: &'static str = "default";

/// The standard Base64 text, with padding, of the UTF-8 bytes of a text, as
/// the `base64` crate encodes them.
pub uninterp spec fn base64_standard(input: Seq<char>) -> Seq<char>;

/// Encodes the bytes of the text with `base64::engine::general_purpose::STANDARD`
/// through `base64::Engine::encode`. The contract names the result and
/// states nothing else about it.
#[verifier::external_body]
fn encode_base64(input: &String) -> (r: String)
    ensures
        r@ == base64_standard(input@),
{
    base64::Engine::encode(&base64::engine::general_purpose::STANDARD, input)
}

/// Where the certificate authority of the API server is read from.
pub enum CertificateSource {
    /// The config map of the root certificate of the management cluster.
    RootCa { name: String, namespace: String },
    /// The config map that the configuration points at.
    Reference(crate::meta::ObjectReference),
}

/// Where the endpoint of the API server is taken from.
pub enum UrlSource {
    /// The endpoints object of the API server of the management cluster.
    Endpoints { name: String, namespace: String },
    /// The endpoint that the configuration gives.
    Given(String),
}

impl crate::api::fleet_addon_config::Server {
    /// Where the certificate authority comes from, if it is to be set at all.
    pub fn certificate_source(&self) -> (r: Option<CertificateSource>)
        ensures
            match *self {
                crate::api::fleet_addon_config::Server::InferLocal(true) => r matches Some(
                    CertificateSource::RootCa { name, namespace },
                ) && name@ == ROOT_CA_CONFIG_MAP@ && namespace@ == DEFAULT_NAMESPACE@,
                crate::api::fleet_addon_config::Server::InferLocal(false) => r is None,
                crate::api::fleet_addon_config::Server::Custom(options) => match options.api_server_ca_config_ref {
                    Some(reference) => r matches Some(CertificateSource::Reference(x)) && x@
                        == reference@,
                    None => r is None,
                },
            },
    {
        match self {
            crate::api::fleet_addon_config::Server::InferLocal(true) => Some(
                CertificateSource::RootCa {
                    name: crate::text::text(ROOT_CA_CONFIG_MAP),
                    namespace: crate::text::text(DEFAULT_NAMESPACE),
                },
            ),
            crate::api::fleet_addon_config::Server::Custom(options) => match &options.api_server_ca_config_ref {
                Some(reference) => Some(CertificateSource::Reference(reference.duplicate())),
                None => None,
            },
            _ => None,
        }
    }

    /// Where the endpoint comes from, if it is to be set at all.
    pub fn url_source(&self) -> (r: Option<UrlSource>)
        ensures
            match *self {
                crate::api::fleet_addon_config::Server::InferLocal(true) => r matches Some(
                    UrlSource::Endpoints { name, namespace },
                ) && name@ == API_SERVER_ENDPOINTS@ && namespace@ == DEFAULT_NAMESPACE@,
                crate::api::fleet_addon_config::Server::InferLocal(false) => r is None,
                crate::api::fleet_addon_config::Server::Custom(options) => match options.api_server_url {
                    Some(url) => r matches Some(UrlSource::Given(x)) && x@ == url@,
                    None => r is None,
                },
            },
    {
        match self {
            crate::api::fleet_addon_config::Server::InferLocal(true) => Some(
                UrlSource::Endpoints {
                    name: crate::text::text(API_SERVER_ENDPOINTS),
                    namespace: crate::text::text(DEFAULT_NAMESPACE),
                },
            ),
            crate::api::fleet_addon_config::Server::Custom(options) => match &options.api_server_url {
                Some(url) => Some(UrlSource::Given(url.clone())),
                None => None,
            },
            _ => None,
        }
    }
}

/// An address of an endpoint.
pub struct EndpointAddress {
    pub hostname: Option<String>,
    pub ip: String,
}

/// A port of an endpoint.
pub struct EndpointPort {
    pub name: Option<String>,
    pub port: i32,
}

pub struct EndpointSubset {
    pub addresses: Option<Vec<EndpointAddress>>,
    pub ports: Option<Vec<EndpointPort>>,
}

/// The endpoints of a service.
pub struct Endpoints {
    pub subsets: Option<Vec<EndpointSubset>>,
}

/// The endpoint that the first address and the first port of the first
/// subset give: the host name, or the address where there is none, alone
/// where the port has no name, else with the name of the port before it as
/// the scheme and the number of the port after it.
pub open spec fn endpoint_url(endpoints: Endpoints) -> Option<Seq<char>> {
    match endpoints.subsets {
        Some(subsets) => if subsets@.len() > 0 {
            match (subsets@[0].addresses, subsets@[0].ports) {
                (Some(addresses), Some(ports)) => if addresses@.len() > 0 && ports@.len() > 0 {
                    let host = match addresses@[0].hostname {
                        Some(h) => h@,
                        None => addresses@[0].ip@,
                    };
                    match ports@[0].name {
                        Some(name) => Some(
                            name@ + "://"@ + host + ":"@ + crate::text::decimal_text(
                                ports@[0].port as int,
                            ),
                        ),
                        None => Some(host),
                    }
                } else {
                    None
                },
                _ => None,
            }
        } else {
            None
        },
        None => None,
    }
}

/// Computes [`endpoint_url`].
pub fn default_endpoint_lookup(endpoints: &Endpoints) -> (r: Option<String>)
    ensures
        crate::text::opt_text(r) == endpoint_url(*endpoints),
{
    let subsets = match &endpoints.subsets {
        Some(s) => s,
        None => {
            return None;
        },
    };
    if subsets.len() == 0 {
        return None;
    }
    let addresses = match &subsets[0].addresses {
        Some(a) => a,
        None => {
            return None;
        },
    };
    let ports = match &subsets[0].ports {
        Some(p) => p,
        None => {
            return None;
        },
    };
    if addresses.len() == 0 || ports.len() == 0 {
        return None;
    }
    let host = match &addresses[0].hostname {
        Some(h) => h.clone(),
        None => addresses[0].ip.clone(),
    };
    match &ports[0].name {
        Some(name) => {
            let mut url = crate::text::joined(name, &crate::text::text("://"));
            url = crate::text::joined(&url, &host);
            url = crate::text::joined(&url, &crate::text::text(":"));
            url = crate::text::joined(&url, &crate::text::decimal(ports[0].port as i64));
            Some(url)
        },
        None => Some(host),
    }
}

impl FleetConfig {
    /// Sets the certificate authority to the Base64 text of the certificate.
    pub fn update_certificate(&mut self, ca_crt: &String)
        ensures
            final(self).data.config.api_server_ca@ == base64_standard(ca_crt@),
            final(self).data.config.api_server_url == old(self).data.config.api_server_url,
            final(self).data.config.other == old(self).data.config.other,
            final(self).metadata == old(self).metadata,
            final(self).types == old(self).types,
    {
        self.data.config.api_server_ca = encode_base64(ca_crt);
    }

    /// Sets the endpoint of the API server, where one was found.
    pub fn update_url(&mut self, url: Option<String>)
        ensures
            final(self).data.config.api_server_url == match url {
                Some(u) => u,
                None => old(self).data.config.api_server_url,
            },
            final(self).data.config.api_server_ca == old(self).data.config.api_server_ca,
            final(self).data.config.other == old(self).data.config.other,
            final(self).metadata == old(self).metadata,
            final(self).types == old(self).types,
    {
        match url {
            Some(u) => {
                self.data.config.api_server_url = u;
            },
            None => {},
        }
    }

    /// Prepares the config map for the apply that writes it back: the
    /// recorded field writers go, the type is set.
    pub fn prepare(&mut self)
        ensures
            final(self).metadata@ == (crate::meta::ObjectMetaView {
                managed_fields: None,
                ..old(self).metadata@
            }),
            opt_types(final(self).types) == Some(
                TypeMetaView { api_version: "v1"@, kind: "ConfigMap"@ },
            ),
            final(self).data == old(self).data,
    {
        self.metadata.managed_fields = None;
        self.types = Some(
            TypeMeta { api_version: crate::text::text("v1"), kind: crate::text::text("ConfigMap") },
        );
    }
}

/// Why the package manager failed.
#[derive(Debug)]
pub enum HelmError {
    /// The command could not be run, or did not end; the text says why.
    Command(String),
    /// What the command wrote is not valid text.
    Output(String),
    /// What the command wrote could not be read as the expected structure.
    Parse(String),
}

#[derive(Debug)]
pub enum ConfigMapSyncError {
    FetchConfigMap(KubeError),
    Patch(PatchError),
}

#[derive(Debug)]
pub enum FleetPatchError {
    FleetPatch(HelmError),
    RepoSearch(HelmError),
    MetadataGet(HelmError),
    CommandError(String),
    ConfigMapSyncError(ConfigMapSyncError),
}

#[derive(Debug)]
pub enum AddonConfigSyncError {
    CertificateConfigMapFetch(KubeError),
    FleetInstall(HelmError),
    CRDInstall(HelmError),
    RepoSearch(HelmError),
    MetadataGet(HelmError),
    CommandError(String),
}

impl ConfigMapSyncError {
    pub open spec fn class(&self) -> ErrorClass {
        match self {
            ConfigMapSyncError::FetchConfigMap(_) => ErrorClass::Lookup,
            ConfigMapSyncError::Patch(e) => e.class(),
        }
    }

    pub fn error_class(&self) -> (c: ErrorClass)
        ensures
            c == self.class(),
    {
        match self {
            ConfigMapSyncError::FetchConfigMap(_) => ErrorClass::Lookup,
            ConfigMapSyncError::Patch(e) => e.error_class(),
        }
    }
}

impl FleetPatchError {
    pub open spec fn class(&self) -> ErrorClass {
        match self {
            FleetPatchError::ConfigMapSyncError(e) => e.class(),
            _ => ErrorClass::Install,
        }
    }

    pub fn error_class(&self) -> (c: ErrorClass)
        ensures
            c == self.class(),
    {
        match self {
            FleetPatchError::ConfigMapSyncError(e) => e.error_class(),
            _ => ErrorClass::Install,
        }
    }
}

impl AddonConfigSyncError {
    pub open spec fn class(&self) -> ErrorClass {
        match self {
            AddonConfigSyncError::CertificateConfigMapFetch(_) => ErrorClass::Lookup,
            _ => ErrorClass::Install,
        }
    }

    pub fn error_class(&self) -> (c: ErrorClass)
        ensures
            c == self.class(),
    {
        match self {
            AddonConfigSyncError::CertificateConfigMapFetch(_) => ErrorClass::Lookup,
            _ => ErrorClass::Install,
        }
    }
}

/// The repository of the charts of the fleet manager.
pub const FLEET_REPOSITORY: &'static str = "https://rancher.github.io/fleet-helm-charts/";

impl FleetAddonConfig {
    /// Whether the local cluster is bootstrapped, which it is not unless the
    /// configuration says so.
    pub open spec fn bootstrap(&self) -> bool {
        self.spec.config matches Some(c) && c.bootstrap_local_cluster == Some(true)
    }

    /// The chart settings that the configuration asks for, with the version
    /// to install where it names one.
    pub fn chart(&self) -> (chart: crate::controllers::helm::install::FleetChart)
        ensures
            chart.repo@ == FLEET_REPOSITORY@,
            chart.namespace@ == crate::api::fleet_addon_config::FLEET_NAMESPACE@,
            chart.wait && chart.update_dependency && chart.create_namespace,
            chart.bootstrap_local_cluster == self.bootstrap(),
            match self.spec.install {
                Some(i) => chart.version matches Some(v) && v@ == i.install_version@,
                None => chart.version is None,
            },
            match self.spec.config {
                Some(c) => match c.feature_gates {
                    Some(g) => chart.feature_gates.experimental_oci_storage == g.experimental_oci_storage
                        && chart.feature_gates.experimental_helm_ops == g.experimental_helm_ops,
                    None => !chart.feature_gates.experimental_oci_storage
                        && !chart.feature_gates.experimental_helm_ops,
                },
                None => !chart.feature_gates.experimental_oci_storage
                    && !chart.feature_gates.experimental_helm_ops,
            },
    {
        let (bootstrap, oci, helm_ops) = match &self.spec.config {
            Some(c) => (
                match c.bootstrap_local_cluster {
                    Some(b) => b,
                    None => false,
                },
                match &c.feature_gates {
                    Some(g) => g.experimental_oci_storage,
                    None => false,
                },
                match &c.feature_gates {
                    Some(g) => g.experimental_helm_ops,
                    None => false,
                },
            ),
            None => (false, false, false),
        };
        crate::controllers::helm::install::FleetChart {
            repo: crate::text::text(FLEET_REPOSITORY),
            namespace: crate::text::text(crate::api::fleet_addon_config::FLEET_NAMESPACE),
            wait: true,
            update_dependency: true,
            create_namespace: true,
            bootstrap_local_cluster: bootstrap,
            feature_gates: crate::api::fleet_addon_config::FeatureGates {
                experimental_oci_storage: oci,
                experimental_helm_ops: helm_ops,
                config_map: None,
            },
            version: match &self.spec.install {
                Some(i) => Some(i.install_version.duplicate()),
                None => None,
            },
        }
    }

    /// The config map in which the toggles of an installed fleet manager are
    /// to be updated, where the configuration names one.
    pub fn update_flags(&self) -> (r: Option<crate::meta::ObjectReference>)
        ensures
            match r {
                Some(x) => self.spec.config matches Some(c) && c.feature_gates matches Some(g)
                    && g.config_map matches Some(m) && x@ == m@,
                None => !(self.spec.config matches Some(c) && c.feature_gates matches Some(g)
                    && g.config_map is Some),
            },
    {
        match &self.spec.config {
            Some(c) => match &c.feature_gates {
                Some(g) => match g.config_map_ref() {
                    Some(m) => Some(m.duplicate()),
                    None => None,
                },
                None => None,
            },
            None => None,
        }
    }

    /// Adds a condition to the status, which is created where it is missing.
    pub fn record(&mut self, condition: crate::meta::Condition)
        ensures
            final(self).status is Some,
            recorded(final(self).status) == recorded(old(self).status).push(condition@),
            recorded_version(final(self).status) == recorded_version(old(self).status),
            final(self).metadata == old(self).metadata,
            final(self).spec == old(self).spec,
    {
        let mut status = match self.status.take() {
            Some(s) => s,
            None => crate::api::fleet_addon_config::FleetAddonConfigStatus {
                installed_version: None,
                conditions: Vec::new(),
            },
        };
        let ghost before = crate::meta::condition_views(status.conditions@);
        status.conditions.push(condition);
        assert(crate::meta::condition_views(status.conditions@) =~= before.push(condition@));
        self.status = Some(status);
    }
}

/// The messages of the conditions that tell how far an installation got.
pub open spec fn repo_added_message(repo: Seq<char>) -> Seq<char> {
    "Repo added: "@ + repo
}

pub open spec fn repo_updated_message(repo: Seq<char>) -> Seq<char> {
    "Repo updated: "@ + repo
}

pub open spec fn flags_updated_message(flags: Seq<char>) -> Seq<char> {
    "Updated chart flags to the expected state: "@ + flags
}

/// The condition that the repository was added.
pub fn repo_added(repo: &String, generation: Option<i64>, now: &String) -> (c: crate::meta::Condition)
    ensures
        c@ == crate::controller::held("RepoAdd"@, repo_added_message(repo@), generation, now@),
{
    crate::controller::condition(
        &crate::text::text("RepoAdd"),
        crate::text::joined(&crate::text::text("Repo added: "), repo),
        generation,
        now,
    )
}

/// The condition that the repository was updated.
pub fn repo_updated(repo: &String, generation: Option<i64>, now: &String) -> (c: crate::meta::Condition)
    ensures
        c@ == crate::controller::held("RepoUpdate"@, repo_updated_message(repo@), generation, now@),
{
    crate::controller::condition(
        &crate::text::text("RepoUpdate"),
        crate::text::joined(&crate::text::text("Repo updated: "), repo),
        generation,
        now,
    )
}

/// The condition that the feature toggles of the installed fleet manager were updated.
pub fn flags_updated(
    flags: &crate::api::fleet_addon_config::FeatureGates,
    generation: Option<i64>,
    now: &String,
) -> (c: crate::meta::Condition)
    ensures
        c@ == crate::controller::held(
            "FlagsUpdate"@,
            flags_updated_message(flags.description()),
            generation,
            now@,
        ),
{
    crate::controller::condition(
        &crate::text::text("FlagsUpdate"),
        crate::text::joined(
            &crate::text::text("Updated chart flags to the expected state: "),
            &flags.describe(),
        ),
        generation,
        now,
    )
}

/// The conditions of a status, none where there is no status.
pub open spec fn recorded(
    status: Option<crate::api::fleet_addon_config::FleetAddonConfigStatus>,
) -> Seq<crate::meta::ConditionView> {
    match status {
        Some(s) => crate::meta::condition_views(s.conditions@),
        None => Seq::empty(),
    }
}

/// The installed version of a status.
pub open spec fn recorded_version(
    status: Option<crate::api::fleet_addon_config::FleetAddonConfigStatus>,
) -> Option<Seq<char>> {
    match status {
        Some(s) => crate::text::opt_text(s.installed_version),
        None => None,
    }
}

impl FleetAddonConfig {
    /// Takes down in the status what became of the chart of the fleet
    /// manager: after a run, a condition tells of it and the installed
    /// version is the one that was run; a recorded version is taken as it
    /// is; otherwise the status stays.
    pub fn record_install(
        &mut self,
        decision: &crate::controllers::helm::install::FleetDecision,
        now: &String,
    )
        ensures
            final(self).metadata == old(self).metadata,
            final(self).spec == old(self).spec,
            match *decision {
                crate::controllers::helm::install::FleetDecision::Run { operation, version } => {
                    &&& final(self).status is Some
                    &&& recorded_version(final(self).status) == Some(version@)
                    &&& recorded(final(self).status) == recorded(old(self).status).push(
                        crate::controller::held(
                            "Installed"@,
                            crate::controllers::helm::install::install_message(operation, version@),
                            old(self).metadata.generation,
                            now@,
                        ),
                    )
                },
                crate::controllers::helm::install::FleetDecision::Record(version) => {
                    &&& final(self).status is Some
                    &&& recorded_version(final(self).status) == Some(version@)
                    &&& recorded(final(self).status) == recorded(old(self).status)
                },
                _ => final(self).status == old(self).status,
            },
    {
        match decision {
            crate::controllers::helm::install::FleetDecision::Run { operation, version } => {
                let c = crate::controller::condition(
                    &crate::text::text("Installed"),
                    crate::controllers::helm::install::message_of(operation, version),
                    self.metadata.generation,
                    now,
                );
                self.record(c);
                let mut status = self.status.take().unwrap();
                status.installed_version = Some(version.clone());
                self.status = Some(status);
            },
            crate::controllers::helm::install::FleetDecision::Record(version) => {
                let mut status = match self.status.take() {
                    Some(s) => s,
                    None => {
                        let s = crate::api::fleet_addon_config::FleetAddonConfigStatus {
                            installed_version: None,
                            conditions: Vec::new(),
                        };
                        assert(crate::meta::condition_views(s.conditions@) =~= Seq::empty());
                        s
                    },
                };
                status.installed_version = Some(version.clone());
                self.status = Some(status);
            },
            _ => {},
        }
    }
}

/// What the installation of a chart asks of its caller next.
pub enum InstallStep {
    /// Run the package manager with the command line, then go on.
    Run(Vec<String>),
    /// Nothing is to be run for this chart: go on.
    Proceed,
    /// The installation ends here, with the action to take or the error.
    Finish(Result<Action, AddonConfigSyncError>),
}

pub enum InstallStepView {
    Run(Seq<Seq<char>>),
    Proceed,
    Finish(Result<Action, AddonConfigSyncError>),
}

impl View for InstallStep {
    type V = InstallStepView;

    open spec fn view(&self) -> InstallStepView {
        match self {
            InstallStep::Run(args) => InstallStepView::Run(crate::text::texts(args@)),
            InstallStep::Proceed => InstallStepView::Proceed,
            InstallStep::Finish(r) => InstallStepView::Finish(*r),
        }
    }
}

/// The version of the first chart of the list that has the name.
pub open spec fn offered_as(
    charts: Seq<crate::controllers::helm::install::ChartSearch>,
    name: Seq<char>,
) -> Option<Seq<char>> {
    match crate::controllers::helm::install::first_named(
        crate::controllers::helm::install::search_names(charts),
        name,
    ) {
        Some(i) => Some(charts[i].app_version@),
        None => None,
    }
}

/// The version of an installed release, where there is one.
pub open spec fn version_of(
    release: Option<crate::controllers::helm::install::ChartInfo>,
) -> Option<Seq<char>> {
    match release {
        Some(r) => Some(r.app_version@),
        None => None,
    }
}

/// What is done about the chart of the custom resource definitions once the
/// installed release and the charts of the repository are known, or could
/// not be had: a failure to list the releases or to search the repository
/// ends the installation; else the decision stands, and where the repository
/// has nothing to go by the installation is asked for again after the fixed
/// delay.
pub open spec fn crd_step(
    chart: crate::controllers::helm::install::FleetChartView,
    expected: crate::api::fleet_addon_config::InstallView,
    installed: Result<Option<crate::controllers::helm::install::ChartInfo>, HelmError>,
    offered: Result<Vec<crate::controllers::helm::install::ChartSearch>, HelmError>,
) -> InstallStepView {
    match (installed, offered) {
        (Err(e), _) => InstallStepView::Finish(Err(AddonConfigSyncError::MetadataGet(e))),
        (Ok(_), Err(e)) => InstallStepView::Finish(Err(AddonConfigSyncError::RepoSearch(e))),
        (Ok(release), Ok(charts)) => match crate::controllers::helm::install::crd_decision(
            version_of(release),
            offered_as(charts@, crate::controllers::helm::install::FLEET_CRD_CHART@),
            expected,
        ) {
            crate::controllers::helm::install::CrdDecision::Run(operation) => InstallStepView::Run(
                chart.fleet_crds(operation),
            ),
            crate::controllers::helm::install::CrdDecision::Nothing => InstallStepView::Proceed,
            crate::controllers::helm::install::CrdDecision::Requeue => InstallStepView::Finish(
                Ok(Action::Requeue(crate::runtime::ERROR_REQUEUE_SECONDS)),
            ),
        },
    }
}

/// Computes [`crd_step`].
pub fn install_crds(
    chart: &crate::controllers::helm::install::FleetChart,
    expected: &crate::api::fleet_addon_config::Install,
    installed: Result<Option<crate::controllers::helm::install::ChartInfo>, HelmError>,
    offered: Result<Vec<crate::controllers::helm::install::ChartSearch>, HelmError>,
) -> (step: InstallStep)
    ensures
        step@ == crd_step(chart@, expected@, installed, offered),
{
    let release = match installed {
        Err(e) => {
            return InstallStep::Finish(Err(AddonConfigSyncError::MetadataGet(e)));
        },
        Ok(r) => r,
    };
    let charts = match offered {
        Err(e) => {
            return InstallStep::Finish(Err(AddonConfigSyncError::RepoSearch(e)));
        },
        Ok(c) => c,
    };
    let found = crate::controllers::helm::install::FleetChart::find_chart(
        &crate::text::text(crate::controllers::helm::install::FLEET_CRD_CHART),
        charts,
    );
    match crate::controllers::helm::install::decide_crds(release.as_ref(), found.as_ref(), expected) {
        crate::controllers::helm::install::CrdDecision::Run(operation) => InstallStep::Run(
            chart.fleet_crds(&operation),
        ),
        crate::controllers::helm::install::CrdDecision::Nothing => InstallStep::Proceed,
        crate::controllers::helm::install::CrdDecision::Requeue => InstallStep::Finish(
            Ok(Action::Requeue(crate::runtime::ERROR_REQUEUE_SECONDS)),
        ),
    }
}

/// What is done about the chart of the fleet manager once the installed
/// release and the charts of the repository are known, or could not be had.
/// The decision comes with the step, for the status to record once the
/// command has run.
pub open spec fn fleet_step(
    chart: crate::controllers::helm::install::FleetChartView,
    expected: crate::api::fleet_addon_config::InstallView,
    installed: Result<Option<crate::controllers::helm::install::ChartInfo>, HelmError>,
    offered: Result<Vec<crate::controllers::helm::install::ChartSearch>, HelmError>,
) -> (InstallStepView, crate::controllers::helm::install::FleetDecisionView) {
    match (installed, offered) {
        (Err(e), _) => (
            InstallStepView::Finish(Err(AddonConfigSyncError::MetadataGet(e))),
            crate::controllers::helm::install::FleetDecisionView::Nothing,
        ),
        (Ok(_), Err(e)) => (
            InstallStepView::Finish(Err(AddonConfigSyncError::RepoSearch(e))),
            crate::controllers::helm::install::FleetDecisionView::Nothing,
        ),
        (Ok(release), Ok(charts)) => {
            let decision = crate::controllers::helm::install::fleet_decision(
                version_of(release),
                offered_as(charts@, crate::controllers::helm::install::FLEET_CHART@),
                expected,
            );
            match decision {
                crate::controllers::helm::install::FleetDecisionView::Run { operation, version } => (
                    InstallStepView::Run(chart.fleet(operation)),
                    decision,
                ),
                crate::controllers::helm::install::FleetDecisionView::Requeue => (
                    InstallStepView::Finish(Ok(Action::Requeue(crate::runtime::ERROR_REQUEUE_SECONDS))),
                    decision,
                ),
                _ => (InstallStepView::Proceed, decision),
            }
        },
    }
}

/// Computes [`fleet_step`].
pub fn install_fleet(
    chart: &crate::controllers::helm::install::FleetChart,
    expected: &crate::api::fleet_addon_config::Install,
    installed: Result<Option<crate::controllers::helm::install::ChartInfo>, HelmError>,
    offered: Result<Vec<crate::controllers::helm::install::ChartSearch>, HelmError>,
) -> (r: (InstallStep, crate::controllers::helm::install::FleetDecision))
    ensures
        (r.0@, r.1@) == fleet_step(chart@, expected@, installed, offered),
{
    let release = match installed {
        Err(e) => {
            return (
                InstallStep::Finish(Err(AddonConfigSyncError::MetadataGet(e))),
                crate::controllers::helm::install::FleetDecision::Nothing,
            );
        },
        Ok(r) => r,
    };
    let charts = match offered {
        Err(e) => {
            return (
                InstallStep::Finish(Err(AddonConfigSyncError::RepoSearch(e))),
                crate::controllers::helm::install::FleetDecision::Nothing,
            );
        },
        Ok(c) => c,
    };
    let found = crate::controllers::helm::install::FleetChart::find_chart(
        &crate::text::text(crate::controllers::helm::install::FLEET_CHART),
        charts,
    );
    let decision = crate::controllers::helm::install::decide_fleet(
        release.as_ref(),
        found.as_ref(),
        expected,
    );
    let step = match &decision {
        crate::controllers::helm::install::FleetDecision::Run { operation, .. } => InstallStep::Run(
            chart.fleet(operation),
        ),
        crate::controllers::helm::install::FleetDecision::Requeue => InstallStep::Finish(
            Ok(Action::Requeue(crate::runtime::ERROR_REQUEUE_SECONDS)),
        ),
        _ => InstallStep::Proceed,
    };
    (step, decision)
}

/// The version that an installation goes by: the configured one with a
/// leading `v`, or none where the chart names no version, in which case
/// nothing is installed.
pub fn expected_version(chart: &crate::controllers::helm::install::FleetChart) -> (r: Option<
    crate::api::fleet_addon_config::Install,
>)
    ensures
        match chart.version {
            Some(v) => r matches Some(e) && e@ == v@.normalized(),
            None => r is None,
        },
{
    match &chart.version {
        Some(v) => Some(v.duplicate().normalized()),
        None => None,
    }
}

} // verus!
