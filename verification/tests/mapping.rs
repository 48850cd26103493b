use fleet_addon::api::capi_cluster::{
    Cluster, ClusterProxy, ClusterSpec, ClusterStatus, ClusterTopology, ClusterTopologyClassRef,
    CLIENT_ID_LENGTH, CONTROLPLANE_INITIALIZED_CONDITION, FLEET_WORKSPACE_ANNOTATION,
};
use fleet_addon::api::capi_clusterclass::ClusterClass;
use fleet_addon::api::fleet_addon_config::{
    ClusterClassConfig, ClusterConfig, FleetAddonConfig, FleetAddonConfigSpec, NamingStrategy,
    FLEET_NAMESPACE,
};
use fleet_addon::api::fleet_cluster::ClusterAgentTolerations;
use fleet_addon::api::fleet_clustergroup::{
    ClusterGroup, CLUSTER_CLASS_LABEL, CLUSTER_CLASS_NAMESPACE_LABEL,
};
use fleet_addon::controllers::bundle::{Downstream, FleetBundle, SyncStep, WriteError, WriteMode};
use fleet_addon::controllers::cluster::{
    lookup_for, strip_volatile, CleanupStep, TemplateSources, NAMESPACE_FIELD_MANAGER,
};
use fleet_addon::controllers::cluster_group::GroupStep;
use fleet_addon::controllers::reconcile::Cleanup;
use fleet_addon::controllers::controller::FLEET_FINALIZER;
use fleet_addon::controllers::{
    ClusterSyncError, GetOrCreateError, GroupSyncError, PatchError, SyncError,
};
use fleet_addon::meta::{Condition, ObjectMeta, ObjectReference};
use fleet_addon::runtime::{Action, KubeError};
use fleet_addon::string_map::StringMap;

fn labels(pairs: &[(&str, &str)]) -> StringMap {
    let mut m = StringMap::new();
    for (k, v) in pairs {
        m.insert(k.to_string(), v.to_string());
    }
    m
}

fn condition(type_: &str, status: &str) -> Condition {
    Condition {
        type_: type_.to_string(),
        status: status.to_string(),
        reason: String::new(),
        message: String::new(),
        observed_generation: None,
        last_transition_time: String::new(),
    }
}

fn cluster(name: &str, class: Option<(&str, Option<&str>)>) -> Cluster {
    let mut metadata = ObjectMeta::named(Some(name.to_string()), Some("ns".to_string()));
    metadata.uid = Some("uid-1".to_string());
    Cluster {
        metadata,
        spec: ClusterProxy {
            proxy: ClusterSpec {
                topology: class.map(|(n, ns)| ClusterTopology {
                    class_ref: ClusterTopologyClassRef {
                        name: n.to_string(),
                        namespace: ns.map(|s| s.to_string()),
                    },
                }),
                control_plane_ref: None,
                infrastructure_ref: None,
            },
        },
        status: Some(ClusterStatus {
            control_plane_ready: Some(true),
            conditions: Some(vec![]),
        }),
    }
}

fn grouping() -> ClusterConfig {
    let mut c = ClusterConfig::new();
    c.apply_class_group = Some(true);
    c
}

fn config(cluster: Option<ClusterConfig>, class: Option<ClusterClassConfig>) -> FleetAddonConfig {
    FleetAddonConfig {
        metadata: ObjectMeta::named(Some("fleet-addon-config".to_string()), None),
        spec: FleetAddonConfigSpec { cluster_class: class, cluster, config: None, install: None },
        status: None,
    }
}

fn failure() -> KubeError {
    KubeError::Api { code: 500, reason: "InternalError".to_string(), message: String::new() }
}

#[test]
fn cluster_is_ready_by_condition_or_flag() {
    let mut c = cluster("a", None);
    assert!(c.cluster_ready());
    c.status.as_mut().unwrap().control_plane_ready = Some(false);
    assert!(!c.cluster_ready());
    c.status.as_mut().unwrap().conditions =
        Some(vec![condition("Other", "True"), condition(CONTROLPLANE_INITIALIZED_CONDITION, "True")]);
    assert!(c.cluster_ready());
    c.status.as_mut().unwrap().conditions =
        Some(vec![condition(CONTROLPLANE_INITIALIZED_CONDITION, "False")]);
    assert!(!c.cluster_ready());
    c.status.as_mut().unwrap().control_plane_ready = None;
    assert!(!c.cluster_ready());
}

#[test]
fn cluster_without_conditions_or_status_is_not_ready() {
    let mut c = cluster("a", None);
    c.status.as_mut().unwrap().conditions = None;
    assert!(!c.cluster_ready());
    c.status = None;
    assert!(!c.cluster_ready());
}

#[test]
fn namespace_carries_the_workspace_annotation() {
    let ns = cluster("a", None).to_namespace();
    assert_eq!(ns.metadata.name.as_deref(), Some("ns"));
    assert!(ns.metadata.namespace.is_none());
    let annotations = ns.metadata.annotations.unwrap();
    assert_eq!(annotations.len(), 1);
    assert_eq!(annotations.get(&FLEET_WORKSPACE_ANNOTATION.to_string()).unwrap(), "true");
    assert_eq!(
        FLEET_WORKSPACE_ANNOTATION,
        "field.cattle.io/allow-fleetworkspace-creation-for-existing-namespace"
    );
}

#[test]
fn class_of_a_cluster_is_read_from_its_topology() {
    let c = cluster("a", Some(("class", Some("classes"))));
    assert_eq!(c.cluster_class_name().as_deref(), Some("class"));
    assert_eq!(c.cluster_class_namespace().as_deref(), Some("classes"));
    let c = cluster("a", Some(("class", None)));
    assert_eq!(c.cluster_class_name().as_deref(), Some("class"));
    assert!(c.cluster_class_namespace().is_none());
    let c = cluster("a", None);
    assert!(c.cluster_class_name().is_none());
    assert!(c.cluster_class_namespace().is_none());
}

#[test]
fn group_of_a_cluster_is_named_after_class_and_namespace() {
    let c = cluster("a", Some(("class", Some("classes"))));
    let g = c.to_group(Some(&grouping())).unwrap();
    assert_eq!(g.metadata.name.as_deref(), Some("class.classes"));
    assert_eq!(g.metadata.namespace.as_deref(), Some("ns"));
    let want = labels(&[(CLUSTER_CLASS_LABEL, "class"), (CLUSTER_CLASS_NAMESPACE_LABEL, "classes")]);
    assert!(g.metadata.labels.as_ref().unwrap().same(&want));
    let selector = g.spec.selector.as_ref().unwrap();
    assert!(selector.match_labels.as_ref().unwrap().same(&want));
    assert!(selector.match_expressions.is_none());
    let owners = g.metadata.owner_references.as_ref().unwrap();
    assert_eq!(owners.len(), 1);
    assert_eq!(owners[0].uid, "uid-1");
    assert_eq!(owners[0].name, "a");
    assert_eq!(owners[0].kind, "Cluster");
    assert_eq!(g.types.as_ref().unwrap().kind, "ClusterGroup");
    assert_eq!(g.cluster_class_name().as_deref(), Some("class"));
    assert_eq!(g.cluster_class_namespace().as_deref(), Some("classes"));
}

#[test]
fn group_of_a_cluster_needs_config_class_and_class_namespace() {
    let c = cluster("a", Some(("class", Some("classes"))));
    assert!(c.to_group(None).is_none());
    assert!(c.to_group(Some(&ClusterConfig::new())).is_none());
    let mut off = ClusterConfig::new();
    off.apply_class_group = Some(false);
    assert!(c.to_group(Some(&off)).is_none());
    assert!(cluster("a", Some(("class", None))).to_group(Some(&grouping())).is_none());
    assert!(cluster("a", None).to_group(Some(&grouping())).is_none());
}

#[test]
fn group_of_a_cluster_without_uid_has_no_owner() {
    let mut c = cluster("a", Some(("class", Some("classes"))));
    c.metadata.uid = None;
    let g = c.to_group(Some(&grouping())).unwrap();
    assert_eq!(g.metadata.owner_references.as_ref().unwrap().len(), 0);
}

#[test]
fn mapping_opens_the_cluster_namespace_to_the_class_namespace() {
    let c = cluster("a", Some(("class", Some("classes"))));
    let m = c.to_bundle_ns_mapping(Some(&grouping())).unwrap();
    assert_eq!(m.metadata.name.as_deref(), Some("ns"));
    assert_eq!(m.metadata.namespace.as_deref(), Some("classes"));
    assert!(m.bundle_selector.match_labels.is_none());
    assert!(m.bundle_selector.match_expressions.is_none());
    let want = labels(&[("kubernetes.io/metadata.name", "ns")]);
    assert!(m.namespace_selector.match_labels.as_ref().unwrap().same(&want));
    assert_eq!(m.types.as_ref().unwrap().kind, "BundleNamespaceMapping");
}

#[test]
fn mapping_needs_config_class_namespace_and_namespace() {
    let c = cluster("a", Some(("class", Some("classes"))));
    assert!(c.to_bundle_ns_mapping(None).is_none());
    assert!(c.to_bundle_ns_mapping(Some(&ClusterConfig::new())).is_none());
    assert!(cluster("a", Some(("class", None))).to_bundle_ns_mapping(Some(&grouping())).is_none());
    assert!(cluster("a", None).to_bundle_ns_mapping(Some(&grouping())).is_none());
    let mut homeless = cluster("a", Some(("class", Some("classes"))));
    homeless.metadata.namespace = None;
    assert!(homeless.to_bundle_ns_mapping(Some(&grouping())).is_none());
}

#[test]
fn registration_token_only_for_agent_initiated_connections() {
    let c = cluster("a", None);
    assert!(c.to_cluster_registration_token(None).is_none());
    assert!(c.to_cluster_registration_token(Some(&ClusterConfig::new())).is_none());
    let mut config = ClusterConfig::new();
    config.agent_initiated = Some(false);
    assert!(c.to_cluster_registration_token(Some(&config)).is_none());
    config.agent_initiated = Some(true);
    let t = c.to_cluster_registration_token(Some(&config)).unwrap();
    assert_eq!(t.metadata.name.as_deref(), Some("a"));
    assert_eq!(t.metadata.namespace.as_deref(), Some("ns"));
    assert_eq!(t.spec.ttl.as_deref(), Some("1h"));
    assert!(t.types.is_none());
}

#[test]
fn downstream_cluster_without_config_uses_the_kubeconfig_secret() {
    let mut c = cluster("a", None);
    c.metadata.labels = Some(labels(&[("env", "prod")]));
    c.metadata.annotations = Some(labels(&[("note", "x")]));
    let f = c.to_cluster(None);
    assert_eq!(f.metadata.name.as_deref(), Some("a"));
    assert_eq!(f.metadata.namespace.as_deref(), Some("ns"));
    assert!(f.metadata.labels.as_ref().unwrap().same(&labels(&[("env", "prod")])));
    assert!(f.metadata.annotations.as_ref().unwrap().same(&labels(&[("note", "x")])));
    assert!(f.metadata.owner_references.is_none());
    assert_eq!(f.spec.kube_config_secret.as_deref(), Some("a-kubeconfig"));
    assert!(f.spec.client_id.is_none());
    assert_eq!(f.spec.agent_namespace.as_deref(), Some(FLEET_NAMESPACE));
    assert_eq!(f.spec.agent_tolerations.as_ref().unwrap().len(), 0);
    assert!(f.spec.host_network.is_none());
    assert!(f.spec.agent_env_vars.is_none());
    assert!(f.spec.template_values.is_none());
    assert!(f.status.is_none());
    assert_eq!(f.types.as_ref().unwrap().kind, "Cluster");
    assert_eq!(f.types.as_ref().unwrap().api_version, "fleet.cattle.io/v1alpha1");
}

#[test]
fn downstream_cluster_takes_class_labels_naming_and_owner() {
    let mut c = cluster("a", Some(("class", None)));
    c.metadata.labels = Some(labels(&[("env", "prod"), (CLUSTER_CLASS_LABEL, "stale")]));
    let mut config = ClusterConfig::new();
    config.set_owner_references = Some(true);
    config.naming = Some(NamingStrategy { prefix: Some("p-".to_string()), suffix: Some("-s".to_string()) });
    config.agent_namespace = Some("agents".to_string());
    config.host_network = Some(true);
    config.agent_tolerations = Some(vec![ClusterAgentTolerations {
        effect: Some("NoSchedule".to_string()),
        key: Some("k".to_string()),
        operator: Some("Exists".to_string()),
        toleration_seconds: None,
        value: None,
    }]);
    let f = c.to_cluster(Some(&config));
    assert_eq!(f.metadata.name.as_deref(), Some("p-a-s"));
    let want = labels(&[
        ("env", "prod"),
        (CLUSTER_CLASS_LABEL, "class"),
        (CLUSTER_CLASS_NAMESPACE_LABEL, "ns"),
    ]);
    assert!(f.metadata.labels.as_ref().unwrap().same(&want));
    let owners = f.metadata.owner_references.as_ref().unwrap();
    assert_eq!(owners.len(), 1);
    assert_eq!(owners[0].uid, "uid-1");
    assert_eq!(owners[0].api_version, "cluster.x-k8s.io/v1beta2");
    assert_eq!(f.spec.agent_namespace.as_deref(), Some("agents"));
    assert_eq!(f.spec.host_network, Some(true));
    assert_eq!(f.spec.agent_tolerations.as_ref().unwrap().len(), 1);
    assert_eq!(f.spec.kube_config_secret.as_deref(), Some("a-kubeconfig"));
}

#[test]
fn downstream_cluster_of_a_class_in_another_namespace_names_it() {
    let c = cluster("a", Some(("class", Some("classes"))));
    let f = c.to_cluster(None);
    let l = f.metadata.labels.as_ref().unwrap();
    assert_eq!(l.get(&CLUSTER_CLASS_NAMESPACE_LABEL.to_string()).unwrap(), "classes");
}

#[test]
fn agent_initiated_cluster_gets_a_random_client_id() {
    let c = cluster("a", None);
    let mut config = ClusterConfig::new();
    config.agent_initiated = Some(true);
    let first = c.to_cluster(Some(&config));
    let second = c.to_cluster(Some(&config));
    let id = first.spec.client_id.unwrap();
    assert_eq!(CLIENT_ID_LENGTH, 64);
    assert_eq!(id.chars().count(), 64);
    assert!(id.chars().all(|ch| ch.is_ascii_alphanumeric()));
    assert!(first.spec.kube_config_secret.is_none());
    assert_ne!(id, second.spec.client_id.unwrap());
    let given = c.to_cluster_with(Some(&config), "given".to_string());
    assert_eq!(given.spec.client_id.as_deref(), Some("given"));
    let ignored = c.to_cluster_with(None, "given".to_string());
    assert!(ignored.spec.client_id.is_none());
}

#[test]
fn bundle_needs_cluster_section_and_a_ready_cluster() {
    let c = cluster("a", Some(("class", Some("classes"))));
    assert!(c.to_bundle(&config(None, None)).is_none());
    let mut unready = cluster("a", None);
    unready.status = None;
    assert!(unready.to_bundle(&config(Some(grouping()), None)).is_none());
    let b = c.to_bundle(&config(Some(grouping()), None)).unwrap();
    assert!(b.mapping.is_some());
    assert!(b.fleet_group.is_some());
    assert!(b.cluster_registration_token.is_none());
    assert!(!b.patch_enabled);
    assert_eq!(b.namespace.metadata.name.as_deref(), Some("ns"));
    assert_eq!(b.fleet.metadata.name.as_deref(), Some("a"));
}

fn kinds(b: &fleet_addon::controllers::cluster::FleetClusterBundle) -> Vec<(String, Option<String>)> {
    b.writes()
        .into_iter()
        .map(|w| {
            let kind = match w.object {
                Downstream::Mapping(_) => "mapping",
                Downstream::Cluster(_) => "cluster",
                Downstream::Token(_) => "token",
                Downstream::Group(_) => "group",
                Downstream::Namespace(_) => "namespace",
            };
            let mode = match w.mode {
                WriteMode::Patch(m) => Some(m),
                WriteMode::GetOrCreate => None,
            };
            (kind.to_string(), mode)
        })
        .collect()
}

#[test]
fn cluster_sync_without_patching_creates_the_cluster_and_annotates_the_namespace() {
    let c = cluster("a", Some(("class", Some("classes"))));
    let b = c.to_bundle(&config(Some(grouping()), None)).unwrap();
    assert_eq!(
        kinds(&b),
        vec![
            ("cluster".to_string(), None),
            ("namespace".to_string(), Some(NAMESPACE_FIELD_MANAGER.to_string())),
        ]
    );
    assert_eq!(NAMESPACE_FIELD_MANAGER, "namespace-addon-provider-fleet");
}

#[test]
fn cluster_sync_with_patching_writes_every_object_in_order() {
    let c = cluster("a", Some(("class", Some("classes"))));
    let mut cc = grouping();
    cc.patch_resource = Some(true);
    cc.agent_initiated = Some(true);
    let b = c.to_bundle(&config(Some(cc), None)).unwrap();
    assert_eq!(
        kinds(&b),
        vec![
            ("mapping".to_string(), Some("cluster-a-addon-provider-fleet".to_string())),
            ("cluster".to_string(), Some("addon-provider-fleet".to_string())),
            ("token".to_string(), None),
            ("group".to_string(), Some("cluster-a-addon-provider-fleet".to_string())),
            ("namespace".to_string(), Some("namespace-addon-provider-fleet".to_string())),
        ]
    );
}

#[test]
fn cluster_sync_walks_the_plan_and_ends_with_await_change() {
    let c = cluster("a", Some(("class", Some("classes"))));
    let mut cc = grouping();
    cc.patch_resource = Some(true);
    let b = c.to_bundle(&config(Some(cc), None)).unwrap();
    let mut done = 0;
    let mut last = None;
    let mut seen = Vec::new();
    let result = loop {
        match b.sync(done, last) {
            SyncStep::Run(w) => {
                seen.push(matches!(w.object, Downstream::Namespace(_)));
                last = Some(Ok(Action::AwaitChange));
                done += 1;
            }
            SyncStep::Finish(r) => break r,
        }
    };
    assert!(matches!(result, Ok(Action::AwaitChange)));
    assert_eq!(seen, vec![false, false, false, true]);
}

#[test]
fn cluster_sync_stops_at_the_first_failure_and_names_the_object() {
    let c = cluster("a", Some(("class", Some("classes"))));
    let mut cc = grouping();
    cc.patch_resource = Some(true);
    let b = c.to_bundle(&config(Some(cc), None)).unwrap();
    let patch_failed = || Some(Err(WriteError::Patch(PatchError::Patch(failure()))));
    assert!(matches!(
        b.sync(1, patch_failed()),
        SyncStep::Finish(Err(SyncError::ClusterSync(ClusterSyncError::BundleNamespaceMappingError(_))))
    ));
    assert!(matches!(
        b.sync(2, patch_failed()),
        SyncStep::Finish(Err(SyncError::ClusterSync(ClusterSyncError::PatchError(_))))
    ));
    assert!(matches!(
        b.sync(3, patch_failed()),
        SyncStep::Finish(Err(SyncError::ClusterSync(ClusterSyncError::GroupPatchError(_))))
    ));
    assert!(matches!(
        b.sync(4, patch_failed()),
        SyncStep::Finish(Err(SyncError::ClusterSync(ClusterSyncError::NamespacePatchError(_))))
    ));
    assert!(matches!(
        b.sync(0, patch_failed()),
        SyncStep::Finish(Err(SyncError::ClusterSync(ClusterSyncError::PatchError(_))))
    ));
    let create_failed = Some(Err(WriteError::GetOrCreate(GetOrCreateError::Create(failure()))));
    assert!(matches!(
        b.sync(2, create_failed),
        SyncStep::Finish(Err(SyncError::ClusterSync(ClusterSyncError::GetOrCreateError(_))))
    ));
}

#[test]
fn template_values_are_set_or_fail_the_sync() {
    let c = cluster("a", None);
    let mut b = c.to_bundle(&config(Some(ClusterConfig::new()), None)).unwrap();
    assert!(b.set_template_values(None).is_ok());
    assert!(b.fleet.spec.template_values.is_none());
    assert!(b.set_template_values(Some(Ok(labels(&[("Cluster", "{}")])))).is_ok());
    assert!(b.fleet.spec.template_values.as_ref().unwrap().same(&labels(&[("Cluster", "{}")])));
    assert!(matches!(
        b.set_template_values(Some(Err("bad".to_string()))),
        Err(ClusterSyncError::ClusterEncodeError(m)) if m == "bad"
    ));
    assert!(b.fleet.spec.template_values.is_some());
}

#[test]
fn cleanup_without_mapping_goes_to_the_namespace() {
    let c = cluster("a", None);
    let b = c.to_bundle(&config(Some(ClusterConfig::new()), None)).unwrap();
    match b.cleanup() {
        CleanupStep::ListOthers { namespace, field_selector, limit } => {
            assert_eq!(namespace, "ns");
            assert_eq!(field_selector, "metadata.name!=a");
            assert_eq!(limit, 1);
        }
        _ => panic!("without a mapping the namespace is next"),
    }
    match b.cleanup_others(Ok(true)) {
        CleanupStep::RemoveAnnotation { namespace, annotation } => {
            assert_eq!(namespace, "ns");
            assert_eq!(annotation, FLEET_WORKSPACE_ANNOTATION);
        }
        _ => panic!("an empty namespace loses the annotation"),
    }
    assert!(matches!(
        b.cleanup_others(Ok(false)),
        CleanupStep::Finish(Ok(Cleanup::Done(Action::AwaitChange)))
    ));
    assert!(matches!(b.cleanup_annotated(Ok(())), Ok(Cleanup::Done(Action::AwaitChange))));
}

#[test]
fn cleanup_defers_while_another_live_cluster_uses_the_mapping() {
    let c = cluster("cluster-a", Some(("class", Some("classes"))));
    let b = c.to_bundle(&config(Some(grouping()), None)).unwrap();
    match b.cleanup() {
        CleanupStep::ListClusters { namespace } => assert_eq!(namespace, "classes"),
        _ => panic!("with a mapping the clusters are listed"),
    }
    let others = vec![
        cluster("cluster-a", Some(("class", Some("classes")))),
        cluster("cluster-b", Some(("class", Some("classes")))),
    ];
    assert!(matches!(
        b.cleanup_listed(Ok(others)),
        CleanupStep::Finish(Ok(Cleanup::Deferred(Action::AwaitChange)))
    ));
}

#[test]
fn cleanup_deletes_the_mapping_that_nobody_else_uses() {
    let c = cluster("cluster-a", Some(("class", Some("classes"))));
    let b = c.to_bundle(&config(Some(grouping()), None)).unwrap();
    let mut leaving = cluster("cluster-b", Some(("class", Some("classes"))));
    leaving.metadata.deletion_timestamp = Some("now".to_string());
    let others = vec![
        cluster("cluster-a", Some(("class", Some("classes")))),
        leaving,
        cluster("cluster-c", Some(("class", Some("elsewhere")))),
        cluster("cluster-d", None),
    ];
    match b.cleanup_listed(Ok(others)) {
        CleanupStep::LookupMapping(key) => {
            assert_eq!(key.kind, "BundleNamespaceMapping");
            assert_eq!(key.name, "ns");
            assert_eq!(key.namespace.as_deref(), Some("classes"));
        }
        _ => panic!("the mapping is looked up"),
    }
    assert!(matches!(b.cleanup_looked_up(Ok(true)), CleanupStep::DeleteMapping(_)));
    assert!(matches!(b.cleanup_looked_up(Ok(false)), CleanupStep::ListOthers { .. }));
    assert!(matches!(b.cleanup_deleted(Ok(())), CleanupStep::ListOthers { .. }));
}

#[test]
fn cleanup_failures_end_the_cleanup() {
    let c = cluster("cluster-a", Some(("class", Some("classes"))));
    let b = c.to_bundle(&config(Some(grouping()), None)).unwrap();
    assert!(matches!(
        b.cleanup_listed(Err(failure())),
        CleanupStep::Finish(Err(SyncError::BundleNsMappingDelete(_)))
    ));
    assert!(matches!(
        b.cleanup_looked_up(Err(failure())),
        CleanupStep::Finish(Err(SyncError::BundleNsMappingDelete(_)))
    ));
    assert!(matches!(
        b.cleanup_deleted(Err(failure())),
        CleanupStep::Finish(Err(SyncError::BundleNsMappingDelete(_)))
    ));
    assert!(matches!(
        b.cleanup_others(Err(failure())),
        CleanupStep::Finish(Err(SyncError::BundleNsMappingDelete(_)))
    ));
    assert!(matches!(b.cleanup_annotated(Err(failure())), Err(SyncError::BundleNsMappingDelete(_))));
}

fn class(name: &str, namespace: Option<&str>) -> ClusterClass {
    let mut metadata = ObjectMeta::named(Some(name.to_string()), namespace.map(|n| n.to_string()));
    metadata.uid = Some("class-uid".to_string());
    metadata.labels = Some(labels(&[("team", "blue")]));
    ClusterClass { metadata }
}

#[test]
fn group_of_a_class_carries_its_labels_and_is_owned_by_it() {
    let g = ClusterGroup::from(&class("class", Some("classes")));
    assert_eq!(g.metadata.name.as_deref(), Some("class"));
    assert_eq!(g.metadata.namespace.as_deref(), Some("classes"));
    let want = labels(&[
        ("team", "blue"),
        (CLUSTER_CLASS_LABEL, "class"),
        (CLUSTER_CLASS_NAMESPACE_LABEL, "classes"),
    ]);
    assert!(g.metadata.labels.as_ref().unwrap().same(&want));
    let selector = labels(&[(CLUSTER_CLASS_LABEL, "class"), (CLUSTER_CLASS_NAMESPACE_LABEL, "classes")]);
    assert!(g.spec.selector.as_ref().unwrap().match_labels.as_ref().unwrap().same(&selector));
    let owners = g.metadata.owner_references.as_ref().unwrap();
    assert_eq!(owners.len(), 1);
    assert_eq!(owners[0].kind, "ClusterClass");
    assert_eq!(owners[0].uid, "class-uid");
    let r = g.cluster_class_ref().unwrap();
    assert_eq!(r.kind.as_deref(), Some("ClusterClass"));
    assert_eq!(r.name.as_deref(), Some("class"));
    assert_eq!(r.namespace.as_deref(), Some("classes"));
    let homeless = ClusterGroup::from(&class("class", None));
    let l = homeless.metadata.labels.as_ref().unwrap();
    assert_eq!(l.get(&CLUSTER_CLASS_NAMESPACE_LABEL.to_string()).unwrap(), "");
}

#[test]
fn class_bundle_follows_the_configuration() {
    let c = class("class", Some("classes"));
    assert!(c.to_bundle(&config(None, None)).is_none());
    let plain = ClusterClassConfig { patch_resource: None, set_owner_references: None };
    let b = c.to_bundle(&config(None, Some(plain))).unwrap();
    assert!(b.fleet_group.metadata.owner_references.is_none());
    assert!(!b.patch_enabled);
    match b.sync(0, None) {
        SyncStep::Run(w) => {
            assert!(matches!(w.object, Downstream::Group(_)));
            assert!(matches!(w.mode, WriteMode::GetOrCreate));
        }
        _ => panic!("the group is written"),
    }
    assert!(matches!(b.sync(1, Some(Ok(Action::AwaitChange))), SyncStep::Finish(Ok(Action::AwaitChange))));
    let owning = ClusterClassConfig { patch_resource: Some(true), set_owner_references: Some(true) };
    let b = c.to_bundle(&config(None, Some(owning))).unwrap();
    assert_eq!(b.fleet_group.metadata.owner_references.as_ref().unwrap().len(), 1);
    match b.sync(0, None) {
        SyncStep::Run(w) => assert!(matches!(w.mode, WriteMode::Patch(m) if m == "addon-provider-fleet")),
        _ => panic!("the group is written"),
    }
    assert!(matches!(
        b.sync(1, Some(Err(WriteError::Patch(PatchError::Get(failure()))))),
        SyncStep::Finish(Err(SyncError::GroupSync(GroupSyncError::PatchError(_))))
    ));
    assert!(matches!(
        b.sync(1, Some(Err(WriteError::GetOrCreate(GetOrCreateError::Lookup(failure()))))),
        SyncStep::Finish(Err(SyncError::GroupSync(GroupSyncError::GetOrCreateError(_))))
    ));
    assert!(matches!(b.cleanup(), Ok(Cleanup::Done(Action::AwaitChange))));
}

#[test]
fn group_sync_takes_the_labels_of_its_class_and_patches() {
    let mut g = ClusterGroup::from(&class("class", Some("classes")));
    match g.sync() {
        GroupStep::FetchClass(r) => assert_eq!(r.name.as_deref(), Some("class")),
        _ => panic!("a group with a class fetches it"),
    }
    let mut fresh = class("class", Some("classes"));
    fresh.metadata.labels = Some(labels(&[("team", "red"), ("tier", "1")]));
    match g.sync_class(Ok(fresh)) {
        GroupStep::Patch { group, field_manager } => {
            assert_eq!(field_manager, "addon-provider-fleet");
            let l = group.metadata.labels.as_ref().unwrap();
            assert_eq!(l.get(&"team".to_string()).unwrap(), "red");
            assert_eq!(l.get(&"tier".to_string()).unwrap(), "1");
            assert_eq!(l.get(&CLUSTER_CLASS_LABEL.to_string()).unwrap(), "class");
        }
        _ => panic!("the group is patched"),
    }
    assert!(matches!(
        g.sync_patched(Ok(Action::AwaitChange)),
        GroupStep::Finish(Ok(Action::AwaitChange))
    ));
}

#[test]
fn group_sync_releases_the_finalizer_of_the_operator() {
    let mut g = ClusterGroup::from(&class("class", Some("classes")));
    g.metadata.labels = None;
    g.metadata.finalizers = Some(vec!["keep".to_string(), FLEET_FINALIZER.to_string()]);
    match g.sync() {
        GroupStep::PatchFinalizers(list) => assert_eq!(list, vec!["keep".to_string()]),
        _ => panic!("a group without class goes to the finalizer"),
    }
    assert_eq!(g.metadata.finalizers, Some(vec!["keep".to_string()]));
    assert!(matches!(g.sync(), GroupStep::Finish(Ok(Action::AwaitChange))));
    assert!(matches!(ClusterGroup::sync_released(Ok(())), Ok(Action::AwaitChange)));
    assert!(matches!(ClusterGroup::sync_released(Err(failure())), Err(GroupSyncError::ClassLookup(_))));
}

#[test]
fn group_sync_failures_end_the_sync() {
    let mut g = ClusterGroup::from(&class("class", Some("classes")));
    assert!(matches!(
        g.sync_class(Err(failure())),
        GroupStep::Finish(Err(GroupSyncError::ClassLookup(_)))
    ));
    assert!(matches!(
        g.sync_patched(Err(PatchError::Patch(failure()))),
        GroupStep::Finish(Err(GroupSyncError::PatchError(_)))
    ));
}

fn reference(api_version: Option<&str>, kind: Option<&str>, namespace: Option<&str>, name: Option<&str>) -> ObjectReference {
    ObjectReference {
        api_version: api_version.map(|s| s.to_string()),
        kind: kind.map(|s| s.to_string()),
        name: name.map(|s| s.to_string()),
        namespace: namespace.map(|s| s.to_string()),
        uid: None,
    }
}

#[test]
fn lookup_splits_group_and_version() {
    let l = lookup_for(&reference(Some("controlplane.cluster.x-k8s.io/v1beta1"), Some("KubeadmControlPlane"), Some("ns"), Some("cp"))).unwrap();
    assert_eq!(l.group, "controlplane.cluster.x-k8s.io");
    assert_eq!(l.version, "v1beta1");
    assert_eq!(l.kind, "KubeadmControlPlane");
    assert_eq!(l.namespace, "ns");
    assert_eq!(l.name, "cp");
    let l = lookup_for(&reference(Some("v1"), Some("ConfigMap"), Some("ns"), Some("c"))).unwrap();
    assert_eq!(l.group, "");
    assert_eq!(l.version, "v1");
    let l = lookup_for(&reference(Some("a/b/c"), Some("K"), Some("ns"), Some("c"))).unwrap();
    assert_eq!(l.group, "a");
    assert_eq!(l.version, "b/c");
}

#[test]
fn lookup_needs_a_complete_reference() {
    assert!(lookup_for(&reference(None, Some("K"), Some("ns"), Some("n"))).is_none());
    assert!(lookup_for(&reference(Some("v1"), None, Some("ns"), Some("n"))).is_none());
    assert!(lookup_for(&reference(Some("v1"), Some("K"), None, Some("n"))).is_none());
    assert!(lookup_for(&reference(Some("v1"), Some("K"), Some("ns"), None)).is_none());
}

#[test]
fn template_sources_need_both_references() {
    let mut c = cluster("a", None);
    assert!(TemplateSources::new(&c).resolve().is_none());
    c.spec.proxy.control_plane_ref = Some(reference(Some("g/v1"), Some("CP"), Some("ns"), Some("cp")));
    assert!(TemplateSources::new(&c).resolve().is_none());
    c.spec.proxy.infrastructure_ref = Some(reference(Some("i/v2"), Some("Infra"), Some("ns"), Some("in")));
    let (cp, infra) = TemplateSources::new(&c).resolve().unwrap();
    assert_eq!(cp.kind, "CP");
    assert_eq!(cp.group, "g");
    assert_eq!(infra.kind, "Infra");
    assert_eq!(infra.version, "v2");
    c.spec.proxy.infrastructure_ref = Some(reference(Some("i/v2"), Some("Infra"), None, Some("in")));
    assert!(TemplateSources::new(&c).resolve().is_none());
}

#[test]
fn volatile_metadata_is_stripped() {
    let mut m = ObjectMeta::named(Some("a".to_string()), None);
    m.resource_version = Some("12".to_string());
    m.managed_fields = Some(vec!["x".to_string()]);
    m.generation = Some(3);
    strip_volatile(&mut m);
    assert!(m.resource_version.is_none());
    assert!(m.managed_fields.is_none());
    assert_eq!(m.generation, Some(3));
    assert_eq!(m.name.as_deref(), Some("a"));
}

#[test]
fn configuration_switches() {
    let none = FleetAddonConfig::new();
    assert!(!none.cluster_operations_enabled());
    assert!(!none.cluster_class_operations_enabled());
    assert!(!none.cluster_patch_enabled());
    assert!(!none.cluster_class_patch_enabled());
    assert!(!none.cluster_class_owner_references());
    let mut cluster = ClusterConfig::new();
    assert!(!cluster.apply_class_group());
    assert!(!cluster.agent_initiated_connection());
    assert_eq!(cluster.apply_naming("a".to_string()), "a");
    assert_eq!(cluster.agent_install_namespace(), "cattle-fleet-system");
    cluster.patch_resource = Some(true);
    cluster.naming = Some(NamingStrategy { prefix: None, suffix: Some("-x".to_string()) });
    assert_eq!(cluster.apply_naming("a".to_string()), "a-x");
    let class = ClusterClassConfig { patch_resource: Some(true), set_owner_references: Some(false) };
    let both = config(Some(cluster), Some(class));
    assert!(both.cluster_operations_enabled());
    assert!(both.cluster_class_operations_enabled());
    assert!(both.cluster_patch_enabled());
    assert!(both.cluster_class_patch_enabled());
    assert!(!both.cluster_class_owner_references());
    let kept = FleetAddonConfig::fetched(Some(both));
    assert!(kept.cluster_patch_enabled());
    let assumed = FleetAddonConfig::fetched(None);
    assert!(!assumed.cluster_operations_enabled());
    assert!(assumed.metadata.name.is_none());
}
