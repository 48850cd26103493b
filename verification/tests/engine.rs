use fleet_addon::api::bundle_namespace_mapping::BundleNamespaceMapping;
use fleet_addon::api::capi_clusterclass::ClusterClass;
use fleet_addon::api::label_selector::LabelSelector;
use fleet_addon::api::comparable::{Namespace, ResourceDiff};
use fleet_addon::api::fleet_addon_config::{ClusterClassConfig, FleetAddonConfig, FleetAddonConfigSpec};
use fleet_addon::controllers::bundle::{Downstream, FleetBundle, SyncStep, WriteError, WriteMode};
use fleet_addon::api::fleet_cluster::{Cluster, ClusterSpec, ClusterStatus};
use fleet_addon::api::fleet_clustergroup::{ClusterGroup, ClusterGroupSpec};
use fleet_addon::controllers::controller::{
    get_or_create, get_or_create_created, get_or_create_published, object_key, object_ref, patch,
    patch_applied, patch_published, Step, FIELD_MANAGER, FLEET_FINALIZER,
};
use fleet_addon::controllers::{ErrorClass, GetOrCreateError, PatchError};
use fleet_addon::meta::ObjectMeta;
use fleet_addon::runtime::{tolerate_forbidden, Action, EventType, KubeError, ERROR_REQUEUE_SECONDS};
use fleet_addon::string_map::StringMap;

fn labels(pairs: &[(&str, &str)]) -> StringMap {
    let mut m = StringMap::new();
    for (k, v) in pairs {
        m.insert(k.to_string(), v.to_string());
    }
    m
}

fn group(name: &str, namespace: Option<&str>) -> ClusterGroup {
    ClusterGroup {
        types: None,
        metadata: ObjectMeta::named(Some(name.to_string()), namespace.map(|n| n.to_string())),
        spec: ClusterGroupSpec { selector: None },
        status: None,
    }
}

fn forbidden() -> KubeError {
    KubeError::Api { code: 403, reason: "Forbidden".to_string(), message: "no".to_string() }
}

fn conflict() -> KubeError {
    KubeError::Api { code: 409, reason: "Conflict".to_string(), message: "busy".to_string() }
}

/// A stand-in for the API server: the groups it holds, and how often it was written.
struct Groups {
    held: Vec<ClusterGroup>,
    creates: usize,
    applies: usize,
    events: usize,
}

fn find(groups: &Groups, g: &ClusterGroup) -> Option<usize> {
    let key = object_key(g);
    groups.held.iter().position(|h| {
        let k = object_key(h);
        k.name == key.name && k.namespace == key.namespace
    })
}

fn run_get_or_create(groups: &mut Groups, g: &ClusterGroup) -> Result<Action, GetOrCreateError> {
    let found = find(groups, g).is_some();
    match get_or_create(g, Ok(found)) {
        Step::Finish(r) => r,
        Step::Create(object) => {
            groups.held.push(object);
            groups.creates += 1;
            match get_or_create_created(g, Ok(())) {
                Step::Publish { .. } => {
                    groups.events += 1;
                    get_or_create_published(Ok(()))
                }
                _ => panic!("a publish follows a create"),
            }
        }
        _ => panic!("get-or-create asks for nothing else"),
    }
}

fn run_patch(groups: &mut Groups, g: &mut ClusterGroup) -> Result<Action, PatchError> {
    let at = find(groups, g);
    let live = at.map(|i| groups.held[i].duplicate());
    match patch(g, Ok(live), &FIELD_MANAGER.to_string()) {
        Step::Finish(r) => r,
        Step::Apply { object, field_manager } => {
            assert_eq!(field_manager, FIELD_MANAGER);
            match at {
                Some(i) => {
                    let mut merged = groups.held[i].duplicate();
                    let mut l = merged.metadata.labels.take().unwrap_or_else(StringMap::new);
                    if let Some(d) = &object.metadata.labels {
                        l.extend(d);
                    }
                    merged.metadata.labels = Some(l);
                    merged.spec = object.spec.duplicate();
                    groups.held[i] = merged;
                }
                None => groups.held.push(object),
            }
            groups.applies += 1;
            match patch_applied(g, Ok(())) {
                Step::Publish { .. } => {
                    groups.events += 1;
                    patch_published(Ok(()))
                }
                _ => panic!("a publish follows an apply"),
            }
        }
        _ => panic!("patch asks for nothing else"),
    }
}

#[test]
fn get_or_create_creates_a_missing_object_once() {
    let mut groups = Groups { held: vec![], creates: 0, applies: 0, events: 0 };
    let g = group("g", Some("ns"));
    assert!(matches!(run_get_or_create(&mut groups, &g), Ok(Action::AwaitChange)));
    assert_eq!(groups.creates, 1);
    assert_eq!(groups.events, 1);
    assert!(matches!(run_get_or_create(&mut groups, &g), Ok(Action::AwaitChange)));
    assert_eq!(groups.creates, 1);
    assert_eq!(groups.events, 1);
    assert_eq!(groups.held.len(), 1);
}

#[test]
fn get_or_create_never_updates_an_existing_object() {
    let mut existing = group("g", Some("ns"));
    existing.metadata.labels = Some(labels(&[("old", "1")]));
    let mut groups = Groups { held: vec![existing], creates: 0, applies: 0, events: 0 };
    let mut wanted = group("g", Some("ns"));
    wanted.metadata.labels = Some(labels(&[("new", "2")]));
    assert!(matches!(run_get_or_create(&mut groups, &wanted), Ok(Action::AwaitChange)));
    assert_eq!(groups.creates, 0);
    let held = groups.held[0].metadata.labels.as_ref().unwrap();
    assert!(held.same(&labels(&[("old", "1")])));
}

#[test]
fn get_or_create_reports_a_failed_lookup() {
    let g = group("g", Some("ns"));
    match get_or_create(&g, Err(conflict())) {
        Step::Finish(Err(GetOrCreateError::Lookup(KubeError::Api { code, .. }))) => assert_eq!(code, 409),
        _ => panic!("a failed lookup ends the primitive"),
    }
}

#[test]
fn get_or_create_reports_a_failed_create() {
    let g = group("g", Some("ns"));
    match get_or_create_created(&g, Err(conflict())) {
        Step::Finish(Err(e)) => {
            assert!(matches!(e, GetOrCreateError::Create(_)));
            assert_eq!(e.error_class(), ErrorClass::Create);
        }
        _ => panic!("a failed create ends the primitive"),
    }
}

#[test]
fn created_event_names_object_and_namespace() {
    let g = group("g", Some("ns"));
    match get_or_create_created(&g, Ok(())) {
        Step::Publish { event, regarding } => {
            assert_eq!(event.type_, EventType::Normal);
            assert_eq!(event.reason, "Created");
            assert_eq!(event.action, "Creating");
            assert_eq!(event.note.as_deref(), Some("Created fleet object `g` in `ns`"));
            assert!(event.secondary.is_none());
            assert_eq!(regarding.kind.as_deref(), Some("ClusterGroup"));
            assert_eq!(regarding.api_version.as_deref(), Some("fleet.cattle.io/v1alpha1"));
            assert_eq!(regarding.name.as_deref(), Some("g"));
            assert_eq!(regarding.namespace.as_deref(), Some("ns"));
        }
        _ => panic!("a publish follows a create"),
    }
}

#[test]
fn created_event_without_namespace_has_an_empty_one() {
    let g = group("g", None);
    match get_or_create_created(&g, Ok(())) {
        Step::Publish { event, .. } => {
            assert_eq!(event.note.as_deref(), Some("Created fleet object `g` in ``"));
        }
        _ => panic!("a publish follows a create"),
    }
}

#[test]
fn forbidden_publish_is_swallowed() {
    assert!(matches!(get_or_create_published(Err(forbidden())), Ok(Action::AwaitChange)));
    assert!(matches!(patch_published(Err(forbidden())), Ok(Action::AwaitChange)));
    assert!(tolerate_forbidden(Err(forbidden())).is_ok());
    assert!(tolerate_forbidden(Ok(())).is_ok());
}

#[test]
fn other_publish_failures_propagate() {
    assert!(matches!(get_or_create_published(Err(conflict())), Err(GetOrCreateError::Event(_))));
    assert!(matches!(patch_published(Err(conflict())), Err(PatchError::Event(_))));
    assert!(matches!(
        patch_published(Err(KubeError::Other("broken pipe".to_string()))),
        Err(PatchError::Event(KubeError::Other(_)))
    ));
    assert!(tolerate_forbidden(Err(conflict())).is_err());
}

#[test]
fn forbidden_is_told_by_the_reason() {
    assert!(forbidden().forbidden());
    assert!(!conflict().forbidden());
    assert!(!KubeError::Other("Forbidden".to_string()).forbidden());
    assert!(!KubeError::Serde("Forbidden".to_string()).forbidden());
}

#[test]
fn patch_skips_the_write_when_nothing_differs() {
    let mut existing = group("g", Some("ns"));
    existing.metadata.labels = Some(labels(&[("foo", "bar")]));
    let mut groups = Groups { held: vec![existing], creates: 0, applies: 0, events: 0 };
    let mut wanted = group("g", Some("ns"));
    assert!(matches!(run_patch(&mut groups, &mut wanted), Ok(Action::AwaitChange)));
    assert_eq!(groups.applies, 0);
    assert_eq!(groups.events, 0);
}

#[test]
fn patch_writes_a_missing_label_exactly_once() {
    let mut groups =
        Groups { held: vec![group("g", Some("ns"))], creates: 0, applies: 0, events: 0 };
    let mut wanted = group("g", Some("ns"));
    wanted.metadata.labels = Some(labels(&[("env", "prod")]));
    assert!(matches!(run_patch(&mut groups, &mut wanted), Ok(Action::AwaitChange)));
    assert_eq!(groups.applies, 1);
    assert_eq!(groups.events, 1);
    let held = groups.held[0].metadata.labels.as_ref().unwrap();
    assert_eq!(held.get(&"env".to_string()).unwrap(), "prod");
    assert!(matches!(run_patch(&mut groups, &mut wanted), Ok(Action::AwaitChange)));
    assert_eq!(groups.applies, 1);
    assert_eq!(groups.events, 1);
}

#[test]
fn patch_writes_an_absent_object() {
    let mut groups = Groups { held: vec![], creates: 0, applies: 0, events: 0 };
    let mut wanted = group("g", Some("ns"));
    assert!(matches!(run_patch(&mut groups, &mut wanted), Ok(Action::AwaitChange)));
    assert_eq!(groups.applies, 1);
    assert!(matches!(run_patch(&mut groups, &mut wanted), Ok(Action::AwaitChange)));
    assert_eq!(groups.applies, 1);
}

#[test]
fn patch_of_an_unchanged_cluster_writes_nothing() {
    let mut desired = Cluster {
        types: None,
        metadata: ObjectMeta::named(Some("c".to_string()), None),
        spec: ClusterSpec::new(),
        status: None,
    };
    let live = desired.duplicate();
    assert!(matches!(
        patch(&mut desired, Ok(Some(live)), &"m".to_string()),
        Step::Finish(Ok(Action::AwaitChange))
    ));
    let mut live = desired.duplicate();
    live.status = Some(ClusterStatus { namespace: None });
    live.metadata.labels = Some(labels(&[("foo", "bar")]));
    assert!(matches!(
        patch(&mut desired, Ok(Some(live)), &"m".to_string()),
        Step::Finish(Ok(Action::AwaitChange))
    ));
    let mut live = desired.duplicate();
    live.spec.agent_namespace = Some("other".to_string());
    assert!(matches!(patch(&mut desired, Ok(Some(live)), &"m".to_string()), Step::Apply { .. }));
}

#[test]
fn patch_of_a_mapping_with_an_extra_live_label_writes_nothing() {
    let mut desired = BundleNamespaceMapping {
        types: None,
        metadata: ObjectMeta::named(Some("ns".to_string()), Some("classes".to_string())),
        bundle_selector: LabelSelector::new(),
        namespace_selector: LabelSelector::new(),
    };
    let mut live = desired.duplicate();
    live.metadata.labels = Some(labels(&[("foo", "bar")]));
    live.metadata.uid = Some("u".to_string());
    assert!(matches!(
        patch(&mut desired, Ok(Some(live)), &"m".to_string()),
        Step::Finish(Ok(Action::AwaitChange))
    ));
    desired.metadata.labels = Some(labels(&[("env", "prod")]));
    let live = BundleNamespaceMapping {
        types: None,
        metadata: ObjectMeta::named(Some("ns".to_string()), Some("classes".to_string())),
        bundle_selector: LabelSelector::new(),
        namespace_selector: LabelSelector::new(),
    };
    match patch(&mut desired, Ok(Some(live)), &"m".to_string()) {
        Step::Apply { object, .. } => {
            assert_eq!(object.metadata.labels.as_ref().unwrap().get(&"env".to_string()).unwrap(), "prod");
        }
        _ => panic!("a missing label is written"),
    }
}

#[test]
fn patch_strips_managed_fields_before_it_compares_and_sends() {
    let mut wanted = group("g", Some("ns"));
    wanted.metadata.managed_fields = Some(vec!["someone".to_string()]);
    match patch(&mut wanted, Ok(None), &"writer".to_string()) {
        Step::Apply { object, field_manager } => {
            assert!(object.metadata.managed_fields.is_none());
            assert_eq!(field_manager, "writer");
            assert_eq!(object.metadata.name.as_deref(), Some("g"));
        }
        _ => panic!("an absent object is written"),
    }
    assert!(wanted.metadata.managed_fields.is_none());
}

#[test]
fn patch_reports_a_failed_lookup_and_a_failed_write() {
    let mut wanted = group("g", Some("ns"));
    match patch(&mut wanted, Err(conflict()), &"w".to_string()) {
        Step::Finish(Err(e)) => {
            assert!(matches!(e, PatchError::Get(_)));
            assert_eq!(e.error_class(), ErrorClass::Lookup);
        }
        _ => panic!("a failed lookup ends the primitive"),
    }
    match patch_applied(&wanted, Err(conflict())) {
        Step::Finish(Err(e)) => {
            assert!(matches!(e, PatchError::Patch(_)));
            assert_eq!(e.error_class(), ErrorClass::Patch);
        }
        _ => panic!("a failed write ends the primitive"),
    }
}

#[test]
fn updated_event_names_type_object_and_namespace() {
    let g = group("g", Some("ns"));
    match patch_applied(&g, Ok(())) {
        Step::Publish { event, regarding } => {
            assert_eq!(event.reason, "Updated");
            assert_eq!(event.action, "Creating");
            assert_eq!(
                event.note.as_deref(),
                Some("Updated `fleet.cattle.io/v1alpha1/ClusterGroup` object `g` in `ns`")
            );
            assert_eq!(regarding.name.as_deref(), Some("g"));
        }
        _ => panic!("a publish follows an apply"),
    }
    let ns = Namespace { metadata: ObjectMeta::named(Some("n".to_string()), None) };
    match patch_applied(&ns, Ok(())) {
        Step::Publish { event, .. } => {
            assert_eq!(event.note.as_deref(), Some("Updated `v1/Namespace` object `n` in `cluster scope`"));
        }
        _ => panic!("a publish follows an apply"),
    }
}

#[test]
fn object_key_follows_scope_and_defaults() {
    let g = group("g", None);
    let k = object_key(&g);
    assert_eq!(k.namespace.as_deref(), Some("default"));
    assert_eq!(k.name, "g");
    assert_eq!(k.kind, "ClusterGroup");
    assert_eq!(k.api_version, "fleet.cattle.io/v1alpha1");
    let g = group("g", Some("ns"));
    assert_eq!(object_key(&g).namespace.as_deref(), Some("ns"));
    let ns = Namespace { metadata: ObjectMeta::named(Some("n".to_string()), Some("ignored".to_string())) };
    let k = object_key(&ns);
    assert!(k.namespace.is_none());
    assert_eq!(k.name, "n");
    let mut generated = ObjectMeta::new();
    generated.generate_name = Some("gen-".to_string());
    let ns = Namespace { metadata: generated };
    assert_eq!(object_key(&ns).name, "gen-");
    let ns = Namespace { metadata: ObjectMeta::new() };
    assert_eq!(object_key(&ns).name, "");
    let r = object_ref(&group("g", None));
    assert!(r.namespace.is_none());
}

#[test]
fn constants_are_stable() {
    assert_eq!(FLEET_FINALIZER, "fleet.addons.cluster.x-k8s.io");
    assert_eq!(FIELD_MANAGER, "addon-provider-fleet");
    assert_eq!(ERROR_REQUEUE_SECONDS, 10);
    assert_eq!(Action::await_change(), Action::AwaitChange);
    assert_eq!(Action::requeue(10), Action::Requeue(10));
}

#[test]
fn second_sync_of_a_bundle_writes_nothing() {
    let mut metadata = ObjectMeta::named(Some("class".to_string()), Some("classes".to_string()));
    metadata.uid = Some("uid".to_string());
    let class = ClusterClass { metadata };
    let config = FleetAddonConfig {
        metadata: ObjectMeta::new(),
        spec: FleetAddonConfigSpec {
            cluster_class: Some(ClusterClassConfig { patch_resource: Some(true), set_owner_references: None }),
            cluster: None,
            config: None,
            install: None,
        },
        status: None,
    };
    let bundle = class.to_bundle(&config).unwrap();
    let mut groups = Groups { held: vec![], creates: 0, applies: 0, events: 0 };
    for _ in 0..2 {
        let mut done = 0;
        let mut last = None;
        let result = loop {
            match bundle.sync(done, last) {
                SyncStep::Finish(r) => break r,
                SyncStep::Run(write) => {
                    let mut group = match write.object {
                        Downstream::Group(g) => g,
                        _ => panic!("the bundle of a class holds a group"),
                    };
                    assert!(matches!(write.mode, WriteMode::Patch(_)));
                    last = Some(run_patch(&mut groups, &mut group).map_err(WriteError::Patch));
                    done += 1;
                }
            }
        };
        assert!(matches!(result, Ok(Action::AwaitChange)));
        assert_eq!(groups.applies, 1);
        assert_eq!(groups.events, 1);
    }
}

#[test]
fn audit_events_point_at_the_object_by_uid_too() {
    let mut g = group("g", Some("ns"));
    g.metadata.uid = Some("uid-7".to_string());
    assert_eq!(object_ref(&g).uid.as_deref(), Some("uid-7"));
    match patch_applied(&g, Ok(())) {
        Step::Publish { regarding, .. } => assert_eq!(regarding.uid.as_deref(), Some("uid-7")),
        _ => panic!("a publish follows an apply"),
    }
    assert!(object_ref(&group("g", None)).uid.is_none());
}
