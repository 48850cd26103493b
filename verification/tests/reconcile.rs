use fleet_addon::api::capi_clusterclass::ClusterClass;
use fleet_addon::api::fleet_addon_config::{
    ClusterClassConfig, ClusterConfig, FleetAddonConfig, FleetAddonConfigSpec,
};
use fleet_addon::api::fleet_clustergroup::ClusterGroup;
use fleet_addon::controllers::bundle::{Downstream, FleetBundle, SyncStep, WriteError, WriteMode};
use fleet_addon::controllers::controller::{
    get_or_create, get_or_create_created, get_or_create_published, Step, FLEET_FINALIZER,
};
use fleet_addon::controllers::reconcile::{
    Cleanup, Command, FinalizerError, Input, Phase, Reconcile, ReconcileError,
};
use fleet_addon::controllers::{
    BundleError, ClusterSyncError, ConfigFetchError, ErrorClass, GetOrCreateError, PatchError,
    SyncError,
};
use fleet_addon::meta::{ObjectMeta, TypeMeta};
use fleet_addon::runtime::{Action, KubeError};

fn token() -> String {
    FLEET_FINALIZER.to_string()
}

fn types() -> TypeMeta {
    TypeMeta { api_version: "cluster.x-k8s.io/v1beta2".to_string(), kind: "Cluster".to_string() }
}

fn source(finalizers: &[&str], deleting: bool) -> ObjectMeta {
    let mut m = ObjectMeta::named(Some("cluster-a".to_string()), Some("ns".to_string()));
    if !finalizers.is_empty() {
        m.finalizers = Some(finalizers.iter().map(|f| f.to_string()).collect());
    }
    if deleting {
        m.deletion_timestamp = Some("2024-01-01T00:00:00Z".to_string());
    }
    m
}

fn failure() -> KubeError {
    KubeError::Api { code: 500, reason: "InternalError".to_string(), message: "boom".to_string() }
}

fn sync_failure() -> SyncError {
    SyncError::ClusterSync(ClusterSyncError::PatchError(PatchError::Patch(failure())))
}

fn config(class: bool) -> FleetAddonConfig {
    FleetAddonConfig {
        metadata: ObjectMeta::named(Some("fleet-addon-config".to_string()), None),
        spec: FleetAddonConfigSpec {
            cluster_class: if class {
                Some(ClusterClassConfig { patch_resource: None, set_owner_references: Some(true) })
            } else {
                None
            },
            cluster: Some(ClusterConfig::new()),
            config: None,
            install: None,
        },
        status: None,
    }
}

#[test]
fn apply_without_bundle_adds_no_finalizer() {
    let (mut r, first) = Reconcile::start(&source(&[], false), &types(), &token());
    assert!(matches!(first, Command::Derive));
    assert_eq!(r.phase, Phase::Deriving);
    let next = r.step(Input::Derived(Ok(false)));
    assert!(matches!(next, Command::Finish(Ok(Action::AwaitChange))));
    assert!(r.finalizers.is_empty());
    assert_eq!(r.phase, Phase::Finished);
}

#[test]
fn apply_with_bundle_adds_the_finalizer_before_the_sync() {
    let (mut r, _) = Reconcile::start(&source(&["other"], false), &types(), &token());
    match r.step(Input::Derived(Ok(true))) {
        Command::AddFinalizer(list) => assert_eq!(list, vec!["other".to_string(), token()]),
        _ => panic!("the finalizer comes first"),
    }
    assert_eq!(r.phase, Phase::AddingFinalizer);
    assert!(matches!(r.step(Input::FinalizerAdded(Ok(()))), Command::Sync));
    assert_eq!(r.finalizers, vec!["other".to_string(), token()]);
    let done = r.step(Input::Synced(Ok(Action::AwaitChange)));
    assert!(matches!(done, Command::Finish(Ok(Action::AwaitChange))));
    assert!(r.finalizers.contains(&token()));
}

#[test]
fn apply_with_finalizer_present_goes_straight_to_the_sync() {
    let (mut r, _) = Reconcile::start(&source(&[FLEET_FINALIZER], false), &types(), &token());
    assert!(matches!(r.step(Input::Derived(Ok(true))), Command::Sync));
    assert_eq!(r.finalizers, vec![token()]);
}

#[test]
fn failed_sync_keeps_the_finalizer() {
    let (mut r, _) = Reconcile::start(&source(&[], false), &types(), &token());
    r.step(Input::Derived(Ok(true)));
    r.step(Input::FinalizerAdded(Ok(())));
    match r.step(Input::Synced(Err(sync_failure()))) {
        Command::Finish(Err(e)) => {
            assert!(matches!(e, FinalizerError::ApplyFailed(ReconcileError::Sync(_))));
            assert_eq!(e.error_class(), ErrorClass::Patch);
        }
        _ => panic!("a failed sync fails the reconcile"),
    }
    assert!(r.finalizers.contains(&token()));
}

#[test]
fn sync_action_is_handed_on() {
    let (mut r, _) = Reconcile::start(&source(&[FLEET_FINALIZER], false), &types(), &token());
    r.step(Input::Derived(Ok(true)));
    assert!(matches!(r.step(Input::Synced(Ok(Action::Requeue(30)))), Command::Finish(Ok(Action::Requeue(30)))));
}

#[test]
fn failed_finalizer_patch_ends_the_reconcile_before_the_sync() {
    let (mut r, _) = Reconcile::start(&source(&[], false), &types(), &token());
    r.step(Input::Derived(Ok(true)));
    match r.step(Input::FinalizerAdded(Err(failure()))) {
        Command::Finish(Err(e)) => {
            assert!(matches!(e, FinalizerError::AddFinalizer(_)));
            assert_eq!(e.error_class(), ErrorClass::Finalizer);
        }
        _ => panic!("a rejected finalizer fails the reconcile"),
    }
    assert!(r.finalizers.is_empty());
}

#[test]
fn failed_derive_fails_the_reconcile() {
    let (mut r, _) = Reconcile::start(&source(&[], false), &types(), &token());
    let e = BundleError::Config(ConfigFetchError::Lookup(failure()));
    match r.step(Input::Derived(Err(e))) {
        Command::Finish(Err(e)) => {
            assert!(matches!(e, FinalizerError::ApplyFailed(ReconcileError::Bundle(_))));
            assert_eq!(e.error_class(), ErrorClass::Lookup);
        }
        _ => panic!("a failed derive fails the reconcile"),
    }
}

#[test]
fn unnamed_object_cannot_take_the_finalizer() {
    let mut meta = ObjectMeta::new();
    meta.generate_name = Some("gen-".to_string());
    let (mut r, _) = Reconcile::start(&meta, &types(), &token());
    assert!(matches!(
        r.step(Input::Derived(Ok(true))),
        Command::Finish(Err(FinalizerError::UnnamedObject))
    ));
    let mut meta = ObjectMeta::new();
    meta.finalizers = Some(vec![token()]);
    meta.deletion_timestamp = Some("t".to_string());
    let (_, first) = Reconcile::start(&meta, &types(), &token());
    assert!(matches!(first, Command::Finish(Err(FinalizerError::UnnamedObject))));
}

#[test]
fn deleting_object_without_finalizer_is_left_alone() {
    let (r, first) = Reconcile::start(&source(&["other"], true), &types(), &token());
    assert!(matches!(first, Command::Finish(Ok(Action::AwaitChange))));
    assert_eq!(r.phase, Phase::Finished);
}

#[test]
fn completed_cleanup_removes_the_finalizer() {
    let (mut r, first) =
        Reconcile::start(&source(&["a", FLEET_FINALIZER, "b"], true), &types(), &token());
    assert!(matches!(first, Command::Derive));
    assert_eq!(r.phase, Phase::DerivingCleanup);
    assert!(matches!(r.step(Input::Derived(Ok(true))), Command::Cleanup));
    match r.step(Input::CleanedUp(Ok(Cleanup::Done(Action::AwaitChange)))) {
        Command::RemoveFinalizer(list) => assert_eq!(list, vec!["a".to_string(), "b".to_string()]),
        _ => panic!("the finalizer goes after the cleanup"),
    }
    assert!(r.finalizers.contains(&token()));
    assert!(matches!(
        r.step(Input::FinalizerRemoved(Ok(()))),
        Command::Finish(Ok(Action::AwaitChange))
    ));
    assert_eq!(r.finalizers, vec!["a".to_string(), "b".to_string()]);
}

#[test]
fn failed_cleanup_keeps_the_finalizer() {
    let (mut r, _) = Reconcile::start(&source(&[FLEET_FINALIZER], true), &types(), &token());
    r.step(Input::Derived(Ok(true)));
    match r.step(Input::CleanedUp(Err(SyncError::BundleNsMappingDelete(failure())))) {
        Command::Finish(Err(e)) => {
            assert!(matches!(e, FinalizerError::CleanupFailed(ReconcileError::Sync(_))));
            assert_eq!(e.error_class(), ErrorClass::Patch);
        }
        _ => panic!("a failed cleanup fails the reconcile"),
    }
    assert_eq!(r.finalizers, vec![token()]);
}

#[test]
fn failed_removal_is_reported_and_keeps_the_finalizer() {
    let (mut r, _) = Reconcile::start(&source(&[FLEET_FINALIZER], true), &types(), &token());
    r.step(Input::Derived(Ok(true)));
    r.step(Input::CleanedUp(Ok(Cleanup::Done(Action::AwaitChange))));
    assert!(matches!(
        r.step(Input::FinalizerRemoved(Err(failure()))),
        Command::Finish(Err(FinalizerError::RemoveFinalizer(_)))
    ));
    assert_eq!(r.finalizers, vec![token()]);
}

#[test]
fn cleanup_without_bundle_records_the_deletion() {
    let (mut r, _) = Reconcile::start(&source(&[FLEET_FINALIZER], true), &types(), &token());
    match r.step(Input::Derived(Ok(false))) {
        Command::Publish { event, regarding } => {
            assert_eq!(event.reason, "DeleteRequested");
            assert_eq!(event.action, "Deleting");
            assert_eq!(event.note.as_deref(), Some("Delete `cluster-a`"));
            assert_eq!(regarding.name.as_deref(), Some("cluster-a"));
            assert_eq!(regarding.namespace.as_deref(), Some("ns"));
            assert_eq!(regarding.kind.as_deref(), Some("Cluster"));
        }
        _ => panic!("the deletion is recorded"),
    }
    let forbidden =
        KubeError::Api { code: 403, reason: "Forbidden".to_string(), message: String::new() };
    assert!(matches!(r.step(Input::Published(Err(forbidden))), Command::RemoveFinalizer(_)));
    assert!(matches!(r.step(Input::FinalizerRemoved(Ok(()))), Command::Finish(Ok(Action::AwaitChange))));
    assert!(r.finalizers.is_empty());
}

#[test]
fn failed_delete_event_fails_the_cleanup() {
    let (mut r, _) = Reconcile::start(&source(&[FLEET_FINALIZER], true), &types(), &token());
    r.step(Input::Derived(Ok(false)));
    assert!(matches!(
        r.step(Input::Published(Err(failure()))),
        Command::Finish(Err(FinalizerError::CleanupFailed(ReconcileError::Event(_))))
    ));
    assert_eq!(r.finalizers, vec![token()]);
}

#[test]
fn unexpected_input_repeats_the_command() {
    let (mut r, _) = Reconcile::start(&source(&[], false), &types(), &token());
    assert!(matches!(r.step(Input::Synced(Ok(Action::AwaitChange))), Command::Derive));
    assert_eq!(r.phase, Phase::Deriving);
    r.step(Input::Derived(Ok(true)));
    assert!(matches!(r.step(Input::Derived(Ok(true))), Command::AddFinalizer(_)));
    assert_eq!(r.phase, Phase::AddingFinalizer);
    r.step(Input::FinalizerAdded(Ok(())));
    r.step(Input::Synced(Ok(Action::AwaitChange)));
    assert!(matches!(r.step(Input::Derived(Ok(true))), Command::Finish(Ok(Action::AwaitChange))));
    assert_eq!(r.phase, Phase::Finished);
}

/// Object `cluster-a` arrives without finalizer and deletion timestamp, its
/// bundle holds one downstream object, and the sync creates it.
#[test]
fn scenario_first_reconcile_creates_the_downstream_object() {
    let class = ClusterClass { metadata: source(&[], false) };
    let mut held: Vec<ClusterGroup> = Vec::new();
    let mut finalizers: Vec<String> = Vec::new();

    let (mut r, mut command) = Reconcile::start(&class.metadata, &ClusterClass::type_meta(), &token());
    let bundle = class.to_bundle(&config(true));
    let action = loop {
        command = match command {
            Command::Derive => r.step(Input::Derived(Ok(bundle.is_some()))),
            Command::AddFinalizer(list) => {
                finalizers = list;
                r.step(Input::FinalizerAdded(Ok(())))
            }
            Command::Sync => {
                let b = bundle.as_ref().unwrap();
                let mut done = 0;
                let mut last = None;
                let result = loop {
                    match b.sync(done, last) {
                        SyncStep::Finish(result) => break result,
                        SyncStep::Run(write) => {
                            let group = match write.object {
                                Downstream::Group(g) => g,
                                _ => panic!("the bundle of a class holds a group"),
                            };
                            assert!(matches!(write.mode, WriteMode::GetOrCreate));
                            let outcome = match get_or_create(&group, Ok(!held.is_empty())) {
                                Step::Finish(r) => r,
                                Step::Create(object) => {
                                    held.push(object);
                                    match get_or_create_created(&group, Ok(())) {
                                        Step::Publish { .. } => get_or_create_published(Ok(())),
                                        _ => panic!("a publish follows a create"),
                                    }
                                }
                                _ => panic!("get-or-create asks for nothing else"),
                            };
                            last = Some(outcome.map_err(WriteError::GetOrCreate));
                            done += 1;
                        }
                    }
                };
                r.step(Input::Synced(result))
            }
            Command::Finish(result) => break result,
            _ => panic!("an apply asks for nothing else"),
        };
    };

    assert!(matches!(action, Ok(Action::AwaitChange)));
    assert_eq!(finalizers, vec![token()]);
    assert_eq!(r.finalizers, vec![token()]);
    assert_eq!(held.len(), 1);
    assert_eq!(held[0].metadata.name.as_deref(), Some("cluster-a"));
}

/// `cluster-a` is being deleted while it holds the finalizer; the cleanup
/// finds another live object that refers to the same downstream mapping and
/// defers.
#[test]
fn scenario_deferred_cleanup_keeps_finalizer_and_mapping() {
    let meta = source(&[FLEET_FINALIZER], true);
    let (mut r, first) = Reconcile::start(&meta, &types(), &token());
    assert!(matches!(first, Command::Derive));
    assert!(matches!(r.step(Input::Derived(Ok(true))), Command::Cleanup));
    let end = r.step(Input::CleanedUp(Ok(Cleanup::Deferred(Action::AwaitChange))));
    assert!(matches!(end, Command::Finish(Ok(Action::AwaitChange))));
    assert_eq!(r.finalizers, vec![token()]);
    assert_eq!(r.phase, Phase::Finished);
}

#[test]
fn sync_failure_classes_follow_the_failed_call() {
    let lookup = GetOrCreateError::Lookup(failure());
    assert_eq!(lookup.error_class(), ErrorClass::Lookup);
    let event = GetOrCreateError::Event(failure());
    assert_eq!(event.error_class(), ErrorClass::EventPublish);
    let e = SyncError::ClusterRegistrationTokenSync(GetOrCreateError::Create(failure()));
    assert_eq!(e.error_class(), ErrorClass::Create);
    let e = SyncError::ClusterSync(ClusterSyncError::ClusterEncodeError("bad".to_string()));
    assert_eq!(e.error_class(), ErrorClass::Serialization);
    let e = SyncError::ClusterSync(ClusterSyncError::MappingLookupError(failure()));
    assert_eq!(e.error_class(), ErrorClass::Lookup);
}
