use fleet_addon::api::fleet_addon_config::{
    FeatureGates, FleetAddonConfig, FleetAddonConfigSpec, FleetConfigSettings, FleetInstall, Install,
};
use fleet_addon::controller::{
    condition, dedup_conditions, ready_condition, with_status_result,
};
use fleet_addon::controllers::addon_config::{
    expected_version, install_crds, install_fleet, AddonConfigSyncError, HelmError, InstallStep,
    FLEET_REPOSITORY,
};
use fleet_addon::controllers::helm::install::{
    decide_crds, decide_fleet, message_of, ChartInfo, ChartSearch, CrdDecision, FleetChart,
    FleetDecision, HelmOperation, FLEET_CHART, FLEET_CRD_CHART, FLEET_CRD_RELEASE, FLEET_RELEASE,
    HELM, RELEASE_NOT_FOUND,
};
use fleet_addon::error::Error;
use fleet_addon::meta::{Condition, ObjectMeta, ObjectReference};
use fleet_addon::runtime::{Action, KubeError};
use fleet_addon::string_map::StringMap;

fn chart() -> FleetChart {
    FleetChart {
        repo: "https://example.test/charts".to_string(),
        version: None,
        namespace: "cattle-fleet-system".to_string(),
        wait: true,
        update_dependency: true,
        create_namespace: true,
        bootstrap_local_cluster: false,
        feature_gates: FeatureGates {
            experimental_oci_storage: true,
            experimental_helm_ops: false,
            config_map: None,
        },
    }
}

fn info(name: &str, version: &str) -> ChartInfo {
    ChartInfo {
        name: name.to_string(),
        namespace: "cattle-fleet-system".to_string(),
        app_version: version.to_string(),
        status: "deployed".to_string(),
    }
}

fn search(name: &str, version: &str) -> ChartSearch {
    ChartSearch { name: name.to_string(), app_version: version.to_string() }
}

#[test]
fn repository_commands() {
    assert_eq!(HELM, "helm");
    assert_eq!(chart().add_repo(), vec!["repo", "add", "fleet", "https://example.test/charts"]);
    assert_eq!(chart().update_repo(), vec!["repo", "update", "fleet"]);
    assert_eq!(chart().search_repo(), vec!["search", "repo", "fleet", "-o", "json"]);
    assert_eq!(FleetChart::list_releases(), vec!["list", "-A", "-o", "json"]);
}

#[test]
fn crd_install_command() {
    assert_eq!(
        chart().fleet_crds(&HelmOperation::Install),
        vec![
            "install",
            "fleet-crd",
            "fleet/fleet-crd",
            "--create-namespace",
            "--namespace",
            "cattle-fleet-system",
            "--wait",
        ]
    );
}

#[test]
fn crd_upgrade_command_reuses_values_and_pins_the_version() {
    let mut c = chart();
    c.version = Some(Install::Version("v0.12.0".to_string()));
    c.create_namespace = false;
    c.wait = false;
    c.namespace = String::new();
    assert_eq!(
        c.fleet_crds(&HelmOperation::Upgrade),
        vec!["upgrade", "fleet-crd", "fleet/fleet-crd", "--reuse-values", "--version", "v0.12.0"]
    );
    c.version = Some(Install::FollowLatest(true));
    assert_eq!(c.fleet_crds(&HelmOperation::Upgrade), vec!["upgrade", "fleet-crd", "fleet/fleet-crd", "--reuse-values"]);
}

#[test]
fn fleet_install_command() {
    assert_eq!(
        chart().fleet(&HelmOperation::Install),
        vec![
            "install",
            "fleet",
            "fleet/fleet",
            "--set-string",
            "extraEnv[0].name=EXPERIMENTAL_OCI_STORAGE",
            "--set-string",
            "extraEnv[0].value=true",
            "--set-string",
            "extraEnv[1].name=EXPERIMENTAL_HELM_OPS",
            "--set-string",
            "extraEnv[1].value=true",
            "--create-namespace",
            "--namespace",
            "cattle-fleet-system",
            "--wait",
            "--set",
            "bootstrap.enabled=false",
        ]
    );
}

#[test]
fn fleet_upgrade_command() {
    let mut c = chart();
    c.feature_gates.experimental_oci_storage = false;
    c.feature_gates.experimental_helm_ops = true;
    c.bootstrap_local_cluster = true;
    c.version = Some(Install::Version("0.12.0".to_string()));
    assert_eq!(
        c.fleet(&HelmOperation::Upgrade),
        vec![
            "upgrade",
            "fleet",
            "fleet/fleet",
            "--set-string",
            "extraEnv[0].name=EXPERIMENTAL_OCI_STORAGE",
            "--set-string",
            "extraEnv[0].value=false",
            "--set-string",
            "extraEnv[1].name=EXPERIMENTAL_HELM_OPS",
            "--set-string",
            "extraEnv[1].value=false",
            "--reuse-values",
            "--create-namespace",
            "--namespace",
            "cattle-fleet-system",
            "--version",
            "0.12.0",
            "--wait",
            "--set",
            "bootstrap.enabled=true",
        ]
    );
}

#[test]
fn operation_words() {
    assert_eq!(HelmOperation::Install.to_string(), "install");
    assert_eq!(HelmOperation::Upgrade.to_string(), "upgrade");
    assert!(HelmOperation::Install != HelmOperation::Upgrade);
}

#[test]
fn release_not_found_needs_code_and_message() {
    assert_eq!(RELEASE_NOT_FOUND, "Error: release: not found");
    assert!(FleetChart::release_not_found(Some(1), &RELEASE_NOT_FOUND.to_string()));
    assert!(!FleetChart::release_not_found(Some(2), &RELEASE_NOT_FOUND.to_string()));
    assert!(!FleetChart::release_not_found(None, &RELEASE_NOT_FOUND.to_string()));
    assert!(!FleetChart::release_not_found(Some(1), &"Error: release: not found\n".to_string()));
    assert!(!FleetChart::release_not_found(Some(1), &String::new()));
}

#[test]
fn metadata_is_the_first_release_of_that_name() {
    let infos = vec![info("other", "1"), info("fleet", "2"), info("fleet", "3")];
    let found = FleetChart::get_metadata(&FLEET_RELEASE.to_string(), infos).unwrap();
    assert_eq!(found.app_version, "2");
    assert!(FleetChart::get_metadata(&FLEET_CRD_RELEASE.to_string(), vec![info("fleet", "2")]).is_none());
    assert!(FleetChart::get_metadata(&"fleet".to_string(), vec![]).is_none());
    let charts = vec![search("fleet/fleet-agent", "1"), search("fleet/fleet", "2"), search("fleet/fleet-crd", "3")];
    assert_eq!(FleetChart::find_chart(&FLEET_CHART.to_string(), charts).unwrap().app_version, "2");
    let charts = vec![search("fleet/fleet", "2")];
    assert!(FleetChart::find_chart(&FLEET_CRD_CHART.to_string(), charts).is_none());
}

#[test]
fn crd_decisions() {
    let i = info("fleet-crd", "0.12.0");
    let same = search("fleet/fleet-crd", "0.12.0");
    let newer = search("fleet/fleet-crd", "0.13.0");
    let latest = Install::FollowLatest(true);
    let frozen = Install::FollowLatest(false);
    assert_eq!(decide_crds(Some(&i), Some(&newer), &latest), CrdDecision::Run(HelmOperation::Upgrade));
    assert_eq!(decide_crds(Some(&i), Some(&same), &latest), CrdDecision::Requeue);
    assert_eq!(decide_crds(Some(&i), Some(&newer), &frozen), CrdDecision::Nothing);
    assert_eq!(
        decide_crds(Some(&i), Some(&same), &Install::Version("v0.13.0".to_string())),
        CrdDecision::Run(HelmOperation::Upgrade)
    );
    assert_eq!(decide_crds(Some(&i), Some(&same), &Install::Version("v0.12.0".to_string())), CrdDecision::Nothing);
    assert_eq!(decide_crds(Some(&i), Some(&same), &Install::Version("0.12.0".to_string())), CrdDecision::Nothing);
    assert_eq!(decide_crds(None, Some(&same), &latest), CrdDecision::Run(HelmOperation::Install));
    assert_eq!(decide_crds(None, Some(&same), &frozen), CrdDecision::Run(HelmOperation::Install));
    assert_eq!(decide_crds(None, None, &latest), CrdDecision::Requeue);
    assert_eq!(decide_crds(Some(&i), None, &frozen), CrdDecision::Requeue);
}

#[test]
fn fleet_decisions() {
    let i = info("fleet", "0.12.0");
    let same = search("fleet/fleet", "0.12.0");
    let newer = search("fleet/fleet", "0.13.0");
    match decide_fleet(Some(&i), Some(&newer), &Install::FollowLatest(true)) {
        FleetDecision::Run { operation, version } => {
            assert_eq!(operation, HelmOperation::Upgrade);
            assert_eq!(version, "0.13.0");
        }
        _ => panic!("a newer chart is followed"),
    }
    assert!(matches!(decide_fleet(Some(&i), Some(&same), &Install::FollowLatest(true)), FleetDecision::Requeue));
    match decide_fleet(Some(&i), Some(&same), &Install::Version("v0.13.0".to_string())) {
        FleetDecision::Run { operation, version } => {
            assert_eq!(operation, HelmOperation::Upgrade);
            assert_eq!(version, "v0.13.0");
        }
        _ => panic!("another version is installed"),
    }
    assert!(matches!(
        decide_fleet(Some(&i), Some(&same), &Install::Version("v0.12.0".to_string())),
        FleetDecision::Nothing
    ));
    match decide_fleet(None, Some(&newer), &Install::FollowLatest(false)) {
        FleetDecision::Run { operation, version } => {
            assert_eq!(operation, HelmOperation::Install);
            assert_eq!(version, "0.13.0");
        }
        _ => panic!("a missing release is installed"),
    }
    match decide_fleet(None, Some(&newer), &Install::Version("v0.11.0".to_string())) {
        FleetDecision::Run { operation, version } => {
            assert_eq!(operation, HelmOperation::Install);
            assert_eq!(version, "v0.11.0");
        }
        _ => panic!("a missing release is installed"),
    }
    assert!(matches!(
        decide_fleet(Some(&i), Some(&newer), &Install::FollowLatest(false)),
        FleetDecision::Record(v) if v == "0.12.0"
    ));
    assert!(matches!(decide_fleet(Some(&i), None, &Install::FollowLatest(false)), FleetDecision::Requeue));
    assert!(matches!(decide_fleet(None, None, &Install::Version("v1".to_string())), FleetDecision::Requeue));
}

#[test]
fn install_messages() {
    assert_eq!(message_of(&HelmOperation::Install, &"0.13.0".to_string()), "Installed fleet version 0.13.0");
    assert_eq!(message_of(&HelmOperation::Upgrade, &"v0.13.0".to_string()), "Updated fleet to version v0.13.0");
}

#[test]
fn version_is_normalized_to_a_leading_v() {
    assert!(matches!(Install::Version("0.12.0".to_string()).normalized(), Install::Version(v) if v == "v0.12.0"));
    assert!(matches!(Install::Version("v0.12.0".to_string()).normalized(), Install::Version(v) if v == "v0.12.0"));
    assert!(matches!(Install::Version(String::new()).normalized(), Install::Version(v) if v == "v"));
    assert!(matches!(Install::FollowLatest(true).normalized(), Install::FollowLatest(true)));
    assert!(matches!(Install::FollowLatest(false).duplicate(), Install::FollowLatest(false)));
}

fn addon(config: Option<FleetConfigSettings>, install: Option<FleetInstall>) -> FleetAddonConfig {
    FleetAddonConfig {
        metadata: ObjectMeta::named(Some("fleet-addon-config".to_string()), None),
        spec: FleetAddonConfigSpec { cluster_class: None, cluster: None, config, install },
        status: None,
    }
}

#[test]
fn chart_follows_the_configuration() {
    let plain = addon(None, None).chart();
    assert_eq!(plain.repo, FLEET_REPOSITORY);
    assert_eq!(plain.repo, "https://rancher.github.io/fleet-helm-charts/");
    assert_eq!(plain.namespace, "cattle-fleet-system");
    assert!(plain.wait && plain.update_dependency && plain.create_namespace);
    assert!(!plain.bootstrap_local_cluster);
    assert!(plain.version.is_none());
    assert!(!plain.feature_gates.experimental_oci_storage);
    let settings = FleetConfigSettings {
        server: None,
        feature_gates: Some(FeatureGates {
            experimental_oci_storage: true,
            experimental_helm_ops: true,
            config_map: None,
        }),
        bootstrap_local_cluster: Some(true),
    };
    let install = FleetInstall { install_version: Install::Version("v0.12.0".to_string()) };
    let full = addon(Some(settings), Some(install)).chart();
    assert!(full.bootstrap_local_cluster);
    assert!(full.feature_gates.experimental_oci_storage);
    assert!(full.feature_gates.experimental_helm_ops);
    assert!(matches!(full.version, Some(Install::Version(ref v)) if v == "v0.12.0"));
}

#[test]
fn flags_are_updated_only_where_a_config_map_is_named() {
    assert!(addon(None, None).update_flags().is_none());
    let gates = |config_map| FleetConfigSettings {
        server: None,
        feature_gates: Some(FeatureGates {
            experimental_oci_storage: true,
            experimental_helm_ops: false,
            config_map,
        }),
        bootstrap_local_cluster: None,
    };
    assert!(addon(Some(gates(None)), None).update_flags().is_none());
    let reference = ObjectReference {
        api_version: Some("v1".to_string()),
        kind: Some("ConfigMap".to_string()),
        name: Some("fleet-controller".to_string()),
        namespace: Some("cattle-fleet-system".to_string()),
        uid: None,
    };
    let r = addon(Some(gates(Some(reference))), None).update_flags().unwrap();
    assert_eq!(r.name.as_deref(), Some("fleet-controller"));
    assert_eq!(r.namespace.as_deref(), Some("cattle-fleet-system"));
}

#[test]
fn features_are_merged_into_the_settings() {
    let gates = FeatureGates { experimental_oci_storage: true, experimental_helm_ops: false, config_map: None };
    let mut data = StringMap::new();
    data.insert("OTHER".to_string(), "x".to_string());
    data.insert("EXPERIMENTAL_OCI_STORAGE".to_string(), "false".to_string());
    gates.merge_features(&mut data);
    assert_eq!(data.len(), 3);
    assert_eq!(data.get(&"EXPERIMENTAL_OCI_STORAGE".to_string()).unwrap(), "true");
    assert_eq!(data.get(&"EXPERIMENTAL_HELM_OPS".to_string()).unwrap(), "false");
    assert_eq!(data.get(&"OTHER".to_string()).unwrap(), "x");
}

fn cond(type_: &str, message: &str, time: &str) -> Condition {
    condition(&type_.to_string(), message.to_string(), Some(1), &time.to_string())
}

#[test]
fn condition_that_holds_has_its_type_as_reason() {
    let c = cond("RepoAdd", "Repo added: x", "t0");
    assert_eq!(c.type_, "RepoAdd");
    assert_eq!(c.reason, "RepoAdd");
    assert_eq!(c.status, "True");
    assert_eq!(c.message, "Repo added: x");
    assert_eq!(c.observed_generation, Some(1));
    assert_eq!(c.last_transition_time, "t0");
}

#[test]
fn ready_condition_tells_success_from_failure() {
    let ok = ready_condition(None, Some(2), &"t".to_string());
    assert_eq!(ok.type_, "Ready");
    assert_eq!(ok.reason, "Ready");
    assert_eq!(ok.status, "True");
    assert_eq!(ok.message, "Addon provider is ready");
    assert_eq!(ok.observed_generation, Some(2));
    let failed = ready_condition(Some(&"helm is missing".to_string()), None, &"t".to_string());
    assert_eq!(failed.status, "False");
    assert_eq!(failed.message, "FleetAddonConfig reconcile error: helm is missing");
}

#[test]
fn conditions_keep_one_entry_per_type_in_the_order_of_the_types() {
    let list = vec![
        cond("RepoAdd", "added", "t0"),
        cond("Ready", "ready", "t0"),
        cond("RepoAdd", "added", "t1"),
        cond("Ready", "not ready", "t2"),
        cond("Installed", "v1", "t3"),
    ];
    let unique = dedup_conditions(&list);
    assert_eq!(unique.len(), 3);
    assert_eq!(unique[0].type_, "Installed");
    assert_eq!(unique[1].type_, "Ready");
    assert_eq!(unique[1].message, "not ready");
    assert_eq!(unique[1].last_transition_time, "t2");
    assert_eq!(unique[2].type_, "RepoAdd");
    assert_eq!(unique[2].last_transition_time, "t0");
    assert!(dedup_conditions(&Vec::new()).is_empty());
    let mut changed = cond("RepoAdd", "added", "t5");
    changed.observed_generation = Some(2);
    let unique = dedup_conditions(&vec![cond("RepoAdd", "added", "t0"), changed]);
    assert_eq!(unique.len(), 1);
    assert_eq!(unique[0].last_transition_time, "t5");
}

#[test]
fn conditions_come_out_as_a_sorted_map_would_give_them() {
    let types = ["b", "a", "ab", "", "B", "a", "\u{e9}", "z", "aa"];
    let list: Vec<Condition> = types.iter().map(|t| cond(t, "m", "t")).collect();
    let unique: Vec<String> = dedup_conditions(&list).into_iter().map(|c| c.type_).collect();
    let mut expected: Vec<String> = types.iter().map(|t| t.to_string()).collect();
    expected.sort();
    expected.dedup();
    assert_eq!(unique, expected);
}

#[test]
fn recorded_conditions_join_the_status() {
    let mut c = addon(None, None);
    c.record(cond("RepoAdd", "added", "t0"));
    c.record(cond("RepoUpdate", "updated", "t1"));
    let status = c.status.as_ref().unwrap();
    assert_eq!(status.conditions.len(), 2);
    assert_eq!(status.conditions[1].type_, "RepoUpdate");
    assert!(status.installed_version.is_none());
}

#[test]
fn status_write_failure_fails_a_reconcile_that_succeeded() {
    let broken = || KubeError::Other("gone".to_string());
    assert!(matches!(with_status_result(Ok(Action::AwaitChange), Ok(())), Ok(Action::AwaitChange)));
    assert!(matches!(
        with_status_result(Ok(Action::AwaitChange), Err(broken())),
        Err(Error::KubeError(KubeError::Other(_)))
    ));
    let failed = Error::KubeError(KubeError::Serde("bad".to_string()));
    assert!(matches!(
        with_status_result(Err(failed), Err(broken())),
        Err(Error::KubeError(KubeError::Serde(_)))
    ));
}

#[test]
fn installation_goes_by_the_configured_version() {
    let mut c = chart();
    assert!(expected_version(&c).is_none());
    c.version = Some(Install::Version("0.12.0".to_string()));
    assert!(matches!(expected_version(&c), Some(Install::Version(v)) if v == "v0.12.0"));
    c.version = Some(Install::FollowLatest(true));
    assert!(matches!(expected_version(&c), Some(Install::FollowLatest(true))));
}

#[test]
fn crd_installation_steps() {
    let c = chart();
    let latest = Install::FollowLatest(true);
    let offered = || Ok(vec![search("fleet/fleet", "0.13.0"), search("fleet/fleet-crd", "0.13.0")]);
    match install_crds(&c, &latest, Ok(None), offered()) {
        InstallStep::Run(args) => assert_eq!(args, c.fleet_crds(&HelmOperation::Install)),
        _ => panic!("a missing release is installed"),
    }
    match install_crds(&c, &latest, Ok(Some(info("fleet-crd", "0.12.0"))), offered()) {
        InstallStep::Run(args) => assert_eq!(args[0], "upgrade"),
        _ => panic!("a newer chart is followed"),
    }
    assert!(matches!(
        install_crds(&c, &Install::FollowLatest(false), Ok(Some(info("fleet-crd", "0.12.0"))), offered()),
        InstallStep::Proceed
    ));
    assert!(matches!(
        install_crds(&c, &latest, Ok(Some(info("fleet-crd", "0.13.0"))), offered()),
        InstallStep::Finish(Ok(Action::Requeue(10)))
    ));
    assert!(matches!(
        install_crds(&c, &latest, Ok(None), Ok(vec![search("fleet/fleet", "0.13.0")])),
        InstallStep::Finish(Ok(Action::Requeue(10)))
    ));
    assert!(matches!(
        install_crds(&c, &latest, Err(HelmError::Command("gone".to_string())), offered()),
        InstallStep::Finish(Err(AddonConfigSyncError::MetadataGet(_)))
    ));
    assert!(matches!(
        install_crds(&c, &latest, Ok(None), Err(HelmError::Parse("bad".to_string()))),
        InstallStep::Finish(Err(AddonConfigSyncError::RepoSearch(_)))
    ));
}

#[test]
fn fleet_installation_steps_and_status() {
    let c = chart();
    let offered = || Ok(vec![search("fleet/fleet-crd", "0.13.0"), search("fleet/fleet", "0.13.0")]);
    let (step, decision) = install_fleet(&c, &Install::FollowLatest(true), Ok(None), offered());
    match step {
        InstallStep::Run(args) => assert_eq!(args, c.fleet(&HelmOperation::Install)),
        _ => panic!("a missing release is installed"),
    }
    let mut config = addon(None, None);
    config.metadata.generation = Some(4);
    config.record_install(&decision, &"t".to_string());
    let status = config.status.as_ref().unwrap();
    assert_eq!(status.installed_version.as_deref(), Some("0.13.0"));
    assert_eq!(status.conditions.len(), 1);
    assert_eq!(status.conditions[0].type_, "Installed");
    assert_eq!(status.conditions[0].reason, "Installed");
    assert_eq!(status.conditions[0].message, "Installed fleet version 0.13.0");
    assert_eq!(status.conditions[0].observed_generation, Some(4));

    let (step, decision) = install_fleet(
        &c,
        &Install::FollowLatest(false),
        Ok(Some(info("fleet", "0.12.0"))),
        offered(),
    );
    assert!(matches!(step, InstallStep::Proceed));
    config.record_install(&decision, &"t".to_string());
    let status = config.status.as_ref().unwrap();
    assert_eq!(status.installed_version.as_deref(), Some("0.12.0"));
    assert_eq!(status.conditions.len(), 1);

    let (step, decision) = install_fleet(
        &c,
        &Install::Version("v0.12.0".to_string()),
        Ok(Some(info("fleet", "0.12.0"))),
        offered(),
    );
    assert!(matches!(step, InstallStep::Proceed));
    assert!(matches!(decision, FleetDecision::Nothing));
    let mut untouched = addon(None, None);
    untouched.record_install(&decision, &"t".to_string());
    assert!(untouched.status.is_none());

    let (step, _) = install_fleet(&c, &Install::FollowLatest(true), Ok(None), Ok(vec![]));
    assert!(matches!(step, InstallStep::Finish(Ok(Action::Requeue(10)))));
    let (step, _) = install_fleet(
        &c,
        &Install::FollowLatest(true),
        Err(HelmError::Output("x".to_string())),
        offered(),
    );
    assert!(matches!(step, InstallStep::Finish(Err(AddonConfigSyncError::MetadataGet(_)))));
    let (step, _) =
        install_fleet(&c, &Install::FollowLatest(true), Ok(None), Err(HelmError::Output("x".to_string())));
    assert!(matches!(step, InstallStep::Finish(Err(AddonConfigSyncError::RepoSearch(_)))));
}

#[test]
fn installation_conditions() {
    let gates = FeatureGates { experimental_oci_storage: true, experimental_helm_ops: false, config_map: None };
    assert_eq!(gates.describe(), "EXPERIMENTAL_OCI_STORAGE=true,EXPERIMENTAL_HELM_OPS=false");
    let c = fleet_addon::controllers::addon_config::flags_updated(&gates, Some(1), &"t".to_string());
    assert_eq!(c.type_, "FlagsUpdate");
    assert_eq!(
        c.message,
        "Updated chart flags to the expected state: EXPERIMENTAL_OCI_STORAGE=true,EXPERIMENTAL_HELM_OPS=false"
    );
    let c = fleet_addon::controllers::addon_config::repo_added(&"https://r".to_string(), None, &"t".to_string());
    assert_eq!((c.type_.as_str(), c.message.as_str()), ("RepoAdd", "Repo added: https://r"));
    let c = fleet_addon::controllers::addon_config::repo_updated(&"https://r".to_string(), None, &"t".to_string());
    assert_eq!((c.type_.as_str(), c.message.as_str()), ("RepoUpdate", "Repo updated: https://r"));
}
