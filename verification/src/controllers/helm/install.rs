//! The command lines of the package manager for the charts of the fleet
//! manager, and the reading of what it reports.

use crate::api::fleet_addon_config::{FeatureGates, Install, InstallView};
use crate::text::{bool_string, bool_text, joined, text, texts};
use vstd::prelude::*;

verus! {

/// The program that is run.
pub const HELM: &'static str = "helm";

/// How the charts of the fleet manager are installed.
pub struct FleetChart {
    pub repo: String,
    pub version: Option<Install>,
    pub namespace: String,
    pub wait: bool,
    pub update_dependency: bool,
    pub create_namespace: bool,
    pub bootstrap_local_cluster: bool,
    pub feature_gates: FeatureGates,
}

pub struct FleetChartView {
    pub repo: Seq<char>,
    pub version: Option<InstallView>,
    pub namespace: Seq<char>,
    pub wait: bool,
    pub update_dependency: bool,
    pub create_namespace: bool,
    pub bootstrap_local_cluster: bool,
    pub experimental_oci_storage: bool,
    pub experimental_helm_ops: bool,
}

impl View for FleetChart {
    type V = FleetChartView;

    open spec fn view(&self) -> FleetChartView {
        FleetChartView {
            repo: self.repo@,
            version: match self.version {
                Some(v) => Some(v@),
                None => None,
            },
            namespace: self.namespace@,
            wait: self.wait,
            update_dependency: self.update_dependency,
            create_namespace: self.create_namespace,
            bootstrap_local_cluster: self.bootstrap_local_cluster,
            experimental_oci_storage: self.feature_gates.experimental_oci_storage,
            experimental_helm_ops: self.feature_gates.experimental_helm_ops,
        }
    }
}

/// Whether a chart is installed anew or an installed one is upgraded.
#[derive(Clone, Copy, Debug, PartialEq, Eq, Structural)]
pub enum HelmOperation {
    Install,
    Upgrade,
}

impl HelmOperation {
    /// The word of the operation on the command line.
    pub open spec fn word(self) -> Seq<char> {
        match self {
            HelmOperation::Install => "install"@,
            HelmOperation::Upgrade => "upgrade"@,
        }
    }

    /// Computes [`Self::word`].
    pub fn to_string(&self) -> (r: String)
        ensures
            r@ == self.word(),
    {
        match self {
            HelmOperation::Install => text("install"),
            HelmOperation::Upgrade => text("upgrade"),
        }
    }
}

/// An installed release, as the package manager lists it.
#[derive(Debug)]
pub struct ChartInfo {
    pub name: String,
    pub namespace: String,
    pub app_version: String,
    pub status: String,
}

/// A chart of a repository, as the package manager finds it.
#[derive(Debug)]
pub struct ChartSearch {
    pub name: String,
    pub app_version: String,
}

/// Adds a string at the end of a list.
fn push_text(args: &mut Vec<String>, s: String)
    ensures
        texts(final(args)@) == texts(old(args)@).push(s@),
{
    args.push(s);
    assert(texts(args@) =~= texts(old(args)@).push(s@));
}

impl FleetChartView {
    /// The arguments that every install and upgrade of a chart shares, after
    /// the operation and the chart: reuse of values on an upgrade, creation of
    /// the namespace, the namespace, the version and the wait.
    pub open spec fn common_args(self, operation: HelmOperation) -> Seq<Seq<char>> {
        (if operation == HelmOperation::Upgrade {
            seq!["--reuse-values"@]
        } else {
            Seq::empty()
        }) + (if self.create_namespace {
            seq!["--create-namespace"@]
        } else {
            Seq::empty()
        }) + (if self.namespace.len() != 0 {
            seq!["--namespace"@, self.namespace]
        } else {
            Seq::empty()
        }) + (match self.version {
            Some(InstallView::Version(v)) => seq!["--version"@, v],
            _ => Seq::empty(),
        }) + (if self.wait {
            seq!["--wait"@]
        } else {
            Seq::empty()
        })
    }

    /// The command line that installs or upgrades the chart of the custom
    /// resource definitions.
    pub open spec fn fleet_crds(self, operation: HelmOperation) -> Seq<Seq<char>> {
        seq![operation.word(), "fleet-crd"@, "fleet/fleet-crd"@] + self.common_args(operation)
    }

    /// The command line that installs or upgrades the chart of the fleet
    /// manager. Both feature variables carry the OCI storage toggle.
    pub open spec fn fleet(self, operation: HelmOperation) -> Seq<Seq<char>> {
        seq![
            operation.word(),
            "fleet"@,
            "fleet/fleet"@,
            "--set-string"@,
            "extraEnv[0].name=EXPERIMENTAL_OCI_STORAGE"@,
            "--set-string"@,
            "extraEnv[0].value="@ + bool_text(self.experimental_oci_storage),
            "--set-string"@,
            "extraEnv[1].name=EXPERIMENTAL_HELM_OPS"@,
            "--set-string"@,
            "extraEnv[1].value="@ + bool_text(self.experimental_oci_storage),
        ] + self.common_args(operation) + seq![
            "--set"@,
            "bootstrap.enabled="@ + bool_text(self.bootstrap_local_cluster),
        ]
    }

    /// The command line that adds the repository of the charts.
    pub open spec fn add_repo(self) -> Seq<Seq<char>> {
        seq!["repo"@, "add"@, "fleet"@, self.repo]
    }
}

/// The command line that updates the repository of the charts.
pub open spec fn update_repo_args() -> Seq<Seq<char>> {
    seq!["repo"@, "update"@, "fleet"@]
}

/// The command line that searches the repository.
pub open spec fn search_repo_args() -> Seq<Seq<char>> {
    seq!["search"@, "repo"@, "fleet"@, "-o"@, "json"@]
}

/// The command line that lists the installed releases of all namespaces.
pub open spec fn list_args() -> Seq<Seq<char>> {
    seq!["list"@, "-A"@, "-o"@, "json"@]
}

/// What the package manager writes when there is no release at all.
pub const RELEASE_NOT_FOUND: &'static str = "Error: release: not found";

/// Whether the package manager reported that there is no release: it ended
/// with code 1 and that message.
pub open spec fn is_release_not_found(code: Option<i32>, stderr: Seq<char>) -> bool {
    code == Some(1i32) && stderr == RELEASE_NOT_FOUND@
}

/// The position of the first release with the name, if there is one.
pub open spec fn first_named(names: Seq<Seq<char>>, name: Seq<char>) -> Option<int> {
    if exists|i: int| 0 <= i < names.len() && names[i] == name {
        Some(
            choose|i: int|
                0 <= i < names.len() && names[i] == name && forall|j: int|
                    0 <= j < i ==> names[j] != name,
        )
    } else {
        None
    }
}

/// The names of a list of releases.
pub open spec fn info_names(infos: Seq<ChartInfo>) -> Seq<Seq<char>> {
    Seq::new(infos.len(), |i: int| infos[i].name@)
}

/// The names of a list of charts.
pub open spec fn search_names(charts: Seq<ChartSearch>) -> Seq<Seq<char>> {
    Seq::new(charts.len(), |i: int| charts[i].name@)
}

impl FleetChart {
    /// Computes [`FleetChartView::common_args`], appending to the arguments.
    fn push_common(&self, args: &mut Vec<String>, operation: &HelmOperation)
        ensures
            texts(final(args)@) == texts(old(args)@) + self@.common_args(*operation),
    {
        let ghost start = texts(args@);
        match operation {
            HelmOperation::Upgrade => {
                push_text(args, text("--reuse-values"));
            },
            HelmOperation::Install => {},
        }
        if self.create_namespace {
            push_text(args, text("--create-namespace"));
        }
        if self.namespace.as_str().unicode_len() != 0 {
            push_text(args, text("--namespace"));
            push_text(args, self.namespace.clone());
        }
        match &self.version {
            Some(Install::Version(v)) => {
                push_text(args, text("--version"));
                push_text(args, v.clone());
            },
            _ => {},
        }
        if self.wait {
            push_text(args, text("--wait"));
        }
        assert(texts(args@) =~= start + self@.common_args(*operation));
    }

    /// The command line that adds the repository of the charts.
    pub fn add_repo(&self) -> (args: Vec<String>)
        ensures
            texts(args@) == self@.add_repo(),
    {
        let mut args: Vec<String> = Vec::new();
        assert(texts(args@) =~= Seq::empty());
        push_text(&mut args, text("repo"));
        push_text(&mut args, text("add"));
        push_text(&mut args, text("fleet"));
        push_text(&mut args, self.repo.clone());
        assert(texts(args@) =~= self@.add_repo());
        args
    }

    /// The command line that updates the repository of the charts.
    pub fn update_repo(&self) -> (args: Vec<String>)
        ensures
            texts(args@) == update_repo_args(),
    {
        let mut args: Vec<String> = Vec::new();
        assert(texts(args@) =~= Seq::empty());
        push_text(&mut args, text("repo"));
        push_text(&mut args, text("update"));
        push_text(&mut args, text("fleet"));
        assert(texts(args@) =~= update_repo_args());
        args
    }

    /// The command line that searches the repository. The package manager
    /// answers with a list of charts as structured text.
    pub fn search_repo(&self) -> (args: Vec<String>)
        ensures
            texts(args@) == search_repo_args(),
    {
        let mut args: Vec<String> = Vec::new();
        assert(texts(args@) =~= Seq::empty());
        push_text(&mut args, text("search"));
        push_text(&mut args, text("repo"));
        push_text(&mut args, text("fleet"));
        push_text(&mut args, text("-o"));
        push_text(&mut args, text("json"));
        assert(texts(args@) =~= search_repo_args());
        args
    }

    /// The command line that lists the installed releases.
    pub fn list_releases() -> (args: Vec<String>)
        ensures
            texts(args@) == list_args(),
    {
        let mut args: Vec<String> = Vec::new();
        assert(texts(args@) =~= Seq::empty());
        push_text(&mut args, text("list"));
        push_text(&mut args, text("-A"));
        push_text(&mut args, text("-o"));
        push_text(&mut args, text("json"));
        assert(texts(args@) =~= list_args());
        args
    }

    /// Computes [`is_release_not_found`].
    pub fn release_not_found(code: Option<i32>, stderr: &String) -> (b: bool)
        ensures
            b == is_release_not_found(code, stderr@),
    {
        match code {
            Some(c) => c == 1 && *stderr == text(RELEASE_NOT_FOUND),
            None => false,
        }
    }

    /// The first of the listed releases that has the name of the chart.
    pub fn get_metadata(chart: &String, infos: Vec<ChartInfo>) -> (r: Option<ChartInfo>)
        ensures
            match first_named(info_names(infos@), chart@) {
                Some(i) => r == Some(infos@[i]),
                None => r is None,
            },
    {
        let ghost all = infos@;
        let mut rest = infos;
        let mut i: usize = 0;
        while i < rest.len()
            invariant
                i <= rest@.len(),
                rest@ == all,
                all == infos@,
                forall|j: int| 0 <= j < i ==> info_names(all)[j] != chart@,
            decreases rest@.len() - i,
        {
            if rest[i].name == *chart {
                proof {
                    let names = info_names(all);
                    assert(names[i as int] == chart@);
                    let k = first_named(names, chart@)->0;
                    if k < i {
                        assert(names[k] != chart@);
                    } else if i < k {
                        assert(names[i as int] != chart@);
                    }
                }
                return Some(rest.swap_remove(i));
            }
            i += 1;
        }
        proof {
            let names = info_names(all);
            assert forall|j: int| 0 <= j < names.len() implies names[j] != chart@ by {}
        }
        None
    }

    /// The first of the found charts that has the name.
    pub fn find_chart(name: &String, charts: Vec<ChartSearch>) -> (r: Option<ChartSearch>)
        ensures
            match first_named(search_names(charts@), name@) {
                Some(i) => r == Some(charts@[i]),
                None => r is None,
            },
    {
        let ghost all = charts@;
        let mut rest = charts;
        let mut i: usize = 0;
        while i < rest.len()
            invariant
                i <= rest@.len(),
                rest@ == all,
                all == charts@,
                forall|j: int| 0 <= j < i ==> search_names(all)[j] != name@,
            decreases rest@.len() - i,
        {
            if rest[i].name == *name {
                proof {
                    let names = search_names(all);
                    assert(names[i as int] == name@);
                    let k = first_named(names, name@)->0;
                    if k < i {
                        assert(names[k] != name@);
                    } else if i < k {
                        assert(names[i as int] != name@);
                    }
                }
                return Some(rest.swap_remove(i));
            }
            i += 1;
        }
        proof {
            let names = search_names(all);
            assert forall|j: int| 0 <= j < names.len() implies names[j] != name@ by {}
        }
        None
    }

    /// Computes [`FleetChartView::fleet`].
    pub fn fleet(&self, operation: &HelmOperation) -> (args: Vec<String>)
        ensures
            texts(args@) == self@.fleet(*operation),
    {
        let oci = self.feature_gates.experimental_oci_storage;
        let helm_ops = self.feature_gates.experimental_oci_storage;
        let mut args: Vec<String> = Vec::new();
        assert(texts(args@) =~= Seq::empty());
        push_text(&mut args, operation.to_string());
        push_text(&mut args, text("fleet"));
        push_text(&mut args, text("fleet/fleet"));
        push_text(&mut args, text("--set-string"));
        push_text(&mut args, text("extraEnv[0].name=EXPERIMENTAL_OCI_STORAGE"));
        push_text(&mut args, text("--set-string"));
        push_text(&mut args, joined(&text("extraEnv[0].value="), &bool_string(oci)));
        push_text(&mut args, text("--set-string"));
        push_text(&mut args, text("extraEnv[1].name=EXPERIMENTAL_HELM_OPS"));
        push_text(&mut args, text("--set-string"));
        push_text(&mut args, joined(&text("extraEnv[1].value="), &bool_string(helm_ops)));
        let ghost head = texts(args@);
        self.push_common(&mut args, operation);
        push_text(&mut args, text("--set"));
        push_text(
            &mut args,
            joined(&text("bootstrap.enabled="), &bool_string(self.bootstrap_local_cluster)),
        );
        assert(texts(args@) =~= self@.fleet(*operation));
        args
    }

    /// Computes [`FleetChartView::fleet_crds`].
    pub fn fleet_crds(&self, operation: &HelmOperation) -> (args: Vec<String>)
        ensures
            texts(args@) == self@.fleet_crds(*operation),
    {
        let mut args: Vec<String> = Vec::new();
        assert(texts(args@) =~= Seq::empty());
        push_text(&mut args, operation.to_string());
        push_text(&mut args, text("fleet-crd"));
        push_text(&mut args, text("fleet/fleet-crd"));
        self.push_common(&mut args, operation);
        assert(texts(args@) =~= self@.fleet_crds(*operation));
        args
    }
}

/// What is done about the chart of the custom resource definitions.
#[derive(Clone, Copy, Debug, PartialEq, Eq, Structural)]
pub enum CrdDecision {
    Run(HelmOperation),
    /// The installed chart is as it should be.
    Nothing,
    /// The repository does not show the chart, or not a newer one: ask again later.
    Requeue,
}

/// What is done about the chart of the custom resource definitions, given
/// the version of the installed release, the version that the repository
/// offers and the version that the configuration expects. An installed
/// release is upgraded where the repository offers another version and the
/// latest is followed, or where another version than the installed one is
/// expected; a missing release is installed once the repository offers the
/// chart.
pub open spec fn crd_decision(
    installed: Option<Seq<char>>,
    offered: Option<Seq<char>>,
    expected: InstallView,
) -> CrdDecision {
    match (installed, offered, expected) {
        (Some(i), Some(o), InstallView::FollowLatest(true)) => if o != i {
            CrdDecision::Run(HelmOperation::Upgrade)
        } else {
            CrdDecision::Requeue
        },
        (Some(i), Some(_), InstallView::Version(e)) => if crate::text::without_v(e) != i {
            CrdDecision::Run(HelmOperation::Upgrade)
        } else {
            CrdDecision::Nothing
        },
        (None, Some(_), _) => CrdDecision::Run(HelmOperation::Install),
        (Some(_), Some(_), InstallView::FollowLatest(false)) => CrdDecision::Nothing,
        _ => CrdDecision::Requeue,
    }
}

/// What is done about the chart of the fleet manager.
pub enum FleetDecision {
    /// Run the operation; the status then records the version.
    Run { operation: HelmOperation, version: String },
    /// Nothing is run; the status records the installed version.
    Record(String),
    /// The installed chart is as it should be.
    Nothing,
    /// The repository does not show the chart, or not a newer one: ask again later.
    Requeue,
}

pub enum FleetDecisionView {
    Run { operation: HelmOperation, version: Seq<char> },
    Record(Seq<char>),
    Nothing,
    Requeue,
}

impl View for FleetDecision {
    type V = FleetDecisionView;

    open spec fn view(&self) -> FleetDecisionView {
        match self {
            FleetDecision::Run { operation, version } => FleetDecisionView::Run {
                operation: *operation,
                version: version@,
            },
            FleetDecision::Record(v) => FleetDecisionView::Record(v@),
            FleetDecision::Nothing => FleetDecisionView::Nothing,
            FleetDecision::Requeue => FleetDecisionView::Requeue,
        }
    }
}

/// What is done about the chart of the fleet manager, given the version of
/// the installed release, the version that the repository offers and the
/// version that the configuration expects.
pub open spec fn fleet_decision(
    installed: Option<Seq<char>>,
    offered: Option<Seq<char>>,
    expected: InstallView,
) -> FleetDecisionView {
    match (installed, offered, expected) {
        (Some(i), Some(o), InstallView::FollowLatest(true)) => if o != i {
            FleetDecisionView::Run { operation: HelmOperation::Upgrade, version: o }
        } else {
            FleetDecisionView::Requeue
        },
        (Some(i), Some(_), InstallView::Version(e)) => if crate::text::without_v(e) != i {
            FleetDecisionView::Run { operation: HelmOperation::Upgrade, version: e }
        } else {
            FleetDecisionView::Nothing
        },
        (None, Some(o), InstallView::FollowLatest(_)) => FleetDecisionView::Run {
            operation: HelmOperation::Install,
            version: o,
        },
        (None, Some(_), InstallView::Version(e)) => FleetDecisionView::Run {
            operation: HelmOperation::Install,
            version: e,
        },
        (Some(i), Some(_), InstallView::FollowLatest(false)) => FleetDecisionView::Record(i),
        _ => FleetDecisionView::Requeue,
    }
}

/// The version of an optional release.
pub open spec fn installed_version(info: Option<&ChartInfo>) -> Option<Seq<char>> {
    match info {
        Some(i) => Some(i.app_version@),
        None => None,
    }
}

/// The version of an optional chart.
pub open spec fn offered_version(chart: Option<&ChartSearch>) -> Option<Seq<char>> {
    match chart {
        Some(c) => Some(c.app_version@),
        None => None,
    }
}

/// The name of the chart of the custom resource definitions in the
/// repository, and that of its release.
pub const FLEET_CRD_CHART: &'static str = "fleet/fleet-crd";

pub const FLEET_CRD_RELEASE: &'static str = "fleet-crd";

/// The name of the chart of the fleet manager in the repository, and that of
/// its release.
pub const FLEET_CHART: &'static str = "fleet/fleet";

pub const FLEET_RELEASE: &'static str = "fleet";

/// Computes [`crd_decision`].
pub fn decide_crds(installed: Option<&ChartInfo>, offered: Option<&ChartSearch>, expected: &Install) -> (d:
    CrdDecision)
    ensures
        d == crd_decision(installed_version(installed), offered_version(offered), expected@),
{
    match (installed, offered) {
        (Some(i), Some(o)) => match expected {
            Install::FollowLatest(true) => if o.app_version != i.app_version {
                CrdDecision::Run(HelmOperation::Upgrade)
            } else {
                CrdDecision::Requeue
            },
            Install::Version(e) => if crate::text::strip_v(e) != i.app_version {
                CrdDecision::Run(HelmOperation::Upgrade)
            } else {
                CrdDecision::Nothing
            },
            Install::FollowLatest(false) => CrdDecision::Nothing,
        },
        (None, Some(_)) => CrdDecision::Run(HelmOperation::Install),
        _ => CrdDecision::Requeue,
    }
}

/// Computes [`fleet_decision`].
pub fn decide_fleet(installed: Option<&ChartInfo>, offered: Option<&ChartSearch>, expected: &Install) -> (d:
    FleetDecision)
    ensures
        d@ == fleet_decision(installed_version(installed), offered_version(offered), expected@),
{
    match (installed, offered) {
        (Some(i), Some(o)) => match expected {
            Install::FollowLatest(true) => if o.app_version != i.app_version {
                FleetDecision::Run { operation: HelmOperation::Upgrade, version: o.app_version.clone() }
            } else {
                FleetDecision::Requeue
            },
            Install::Version(e) => if crate::text::strip_v(e) != i.app_version {
                FleetDecision::Run { operation: HelmOperation::Upgrade, version: e.clone() }
            } else {
                FleetDecision::Nothing
            },
            Install::FollowLatest(false) => FleetDecision::Record(i.app_version.clone()),
        },
        (None, Some(o)) => match expected {
            Install::FollowLatest(_) => FleetDecision::Run {
                operation: HelmOperation::Install,
                version: o.app_version.clone(),
            },
            Install::Version(e) => FleetDecision::Run {
                operation: HelmOperation::Install,
                version: e.clone(),
            },
        },
        _ => FleetDecision::Requeue,
    }
}

/// The message of the condition that records an install or an upgrade.
pub open spec fn install_message(operation: HelmOperation, version: Seq<char>) -> Seq<char> {
    match operation {
        HelmOperation::Install => "Installed fleet version "@ + version,
        HelmOperation::Upgrade => "Updated fleet to version "@ + version,
    }
}

/// Computes [`install_message`].
pub fn message_of(operation: &HelmOperation, version: &String) -> (r: String)
    ensures
        r@ == install_message(*operation, version@),
{
    match operation {
        HelmOperation::Install => joined(&text("Installed fleet version "), version),
        HelmOperation::Upgrade => joined(&text("Updated fleet to version "), version),
    }
}

} // verus!
