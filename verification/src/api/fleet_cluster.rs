//! The downstream cluster object that mirrors a cluster descriptor.

use crate::api::comparable::{merged_meta, meta_diff, ResourceDiff};
use crate::meta::{
    copy_opt_map, map_or_empty, opt_map, opt_submap, opt_types, same_opt_bool, same_opt_i64,
    ObjectMeta, ObjectMetaView, TypeMeta, TypeMetaView,
};
use crate::string_map::StringMap;
use crate::text::{copy_opt_text, opt_text, same_opt_text, text};
use vstd::prelude::*;

verus! {

/// An environment variable handed to the downstream agent.
pub struct ClusterAgentEnvVars {
    pub name: String,
    pub value: Option<String>,
}

pub struct ClusterAgentEnvVarsView {
    pub name: Seq<char>,
    pub value: Option<Seq<char>>,
}

impl View for ClusterAgentEnvVars {
    type V = ClusterAgentEnvVarsView;

    open spec fn view(&self) -> ClusterAgentEnvVarsView {
        ClusterAgentEnvVarsView { name: self.name@, value: opt_text(self.value) }
    }
}

/// A toleration of the downstream agent's pods.
pub struct ClusterAgentTolerations {
    pub effect: Option<String>,
    pub key: Option<String>,
    pub operator: Option<String>,
    pub toleration_seconds: Option<i64>,
    pub value: Option<String>,
}

pub struct ClusterAgentTolerationsView {
    pub effect: Option<Seq<char>>,
    pub key: Option<Seq<char>>,
    pub operator: Option<Seq<char>>,
    pub toleration_seconds: Option<i64>,
    pub value: Option<Seq<char>>,
}

impl View for ClusterAgentTolerations {
    type V = ClusterAgentTolerationsView;

    open spec fn view(&self) -> ClusterAgentTolerationsView {
        ClusterAgentTolerationsView {
            effect: opt_text(self.effect),
            key: opt_text(self.key),
            operator: opt_text(self.operator),
            toleration_seconds: self.toleration_seconds,
            value: opt_text(self.value),
        }
    }
}

/// The views of an optional list of environment variables.
pub open spec fn opt_env_views(o: Option<Vec<ClusterAgentEnvVars>>) -> Option<
    Seq<ClusterAgentEnvVarsView>,
> {
    match o {
        Some(v) => Some(Seq::new(v@.len(), |i: int| v@[i]@)),
        None => None,
    }
}

/// The views of an optional list of tolerations.
pub open spec fn opt_toleration_views(o: Option<Vec<ClusterAgentTolerations>>) -> Option<
    Seq<ClusterAgentTolerationsView>,
> {
    match o {
        Some(v) => Some(Seq::new(v@.len(), |i: int| v@[i]@)),
        None => None,
    }
}

/// A copy of an optional list of environment variables.
pub fn copy_opt_env(o: &Option<Vec<ClusterAgentEnvVars>>) -> (r: Option<Vec<ClusterAgentEnvVars>>)
    ensures
        opt_env_views(r) == opt_env_views(*o),
{
    match o {
        None => None,
        Some(v) => {
            let mut r: Vec<ClusterAgentEnvVars> = Vec::new();
            let mut i: usize = 0;
            while i < v.len()
                invariant
                    i <= v@.len(),
                    r@.len() == i,
                    forall|j: int| 0 <= j < i ==> r@[j]@ == v@[j]@,
                decreases v@.len() - i,
            {
                r.push(
                    ClusterAgentEnvVars { name: v[i].name.clone(), value: copy_opt_text(&v[i].value) },
                );
                i += 1;
            }
            assert(opt_env_views(Some(r)) =~= opt_env_views(Some(*v)));
            Some(r)
        },
    }
}

/// A copy of an optional list of tolerations.
pub fn copy_opt_tolerations(o: &Option<Vec<ClusterAgentTolerations>>) -> (r: Option<
    Vec<ClusterAgentTolerations>,
>)
    ensures
        opt_toleration_views(r) == opt_toleration_views(*o),
{
    match o {
        None => None,
        Some(v) => {
            let mut r: Vec<ClusterAgentTolerations> = Vec::new();
            let mut i: usize = 0;
            while i < v.len()
                invariant
                    i <= v@.len(),
                    r@.len() == i,
                    forall|j: int| 0 <= j < i ==> r@[j]@ == v@[j]@,
                decreases v@.len() - i,
            {
                r.push(
                    ClusterAgentTolerations {
                        effect: copy_opt_text(&v[i].effect),
                        key: copy_opt_text(&v[i].key),
                        operator: copy_opt_text(&v[i].operator),
                        toleration_seconds: v[i].toleration_seconds,
                        value: copy_opt_text(&v[i].value),
                    },
                );
                i += 1;
            }
            assert(opt_toleration_views(Some(r)) =~= opt_toleration_views(Some(*v)));
            Some(r)
        },
    }
}

/// Whether two lists hold the same environment variables in the same order.
fn same_env(x: &Vec<ClusterAgentEnvVars>, y: &Vec<ClusterAgentEnvVars>) -> (r: bool)
    ensures
        r == (opt_env_views(Some(*x)) == opt_env_views(Some(*y))),
{
    if x.len() != y.len() {
        assert(opt_env_views(Some(*x))->0.len() != opt_env_views(Some(*y))->0.len());
        return false;
    }
    let mut i: usize = 0;
    while i < x.len()
        invariant
            i <= x@.len(),
            x@.len() == y@.len(),
            forall|j: int| 0 <= j < i ==> x@[j]@ == y@[j]@,
        decreases x@.len() - i,
    {
        if !(x[i].name == y[i].name && same_opt_text(&x[i].value, &y[i].value)) {
            assert(opt_env_views(Some(*x))->0[i as int] != opt_env_views(Some(*y))->0[i as int]);
            return false;
        }
        i += 1;
    }
    assert(opt_env_views(Some(*x))->0 =~= opt_env_views(Some(*y))->0);
    true
}

/// Whether two lists hold the same tolerations in the same order.
fn same_tolerations(x: &Vec<ClusterAgentTolerations>, y: &Vec<ClusterAgentTolerations>) -> (r: bool)
    ensures
        r == (opt_toleration_views(Some(*x)) == opt_toleration_views(Some(*y))),
{
    if x.len() != y.len() {
        assert(opt_toleration_views(Some(*x))->0.len() != opt_toleration_views(Some(*y))->0.len());
        return false;
    }
    let mut i: usize = 0;
    while i < x.len()
        invariant
            i <= x@.len(),
            x@.len() == y@.len(),
            forall|j: int| 0 <= j < i ==> x@[j]@ == y@[j]@,
        decreases x@.len() - i,
    {
        let equal = same_opt_text(&x[i].effect, &y[i].effect) && same_opt_text(&x[i].key, &y[i].key)
            && same_opt_text(&x[i].operator, &y[i].operator) && same_opt_i64(
            x[i].toleration_seconds,
            y[i].toleration_seconds,
        ) && same_opt_text(&x[i].value, &y[i].value);
        if !equal {
            assert(opt_toleration_views(Some(*x))->0[i as int] != opt_toleration_views(
                Some(*y),
            )->0[i as int]);
            return false;
        }
        i += 1;
    }
    assert(opt_toleration_views(Some(*x))->0 =~= opt_toleration_views(Some(*y))->0);
    true
}

/// Whether two optional lists hold the same environment variables.
pub fn same_opt_env(a: &Option<Vec<ClusterAgentEnvVars>>, b: &Option<Vec<ClusterAgentEnvVars>>) -> (r:
    bool)
    ensures
        r == (opt_env_views(*a) == opt_env_views(*b)),
{
    match (a, b) {
        (Some(x), Some(y)) => same_env(x, y),
        (None, None) => true,
        _ => false,
    }
}

/// Whether two optional lists hold the same tolerations.
pub fn same_opt_tolerations(
    a: &Option<Vec<ClusterAgentTolerations>>,
    b: &Option<Vec<ClusterAgentTolerations>>,
) -> (r: bool)
    ensures
        r == (opt_toleration_views(*a) == opt_toleration_views(*b)),
{
    match (a, b) {
        (Some(x), Some(y)) => same_tolerations(x, y),
        (None, None) => true,
        _ => false,
    }
}

/// The desired state of a downstream cluster.
pub struct ClusterSpec {
    pub agent_env_vars: Option<Vec<ClusterAgentEnvVars>>,
    pub agent_namespace: Option<String>,
    pub agent_tolerations: Option<Vec<ClusterAgentTolerations>>,
    pub client_id: Option<String>,
    pub host_network: Option<bool>,
    pub kube_config_secret: Option<String>,
    /// Values for templating, each as the text of a structured value.
    pub template_values: Option<StringMap>,
}

pub struct ClusterSpecView {
    pub agent_env_vars: Option<Seq<ClusterAgentEnvVarsView>>,
    pub agent_namespace: Option<Seq<char>>,
    pub agent_tolerations: Option<Seq<ClusterAgentTolerationsView>>,
    pub client_id: Option<Seq<char>>,
    pub host_network: Option<bool>,
    pub kube_config_secret: Option<Seq<char>>,
    pub template_values: Option<Map<Seq<char>, Seq<char>>>,
}

impl View for ClusterSpec {
    type V = ClusterSpecView;

    open spec fn view(&self) -> ClusterSpecView {
        ClusterSpecView {
            agent_env_vars: opt_env_views(self.agent_env_vars),
            agent_namespace: opt_text(self.agent_namespace),
            agent_tolerations: opt_toleration_views(self.agent_tolerations),
            client_id: opt_text(self.client_id),
            host_network: self.host_network,
            kube_config_secret: opt_text(self.kube_config_secret),
            template_values: opt_map(self.template_values),
        }
    }
}

impl ClusterSpecView {
    /// The spec with nothing set.
    pub open spec fn empty() -> ClusterSpecView {
        ClusterSpecView {
            agent_env_vars: None,
            agent_namespace: None,
            agent_tolerations: None,
            client_id: None,
            host_network: None,
            kube_config_secret: None,
            template_values: None,
        }
    }

    /// Whether the live spec holds what the desired one asks for, on the fields
    /// that the operator manages: every desired template value with an equal
    /// value, and the agent settings exactly.
    pub open spec fn settled_in(self, live: ClusterSpecView) -> bool {
        &&& map_or_empty(self.template_values).submap_of(map_or_empty(live.template_values))
        &&& self.agent_namespace == live.agent_namespace
        &&& self.host_network == live.host_network
        &&& self.agent_env_vars == live.agent_env_vars
        &&& self.agent_tolerations == live.agent_tolerations
    }
}

impl ClusterSpec {
    /// The spec with nothing set.
    pub fn new() -> (r: Self)
        ensures
            r@ == ClusterSpecView::empty(),
    {
        ClusterSpec {
            agent_env_vars: None,
            agent_namespace: None,
            agent_tolerations: None,
            client_id: None,
            host_network: None,
            kube_config_secret: None,
            template_values: None,
        }
    }

    pub fn duplicate(&self) -> (r: Self)
        ensures
            r@ == self@,
    {
        ClusterSpec {
            agent_env_vars: copy_opt_env(&self.agent_env_vars),
            agent_namespace: copy_opt_text(&self.agent_namespace),
            agent_tolerations: copy_opt_tolerations(&self.agent_tolerations),
            client_id: copy_opt_text(&self.client_id),
            host_network: self.host_network,
            kube_config_secret: copy_opt_text(&self.kube_config_secret),
            template_values: copy_opt_map(&self.template_values),
        }
    }
}

/// What the fleet manager has observed of a downstream cluster.
pub struct ClusterStatus {
    /// The namespace that the fleet manager keeps for the cluster.
    pub namespace: Option<String>,
}

pub struct ClusterStatusView {
    pub namespace: Option<Seq<char>>,
}

impl View for ClusterStatus {
    type V = ClusterStatusView;

    open spec fn view(&self) -> ClusterStatusView {
        ClusterStatusView { namespace: opt_text(self.namespace) }
    }
}

/// The view of an optional status.
pub open spec fn opt_status(o: Option<ClusterStatus>) -> Option<ClusterStatusView> {
    match o {
        Some(s) => Some(s@),
        None => None,
    }
}

/// A downstream cluster.
pub struct Cluster {
    pub types: Option<TypeMeta>,
    pub metadata: ObjectMeta,
    pub spec: ClusterSpec,
    pub status: Option<ClusterStatus>,
}

pub struct ClusterView {
    pub types: Option<TypeMetaView>,
    pub metadata: ObjectMetaView,
    pub spec: ClusterSpecView,
    pub status: Option<ClusterStatusView>,
}

impl View for Cluster {
    type V = ClusterView;

    open spec fn view(&self) -> ClusterView {
        ClusterView {
            types: opt_types(self.types),
            metadata: self.metadata@,
            spec: self.spec@,
            status: opt_status(self.status),
        }
    }
}

impl ResourceDiff for Cluster {
    open spec fn meta_of(v: ClusterView) -> ObjectMetaView {
        v.metadata
    }

    open spec fn with_meta(v: ClusterView, m: ObjectMetaView) -> ClusterView {
        ClusterView { metadata: m, ..v }
    }

    open spec fn kind_of() -> TypeMetaView {
        TypeMetaView { api_version: "fleet.cattle.io/v1alpha1"@, kind: "Cluster"@ }
    }

    open spec fn is_namespaced() -> bool {
        true
    }

    /// The managed spec fields decide: every desired template value with an
    /// equal value, and the agent settings exactly. The status is the fleet
    /// manager's and does not count.
    open spec fn fields_differ(desired: ClusterView, live: ClusterView) -> bool {
        !desired.spec.settled_in(live.spec)
    }

    /// An apply merges the template values key by key and sets the agent
    /// settings; the status is the fleet manager's and stays as it was.
    open spec fn written(desired: ClusterView, live: Option<ClusterView>) -> ClusterView {
        match live {
            Some(l) => ClusterView {
                metadata: merged_meta(desired.metadata, l.metadata),
                spec: ClusterSpecView {
                    template_values: Some(
                        map_or_empty(l.spec.template_values).union_prefer_right(
                            map_or_empty(desired.spec.template_values),
                        ),
                    ),
                    ..desired.spec
                },
                ..l
            },
            None => desired,
        }
    }

    proof fn lemma_meta_of_with_meta(v: ClusterView, m: ObjectMetaView) {
    }

    proof fn lemma_fields_apart_from_meta(desired: ClusterView, live: ClusterView, m: ObjectMetaView) {
    }

    proof fn lemma_written(desired: ClusterView, live: Option<ClusterView>) {
    }

    fn meta(&self) -> (m: &ObjectMeta) {
        &self.metadata
    }

    fn clear_managed_fields(&mut self) {
        self.metadata.managed_fields = None;
    }

    fn type_meta() -> (t: TypeMeta) {
        TypeMeta { api_version: text("fleet.cattle.io/v1alpha1"), kind: text("Cluster") }
    }

    fn namespaced() -> (b: bool) {
        true
    }

    fn diff(&self, live: &Self) -> (b: bool) {
        let template_values_equal = opt_submap(&self.spec.template_values, &live.spec.template_values);
        let spec_equal = template_values_equal && same_opt_text(
            &self.spec.agent_namespace,
            &live.spec.agent_namespace,
        ) && same_opt_bool(self.spec.host_network, live.spec.host_network) && same_opt_env(
            &self.spec.agent_env_vars,
            &live.spec.agent_env_vars,
        ) && same_opt_tolerations(&self.spec.agent_tolerations, &live.spec.agent_tolerations);
        if !spec_equal {
            return true;
        }
        meta_diff(&self.metadata, &live.metadata)
    }

    fn duplicate(&self) -> (r: Self) {
        Cluster {
            types: match &self.types {
                Some(t) => Some(t.duplicate()),
                None => None,
            },
            metadata: self.metadata.duplicate(),
            spec: self.spec.duplicate(),
            status: match &self.status {
                Some(s) => Some(ClusterStatus { namespace: copy_opt_text(&s.namespace) }),
                None => None,
            },
        }
    }
}

} // verus!
