//! Label selectors as the configuration and the downstream objects carry them.

use crate::meta::{copy_opt_map, opt_map, same_opt_map};
use crate::string_map::StringMap;
use crate::text::{copy_opt_texts, opt_texts, same_opt_texts};
use vstd::prelude::*;

verus! {

/// One requirement of a label selector: a key, an operator and the values the
/// operator compares with.
pub struct LabelSelectorRequirement {
    pub key: String,
    pub operator: String,
    pub values: Option<Vec<String>>,
}

pub struct LabelSelectorRequirementView {
    pub key: Seq<char>,
    pub operator: Seq<char>,
    pub values: Option<Seq<Seq<char>>>,
}

impl View for LabelSelectorRequirement {
    type V = LabelSelectorRequirementView;

    open spec fn view(&self) -> LabelSelectorRequirementView {
        LabelSelectorRequirementView {
            key: self.key@,
            operator: self.operator@,
            values: opt_texts(self.values),
        }
    }
}

impl LabelSelectorRequirement {
    pub fn duplicate(&self) -> (r: Self)
        ensures
            r@ == self@,
    {
        LabelSelectorRequirement {
            key: self.key.clone(),
            operator: self.operator.clone(),
            values: copy_opt_texts(&self.values),
        }
    }

    pub fn same(&self, other: &LabelSelectorRequirement) -> (b: bool)
        ensures
            b == (self@ == other@),
    {
        self.key == other.key && self.operator == other.operator && same_opt_texts(
            &self.values,
            &other.values,
        )
    }
}

/// The views of a list of requirements.
pub open spec fn requirement_views(v: Seq<LabelSelectorRequirement>) -> Seq<
    LabelSelectorRequirementView,
> {
    Seq::new(v.len(), |i: int| v[i]@)
}

/// The views of an optional list of requirements.
pub open spec fn opt_requirement_views(o: Option<Vec<LabelSelectorRequirement>>) -> Option<
    Seq<LabelSelectorRequirementView>,
> {
    match o {
        Some(v) => Some(requirement_views(v@)),
        None => None,
    }
}

/// A copy of an optional list of requirements.
pub fn copy_opt_requirements(o: &Option<Vec<LabelSelectorRequirement>>) -> (r: Option<
    Vec<LabelSelectorRequirement>,
>)
    ensures
        opt_requirement_views(r) == opt_requirement_views(*o),
{
    match o {
        None => None,
        Some(v) => {
            let mut r: Vec<LabelSelectorRequirement> = Vec::new();
            let mut i: usize = 0;
            while i < v.len()
                invariant
                    i <= v@.len(),
                    r@.len() == i,
                    forall|j: int| 0 <= j < i ==> r@[j]@ == v@[j]@,
                decreases v@.len() - i,
            {
                r.push(v[i].duplicate());
                i += 1;
            }
            assert(requirement_views(r@) =~= requirement_views(v@));
            Some(r)
        },
    }
}

/// Whether two lists hold the same requirements in the same order.
pub fn same_requirements(x: &Vec<LabelSelectorRequirement>, y: &Vec<LabelSelectorRequirement>) -> (r:
    bool)
    ensures
        r == (requirement_views(x@) == requirement_views(y@)),
{
    if x.len() != y.len() {
        assert(requirement_views(x@).len() != requirement_views(y@).len());
        return false;
    }
    let mut i: usize = 0;
    while i < x.len()
        invariant
            i <= x@.len(),
            x@.len() == y@.len(),
            forall|j: int| 0 <= j < i ==> x@[j]@ == y@[j]@,
        decreases x@.len() - i,
    {
        if !x[i].same(&y[i]) {
            assert(requirement_views(x@)[i as int] != requirement_views(y@)[i as int]);
            return false;
        }
        i += 1;
    }
    assert(requirement_views(x@) =~= requirement_views(y@));
    true
}

/// Whether two optional lists hold the same requirements in the same order.
pub fn same_opt_requirements(
    a: &Option<Vec<LabelSelectorRequirement>>,
    b: &Option<Vec<LabelSelectorRequirement>>,
) -> (r: bool)
    ensures
        r == (opt_requirement_views(*a) == opt_requirement_views(*b)),
{
    match (a, b) {
        (None, None) => true,
        (Some(x), Some(y)) => same_requirements(x, y),
        _ => false,
    }
}

/// A label selector: labels that have to be present with the given value, and
/// further requirements.
pub struct LabelSelector {
    pub match_labels: Option<StringMap>,
    pub match_expressions: Option<Vec<LabelSelectorRequirement>>,
}

pub struct LabelSelectorView {
    pub match_labels: Option<Map<Seq<char>, Seq<char>>>,
    pub match_expressions: Option<Seq<LabelSelectorRequirementView>>,
}

impl View for LabelSelector {
    type V = LabelSelectorView;

    open spec fn view(&self) -> LabelSelectorView {
        LabelSelectorView {
            match_labels: opt_map(self.match_labels),
            match_expressions: opt_requirement_views(self.match_expressions),
        }
    }
}

impl LabelSelectorView {
    /// The selector with nothing set, which selects everything.
    pub open spec fn empty() -> LabelSelectorView {
        LabelSelectorView { match_labels: None, match_expressions: None }
    }
}

impl LabelSelector {
    /// The selector with nothing set, which selects everything.
    pub fn new() -> (r: Self)
        ensures
            r@ == LabelSelectorView::empty(),
    {
        LabelSelector { match_labels: None, match_expressions: None }
    }

    pub fn duplicate(&self) -> (r: Self)
        ensures
            r@ == self@,
    {
        LabelSelector {
            match_labels: copy_opt_map(&self.match_labels),
            match_expressions: copy_opt_requirements(&self.match_expressions),
        }
    }

    pub fn same(&self, other: &LabelSelector) -> (b: bool)
        ensures
            b == (self@ == other@),
    {
        same_opt_map(&self.match_labels, &other.match_labels) && same_opt_requirements(
            &self.match_expressions,
            &other.match_expressions,
        )
    }
}

} // verus!

verus! {

/// The text that the API server takes for a label selector, or the reason why
/// the selector has none: the result of converting a label selector to the
/// typed selector of the `kube` crate and of rendering that.
pub uninterp spec fn selector_text(selector: LabelSelectorView) -> Result<Seq<char>, Seq<char>>;

/// What is wrong with a requirement, if anything: `In` and `NotIn` need
/// values, `Exists` and `DoesNotExist` need nothing, and there is no other
/// operator.
pub open spec fn requirement_fault(r: LabelSelectorRequirementView) -> Option<Seq<char>> {
    if r.operator == "In"@ || r.operator == "NotIn"@ {
        if r.values is None {
            Some("Expected values for In operator, got none"@)
        } else {
            None
        }
    } else if r.operator == "Exists"@ || r.operator == "DoesNotExist"@ {
        None
    } else {
        Some("Invalid expression operator"@)
    }
}

/// What is wrong with the first requirement of the list that is malformed.
pub open spec fn first_fault(requirements: Seq<LabelSelectorRequirementView>) -> Option<Seq<char>>
    decreases requirements.len(),
{
    if requirements.len() == 0 {
        None
    } else {
        match requirement_fault(requirements[0]) {
            Some(fault) => Some(fault),
            None => first_fault(requirements.skip(1)),
        }
    }
}

/// What is wrong with a selector, if anything: its first malformed requirement.
pub open spec fn selector_fault(selector: LabelSelectorView) -> Option<Seq<char>> {
    match selector.match_expressions {
        Some(requirements) => first_fault(requirements),
        None => None,
    }
}

/// The selector that labels, given as pairs, and requirements make up.
pub open spec fn selector_of(
    labels: Option<Vec<(String, String)>>,
    requirements: Option<Vec<LabelSelectorRequirement>>,
) -> LabelSelectorView {
    LabelSelectorView {
        match_labels: match labels {
            Some(pairs) => Some(crate::string_map::pairs_map(pairs@)),
            None => None,
        },
        match_expressions: opt_requirement_views(requirements),
    }
}

/// Converts the selector with `kube::core::Selector::try_from` and renders the
/// result with its `Display` implementation. As the source of the conversion
/// shows, it fails on the first requirement whose operator is none of `In`,
/// `NotIn`, `Exists` and `DoesNotExist`, or is `In` or `NotIn` without
/// values, and on nothing else; the error carries the reason as text. Of the
/// rendered text the contract states only its name.
#[verifier::external_body]
fn render_selector(
    labels: Option<Vec<(String, String)>>,
    requirements: &Option<Vec<LabelSelectorRequirement>>,
) -> (r: Result<String, String>)
    ensures
        match r {
            Ok(t) => selector_text(selector_of(labels, *requirements)) == Ok::<Seq<char>, Seq<char>>(
                t@,
            ) && selector_fault(selector_of(labels, *requirements)) is None,
            Err(e) => selector_text(selector_of(labels, *requirements)) == Err::<
                Seq<char>,
                Seq<char>,
            >(e@) && selector_fault(selector_of(labels, *requirements)) == Some(e@),
        },
{
    let native = k8s_openapi::apimachinery::pkg::apis::meta::v1::LabelSelector {
        match_labels: labels.map(|pairs| pairs.into_iter().collect()),
        match_expressions: requirements.as_ref().map(|v| v.iter().map(|r|
            k8s_openapi::apimachinery::pkg::apis::meta::v1::LabelSelectorRequirement {
                key: r.key.clone(),
                operator: r.operator.clone(),
                values: r.values.clone(),
            }).collect()),
    };
    match kube::core::Selector::try_from(native) {
        Ok(typed) => Ok(typed.to_string()),
        Err(e) => Err(e.0),
    }
}

impl LabelSelector {
    /// The text that the API server takes for the selector. A selector with
    /// a malformed requirement has none: the reason why the first such
    /// requirement is malformed comes back instead.
    pub fn render(&self) -> (r: Result<String, String>)
        ensures
            match r {
                Ok(t) => selector_text(self@) == Ok::<Seq<char>, Seq<char>>(t@) && selector_fault(self@)
                    is None,
                Err(e) => selector_text(self@) == Err::<Seq<char>, Seq<char>>(e@) && selector_fault(
                    self@,
                ) == Some(e@),
            },
    {
        let labels = match &self.match_labels {
            Some(m) => Some(m.to_pairs()),
            None => None,
        };
        assert(selector_of(labels, self.match_expressions) == self@);
        render_selector(labels, &self.match_expressions)
    }
}

} // verus!
