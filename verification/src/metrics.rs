//! The names and the labels of what the operator counts and measures.

use crate::error::Error;
use crate::text::{text, texts};
use vstd::prelude::*;

verus! {

/// The counter of reconciles.
pub const RECONCILIATIONS: &'static str = "caapf_controller_reconciliations_total";

/// The counter of failed reconciles, by object and class of error.
pub const RECONCILIATION_ERRORS: &'static str = "caapf_controller_reconciliation_errors_total";

/// The histogram of the duration of reconciles.
pub const RECONCILE_DURATION: &'static str = "caapf_controller_reconcile_duration_seconds";

/// The name under which the operator reports audit events.
pub const REPORTER: &'static str = "caapf-controller";

/// The upper bounds of the buckets of the duration histogram, in milliseconds.
pub open spec fn duration_buckets() -> Seq<u64> {
    seq![10u64, 100u64, 250u64, 500u64, 1000u64, 5000u64, 15000u64, 60000u64]
}

/// Computes [`duration_buckets`].
pub fn duration_buckets_millis() -> (r: Vec<u64>)
    ensures
        r@ == duration_buckets(),
{
    let mut r: Vec<u64> = Vec::new();
    r.push(10);
    r.push(100);
    r.push(250);
    r.push(500);
    r.push(1000);
    r.push(5000);
    r.push(15000);
    r.push(60000);
    assert(r@ =~= duration_buckets());
    r
}

/// The names of the labels of the failure counter, in their order.
pub fn failure_label_names() -> (r: Vec<String>)
    ensures
        texts(r@) == seq!["instance"@, "error"@],
{
    let mut r: Vec<String> = Vec::new();
    r.push(text("instance"));
    r.push(text("error"));
    assert(texts(r@) =~= seq!["instance"@, "error"@]);
    r
}

/// The values of the labels under which a failed reconcile of an object is
/// counted: the name of the object and the label of the class of the error.
pub fn reconcile_failure(name: &String, error: &Error) -> (r: Vec<String>)
    ensures
        texts(r@) == seq![name@, error.class().label()],
{
    let mut r: Vec<String> = Vec::new();
    r.push(name.clone());
    r.push(error.metric_label());
    assert(texts(r@) =~= seq![name@, error.class().label()]);
    r
}

} // verus!
