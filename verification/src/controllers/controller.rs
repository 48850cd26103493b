//! The diff-patch engine: the two idempotent write primitives that every
//! controller shares. Each primitive is a handful of decisions between the
//! calls to the orchestration API; the caller makes the calls and hands the
//! outcomes in.

use crate::api::comparable::{differs, ResourceDiff};
use crate::controllers::{GetOrCreateError, PatchError};
use crate::meta::{ObjectMetaView, ObjectReference, ObjectReferenceView};
use crate::runtime::{
    publish_outcome, tolerate_forbidden, Action, Event, EventType, EventView, KubeError, ObjectKey,
    ObjectKeyView,
};
use crate::text::{joined, text};
use vstd::prelude::*;

verus! {

/// The token that blocks the deletion of a source object while downstream
/// objects may exist for it.
pub const FLEET_FINALIZER: &'static str = "fleet.addons.cluster.x-k8s.io";

/// The stable writer identity under which the operator applies its patches.
pub const FIELD_MANAGER: &'static str = "addon-provider-fleet";

/// The namespace that a request for an object goes to: none for a
/// cluster-wide kind, else the namespace of the object, `default` where it
/// names none.
pub open spec fn target_namespace<R: ResourceDiff>(v: R::V) -> Option<Seq<char>> {
    if R::is_namespaced() {
        match R::meta_of(v).namespace {
            Some(n) => Some(n),
            None => Some("default"@),
        }
    } else {
        None
    }
}

/// The identity under which an object is looked up and written.
pub open spec fn key_of<R: ResourceDiff>(v: R::V) -> ObjectKeyView {
    ObjectKeyView {
        api_version: R::kind_of().api_version,
        kind: R::kind_of().kind,
        namespace: target_namespace::<R>(v),
        name: R::meta_of(v).name_any(),
    }
}

/// The reference by which an audit event points at an object: its type, its
/// name and namespace, and its UID where it has one.
pub open spec fn reference_of<R: ResourceDiff>(v: R::V) -> ObjectReferenceView {
    ObjectReferenceView {
        api_version: Some(R::kind_of().api_version),
        kind: Some(R::kind_of().kind),
        name: R::meta_of(v).name,
        namespace: R::meta_of(v).namespace,
        uid: R::meta_of(v).uid,
    }
}

/// Computes [`key_of`].
pub fn object_key<R: ResourceDiff>(res: &R) -> (k: ObjectKey)
    ensures
        k@ == key_of::<R>(res@),
{
    let types = R::type_meta();
    let namespace = if R::namespaced() {
        match &res.meta().namespace {
            Some(n) => Some(n.clone()),
            None => Some(text("default")),
        }
    } else {
        None
    };
    ObjectKey { api_version: types.api_version, kind: types.kind, namespace, name: res.meta().name_any() }
}

/// Computes [`reference_of`].
pub fn object_ref<R: ResourceDiff>(res: &R) -> (r: ObjectReference)
    ensures
        r@ == reference_of::<R>(res@),
{
    let types = R::type_meta();
    ObjectReference {
        api_version: Some(types.api_version),
        kind: Some(types.kind),
        name: crate::text::copy_opt_text(&res.meta().name),
        namespace: crate::text::copy_opt_text(&res.meta().namespace),
        uid: crate::text::copy_opt_text(&res.meta().uid),
    }
}

/// The audit event that records the creation of an object.
pub open spec fn created_event<R: ResourceDiff>(v: R::V) -> EventView {
    let namespace = match R::meta_of(v).namespace {
        Some(n) => n,
        None => Seq::empty(),
    };
    EventView {
        type_: EventType::Normal,
        reason: "Created"@,
        note: Some(
            "Created fleet object `"@ + R::meta_of(v).name_any() + "` in `"@ + namespace + "`"@,
        ),
        action: "Creating"@,
        secondary: None,
    }
}

/// The audit event that records a patch of an object.
pub open spec fn updated_event<R: ResourceDiff>(v: R::V) -> EventView {
    let namespace = match R::meta_of(v).namespace {
        Some(n) => n,
        None => "cluster scope"@,
    };
    EventView {
        type_: EventType::Normal,
        reason: "Updated"@,
        note: Some(
            "Updated `"@ + R::kind_of().api_version + "/"@ + R::kind_of().kind + "` object `"@
                + R::meta_of(v).name_any() + "` in `"@ + namespace + "`"@,
        ),
        action: "Creating"@,
        secondary: None,
    }
}

/// What a primitive asks of its caller next.
pub enum Step<R, E> {
    /// The primitive is over, with this result.
    Finish(Result<Action, E>),
    /// Create the object, then report how that went.
    Create(R),
    /// Write the object as a server-side apply under the given writer
    /// identity, then report how that went.
    Apply { object: R, field_manager: String },
    /// Publish the audit event on the referenced object, then report how that went.
    Publish { event: Event, regarding: ObjectReference },
}

/// Get-or-create, after the lookup: an object that exists is never written;
/// one that is absent is created; a failed lookup ends the primitive.
pub open spec fn create_decision(found: Result<bool, KubeError>) -> Option<Result<Action, GetOrCreateError>> {
    match found {
        Err(e) => Some(Err(GetOrCreateError::Lookup(e))),
        Ok(true) => Some(Ok(Action::AwaitChange)),
        Ok(false) => None,
    }
}

/// The first decision of get-or-create. `found` tells whether the lookup by
/// [`key_of`] found the object.
pub fn get_or_create<R: ResourceDiff>(res: &R, found: Result<bool, KubeError>) -> (step: Step<
    R,
    GetOrCreateError,
>)
    ensures
        match create_decision(found) {
            Some(result) => step == Step::<R, GetOrCreateError>::Finish(result),
            None => step matches Step::Create(object) && object@ == res@,
        },
{
    match found {
        Err(e) => Step::Finish(Err(GetOrCreateError::Lookup(e))),
        Ok(true) => Step::Finish(Ok(Action::AwaitChange)),
        Ok(false) => Step::Create(res.duplicate()),
    }
}

/// The second decision of get-or-create, after the create call: a failure
/// ends the primitive, a success is recorded by an audit event.
pub fn get_or_create_created<R: ResourceDiff>(res: &R, created: Result<(), KubeError>) -> (step: Step<
    R,
    GetOrCreateError,
>)
    ensures
        match created {
            Err(e) => step == Step::<R, GetOrCreateError>::Finish(Err(GetOrCreateError::Create(e))),
            Ok(()) => step matches Step::Publish { event, regarding } && event@ == created_event::<R>(
                res@,
            ) && regarding@ == reference_of::<R>(res@),
        },
{
    match created {
        Err(e) => Step::Finish(Err(GetOrCreateError::Create(e))),
        Ok(()) => {
            let namespace = match &res.meta().namespace {
                Some(n) => n.clone(),
                None => String::new(),
            };
            let note = joined(
                &joined(
                    &joined(
                        &joined(&text("Created fleet object `"), &res.meta().name_any()),
                        &text("` in `"),
                    ),
                    &namespace,
                ),
                &text("`"),
            );
            Step::Publish {
                event: Event {
                    type_: EventType::Normal,
                    reason: text("Created"),
                    note: Some(note),
                    action: text("Creating"),
                    secondary: None,
                },
                regarding: object_ref(res),
            }
        },
    }
}

/// The last decision of get-or-create, after the audit event was published.
pub fn get_or_create_published(published: Result<(), KubeError>) -> (r: Result<Action, GetOrCreateError>)
    ensures
        r == match publish_outcome(published) {
            Ok(()) => Ok::<Action, GetOrCreateError>(Action::AwaitChange),
            Err(e) => Err(GetOrCreateError::Event(e)),
        },
{
    match tolerate_forbidden(published) {
        Ok(()) => Ok(Action::AwaitChange),
        Err(e) => Err(GetOrCreateError::Event(e)),
    }
}

/// The object as it is sent in a patch: without the recorded field writers.
pub open spec fn prepared<R: ResourceDiff>(v: R::V) -> R::V {
    R::with_meta(v, ObjectMetaView { managed_fields: None, ..R::meta_of(v) })
}

/// Whether patch-if-different writes: it does unless the live object exists
/// and the diff predicate finds no difference to the prepared object.
pub open spec fn write_due<R: ResourceDiff>(desired: R::V, live: Option<R::V>) -> bool {
    match live {
        Some(l) => differs::<R>(prepared::<R>(desired), l),
        None => true,
    }
}

/// The first decision of patch-if-different. `live` is the outcome of the
/// lookup by [`key_of`]. The object is prepared in place. Where no write is
/// due, the primitive ends at once, at no further cost; else the object is to
/// be applied under `field_manager`.
pub fn patch<R: ResourceDiff>(res: &mut R, live: Result<Option<R>, KubeError>, field_manager: &String) -> (step:
    Step<R, PatchError>)
    ensures
        final(res)@ == prepared::<R>(old(res)@),
        match live {
            Err(e) => step == Step::<R, PatchError>::Finish(Err(PatchError::Get(e))),
            Ok(l) => {
                let live_view = match l {
                    Some(o) => Some(o@),
                    None => None,
                };
                if write_due::<R>(old(res)@, live_view) {
                    step matches Step::Apply { object, field_manager: manager }
                        && object@ == final(res)@ && manager@ == field_manager@
                } else {
                    step == Step::<R, PatchError>::Finish(Ok(Action::AwaitChange))
                }
            },
        },
{
    res.clear_managed_fields();
    match live {
        Err(e) => Step::Finish(Err(PatchError::Get(e))),
        Ok(Some(existing)) => {
            if !res.diff(&existing) {
                Step::Finish(Ok(Action::AwaitChange))
            } else {
                Step::Apply { object: res.duplicate(), field_manager: field_manager.clone() }
            }
        },
        Ok(None) => Step::Apply { object: res.duplicate(), field_manager: field_manager.clone() },
    }
}

/// The second decision of patch-if-different, after the apply call: a failure
/// ends the primitive, a success is recorded by an audit event.
pub fn patch_applied<R: ResourceDiff>(res: &R, applied: Result<(), KubeError>) -> (step: Step<
    R,
    PatchError,
>)
    ensures
        match applied {
            Err(e) => step == Step::<R, PatchError>::Finish(Err(PatchError::Patch(e))),
            Ok(()) => step matches Step::Publish { event, regarding } && event@ == updated_event::<R>(
                res@,
            ) && regarding@ == reference_of::<R>(res@),
        },
{
    match applied {
        Err(e) => Step::Finish(Err(PatchError::Patch(e))),
        Ok(()) => {
            let types = R::type_meta();
            let namespace = match &res.meta().namespace {
                Some(n) => n.clone(),
                None => text("cluster scope"),
            };
            let mut note = text("Updated `");
            note = joined(&note, &types.api_version);
            note = joined(&note, &text("/"));
            note = joined(&note, &types.kind);
            note = joined(&note, &text("` object `"));
            note = joined(&note, &res.meta().name_any());
            note = joined(&note, &text("` in `"));
            note = joined(&note, &namespace);
            note = joined(&note, &text("`"));
            Step::Publish {
                event: Event {
                    type_: EventType::Normal,
                    reason: text("Updated"),
                    note: Some(note),
                    action: text("Creating"),
                    secondary: None,
                },
                regarding: object_ref(res),
            }
        },
    }
}

/// The last decision of patch-if-different, after the audit event was published.
pub fn patch_published(published: Result<(), KubeError>) -> (r: Result<Action, PatchError>)
    ensures
        r == match publish_outcome(published) {
            Ok(()) => Ok::<Action, PatchError>(Action::AwaitChange),
            Err(e) => Err(PatchError::Event(e)),
        },
{
    match tolerate_forbidden(published) {
        Ok(()) => Ok(Action::AwaitChange),
        Err(e) => Err(PatchError::Event(e)),
    }
}

} // verus!
