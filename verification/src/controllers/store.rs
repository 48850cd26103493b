//! What the diff-patch engine guarantees over the objects that the API server
//! holds. The server is modelled by a map from identity to object: a lookup
//! reads it, a create adds an entry, an apply replaces an entry by what
//! [`ResourceDiff::written`] gives.

use crate::api::comparable::{
    lemma_write_settles, merged_meta, meta_differs, owners_covered, ResourceDiff,
};
use crate::controllers::controller::{create_decision, key_of, prepared, write_due};
use crate::meta::ObjectMetaView;
use crate::runtime::ObjectKeyView;
use vstd::prelude::*;

verus! {

/// The objects of one kind that the API server holds, by identity.
pub type Store<V> = Map<ObjectKeyView, V>;

/// The object that the store holds under the identity of `v`.
pub open spec fn live_of<R: ResourceDiff>(store: Store<R::V>, v: R::V) -> Option<R::V> {
    if store.contains_key(key_of::<R>(v)) {
        Some(store[key_of::<R>(v)])
    } else {
        None
    }
}

/// The store after one get-or-create of `v`, and the number of writes made.
pub open spec fn after_get_or_create<R: ResourceDiff>(store: Store<R::V>, v: R::V) -> (Store<R::V>, nat) {
    match create_decision(Ok(store.contains_key(key_of::<R>(v)))) {
        Some(_) => (store, 0),
        None => (store.insert(key_of::<R>(v), v), 1),
    }
}

/// The store after one patch-if-different of `v`, and the number of writes made.
pub open spec fn after_patch<R: ResourceDiff>(store: Store<R::V>, v: R::V) -> (Store<R::V>, nat) {
    if write_due::<R>(v, live_of::<R>(store, v)) {
        (store.insert(key_of::<R>(v), R::written(prepared::<R>(v), live_of::<R>(store, v))), 1)
    } else {
        (store, 0)
    }
}

/// Get-or-create never writes an object that exists, and of two calls for the
/// same object, one after the other, at most the first creates it: the second
/// finds it and writes nothing.
pub proof fn lemma_create_not_duplicated<R: ResourceDiff>(store: Store<R::V>, v: R::V)
    ensures
        store.contains_key(key_of::<R>(v)) ==> after_get_or_create::<R>(store, v) == (store, 0nat),
        after_get_or_create::<R>(store, v).0.contains_key(key_of::<R>(v)),
        after_get_or_create::<R>(after_get_or_create::<R>(store, v).0, v) == (
            after_get_or_create::<R>(store, v).0,
            0nat,
        ),
        after_get_or_create::<R>(store, v).1 + after_get_or_create::<R>(
            after_get_or_create::<R>(store, v).0,
            v,
        ).1 <= 1,
{
}

/// What the API server does with a create call: it takes the object where
/// it holds none under its identity, and rejects the call where it does.
pub open spec fn server_create<R: ResourceDiff>(store: Store<R::V>, v: R::V) -> (Store<R::V>, bool) {
    if store.contains_key(key_of::<R>(v)) {
        (store, false)
    } else {
        (store.insert(key_of::<R>(v), v), true)
    }
}

/// The store after two get-or-creates for the same identity that overlap, and
/// the number of objects that were created. The first caller looks the object
/// up and creates it where it is absent. The second caller looks it up either
/// before the first one has created it (`early`) or after, and sends its own
/// create only where its lookup found nothing.
pub open spec fn after_racing_creates<R: ResourceDiff>(
    store: Store<R::V>,
    first: R::V,
    second: R::V,
    early: bool,
) -> (Store<R::V>, nat) {
    let found_by_first = store.contains_key(key_of::<R>(first));
    let found_by_second_early = store.contains_key(key_of::<R>(second));
    let after_first = if create_decision(Ok(found_by_first)) is None {
        server_create::<R>(store, first)
    } else {
        (store, false)
    };
    let found_by_second = if early {
        found_by_second_early
    } else {
        after_first.0.contains_key(key_of::<R>(second))
    };
    let after_second = if create_decision(Ok(found_by_second)) is None {
        server_create::<R>(after_first.0, second)
    } else {
        (after_first.0, false)
    };
    (
        after_second.0,
        (if after_first.1 {
            1nat
        } else {
            0nat
        }) + (if after_second.1 {
            1nat
        } else {
            0nat
        }),
    )
}

/// Existence wins. However two get-or-creates for one identity overlap, the
/// store ends up with one object under that identity: the one that was
/// there, else the one of the first caller. Exactly one object is created
/// where there was none, and none where there was one; the loser changes
/// nothing.
pub proof fn lemma_racing_creates_leave_one_object<R: ResourceDiff>(
    store: Store<R::V>,
    first: R::V,
    second: R::V,
    early: bool,
)
    requires
        key_of::<R>(first) == key_of::<R>(second),
    ensures
        after_racing_creates::<R>(store, first, second, early).0.contains_key(key_of::<R>(first)),
        store.contains_key(key_of::<R>(first)) ==> after_racing_creates::<R>(
            store,
            first,
            second,
            early,
        ) == (store, 0nat),
        !store.contains_key(key_of::<R>(first)) ==> after_racing_creates::<R>(
            store,
            first,
            second,
            early,
        ) == (store.insert(key_of::<R>(first), first), 1nat),
{
}

/// Patch-if-different is idempotent, for every kind and whatever the store
/// holds: a second patch against the state that the first one left writes
/// nothing and leaves that state as it is.
pub proof fn lemma_patch_idempotent<R: ResourceDiff>(store: Store<R::V>, v: R::V)
    ensures
        after_patch::<R>(after_patch::<R>(store, v).0, v) == (after_patch::<R>(store, v).0, 0nat),
{
    if write_due::<R>(v, live_of::<R>(store, v)) {
        lemma_write_settles::<R>(prepared::<R>(v), live_of::<R>(store, v));
    }
}

/// A patch leaves the objects under every other identity alone.
pub proof fn lemma_patch_touches_one_object<R: ResourceDiff>(
    store: Store<R::V>,
    v: R::V,
    other: ObjectKeyView,
)
    requires
        other != key_of::<R>(v),
    ensures
        after_patch::<R>(store, v).0.contains_key(other) == store.contains_key(other),
        store.contains_key(other) ==> after_patch::<R>(store, v).0[other] == store[other],
{
}

/// The metadata with one more label.
pub open spec fn with_label(m: ObjectMetaView, key: Seq<char>, value: Seq<char>) -> ObjectMetaView {
    ObjectMetaView { labels: Some(m.label_map().insert(key, value)), ..m }
}

/// A label that only the live object carries is no difference: with it and
/// without it the metadata part of the diff predicate says the same.
pub proof fn lemma_extra_live_label_is_no_difference(
    desired: ObjectMetaView,
    live: ObjectMetaView,
    key: Seq<char>,
    value: Seq<char>,
)
    requires
        !desired.label_map().contains_key(key),
    ensures
        meta_differs(desired, with_label(live, key, value)) == meta_differs(desired, live),
{
    let more = with_label(live, key, value);
    assert(more.owners() == live.owners());
    assert(owners_covered(desired, more) == owners_covered(desired, live)) by {
        assert forall|uid: Seq<char>| more.has_owner_uid(uid) == live.has_owner_uid(uid) by {}
    }
    assert(desired.label_map().submap_of(more.label_map()) == desired.label_map().submap_of(
        live.label_map(),
    )) by {
        if desired.label_map().submap_of(live.label_map()) {
            assert forall|k: Seq<char>| #[trigger]
                desired.label_map().dom().contains(k) implies more.label_map().dom().contains(k)
                && desired.label_map()[k] == more.label_map()[k] by {
                assert(live.label_map().dom().contains(k));
            }
        }
        if desired.label_map().submap_of(more.label_map()) {
            assert forall|k: Seq<char>| #[trigger]
                desired.label_map().dom().contains(k) implies live.label_map().dom().contains(k)
                && desired.label_map()[k] == live.label_map()[k] by {
                assert(more.label_map().dom().contains(k));
            }
        }
    }
}

/// A desired label that the live object lacks, or carries with another value,
/// is a difference, and the write that follows sets it to the desired value.
pub proof fn lemma_missing_label_is_written(desired: ObjectMetaView, live: ObjectMetaView, key: Seq<char>)
    requires
        desired.label_map().contains_key(key),
        !live.label_map().contains_key(key) || live.label_map()[key] != desired.label_map()[key],
    ensures
        meta_differs(desired, live),
        merged_meta(desired, live).label_map().contains_key(key),
        merged_meta(desired, live).label_map()[key] == desired.label_map()[key],
        !meta_differs(desired, merged_meta(desired, live)),
{
    assert(desired.label_map().dom().contains(key));
    crate::api::comparable::lemma_merged_meta_settles(desired, live);
}

/// The labels that a patch sends are the labels of the desired object.
pub proof fn lemma_prepared_keeps_labels<R: ResourceDiff>(v: R::V)
    ensures
        R::meta_of(prepared::<R>(v)).label_map() == R::meta_of(v).label_map(),
        R::meta_of(prepared::<R>(v)).annotation_map() == R::meta_of(v).annotation_map(),
        R::meta_of(prepared::<R>(v)).owners() == R::meta_of(v).owners(),
{
    R::lemma_meta_of_with_meta(v, ObjectMetaView { managed_fields: None, ..R::meta_of(v) });
}

/// Superset semantics, for every kind. A label that only the live object
/// carries changes nothing about whether a patch writes: where no write was
/// due without the label, none is due with it, and the live object keeps it.
pub proof fn lemma_extra_live_label_asks_for_no_write<R: ResourceDiff>(
    store: Store<R::V>,
    v: R::V,
    key: Seq<char>,
    value: Seq<char>,
)
    requires
        store.contains_key(key_of::<R>(v)),
        !R::meta_of(v).label_map().contains_key(key),
    ensures
        ({
            let live = store[key_of::<R>(v)];
            let more = R::with_meta(live, with_label(R::meta_of(live), key, value));
            let labelled = store.insert(key_of::<R>(v), more);
            &&& write_due::<R>(v, Some(more)) == write_due::<R>(v, Some(live))
            &&& !write_due::<R>(v, Some(live)) ==> after_patch::<R>(labelled, v) == (labelled, 0nat)
        }),
{
    let live = store[key_of::<R>(v)];
    let more = R::with_meta(live, with_label(R::meta_of(live), key, value));
    let desired = prepared::<R>(v);
    lemma_prepared_keeps_labels::<R>(v);
    R::lemma_meta_of_with_meta(live, with_label(R::meta_of(live), key, value));
    R::lemma_fields_apart_from_meta(desired, live, with_label(R::meta_of(live), key, value));
    lemma_extra_live_label_is_no_difference(R::meta_of(desired), R::meta_of(live), key, value);
}

/// Superset semantics, for every kind. A desired label that the live object
/// lacks, or carries with another value, asks for exactly one write: a write
/// is due, what is sent carries the label, the patch writes once, the object
/// then carries the label with the desired value, and a second patch writes
/// nothing.
pub proof fn lemma_missing_label_asks_for_one_write<R: ResourceDiff>(
    store: Store<R::V>,
    v: R::V,
    key: Seq<char>,
)
    requires
        store.contains_key(key_of::<R>(v)),
        R::meta_of(v).label_map().contains_key(key),
        !R::meta_of(store[key_of::<R>(v)]).label_map().contains_key(key) || R::meta_of(
            store[key_of::<R>(v)],
        ).label_map()[key] != R::meta_of(v).label_map()[key],
    ensures
        write_due::<R>(v, Some(store[key_of::<R>(v)])),
        R::meta_of(prepared::<R>(v)).label_map().contains_key(key),
        R::meta_of(prepared::<R>(v)).label_map()[key] == R::meta_of(v).label_map()[key],
        after_patch::<R>(store, v).1 == 1,
        R::meta_of(after_patch::<R>(store, v).0[key_of::<R>(v)]).label_map().contains_key(key),
        R::meta_of(after_patch::<R>(store, v).0[key_of::<R>(v)]).label_map()[key] == R::meta_of(
            v,
        ).label_map()[key],
        after_patch::<R>(after_patch::<R>(store, v).0, v) == (after_patch::<R>(store, v).0, 0nat),
{
    let desired = prepared::<R>(v);
    let live = store[key_of::<R>(v)];
    lemma_prepared_keeps_labels::<R>(v);
    lemma_missing_label_is_written(R::meta_of(desired), R::meta_of(live), key);
    R::lemma_written(desired, Some(live));
    lemma_patch_idempotent::<R>(store, v);
}

} // verus!
