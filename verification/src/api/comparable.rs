//! The diff predicate: whether a live object already holds what the desired
//! one asks for, so that a write can be skipped.

use crate::meta::{ObjectMeta, ObjectMetaView, OwnerReference, TypeMeta, TypeMetaView};
use crate::meta::{opt_submap, owner_views};
use crate::text::text;
use vstd::prelude::*;

verus! {

/// Every owner UID that `desired` names is among the owners of `live`.
pub open spec fn owners_covered(desired: ObjectMetaView, live: ObjectMetaView) -> bool {
    forall|i: int|
        0 <= i < desired.owners().len() ==> live.has_owner_uid(#[trigger] desired.owners()[i].uid)
}

/// The metadata part of the diff predicate. The live object has to hold every
/// desired label and annotation with an equal value, and every desired owner
/// UID; labels, annotations and owners that only the live object has are no
/// difference.
pub open spec fn meta_differs(desired: ObjectMetaView, live: ObjectMetaView) -> bool {
    !desired.annotation_map().submap_of(live.annotation_map()) || !desired.label_map().submap_of(
        live.label_map(),
    ) || !owners_covered(desired, live)
}

/// The metadata that the API server holds after `desired` was applied onto
/// `live`: labels and annotations are merged key by key, the desired value
/// winning; the desired owners join the live ones; the rest stays as it was.
pub open spec fn merged_meta(desired: ObjectMetaView, live: ObjectMetaView) -> ObjectMetaView {
    ObjectMetaView {
        labels: Some(live.label_map().union_prefer_right(desired.label_map())),
        annotations: Some(live.annotation_map().union_prefer_right(desired.annotation_map())),
        owner_references: Some(live.owners() + desired.owners()),
        ..live
    }
}

/// After an apply the live metadata holds all that the desired metadata asks for.
pub proof fn lemma_merged_meta_settles(desired: ObjectMetaView, live: ObjectMetaView)
    ensures
        !meta_differs(desired, merged_meta(desired, live)),
{
    let merged = merged_meta(desired, live);
    assert forall|i: int| 0 <= i < desired.owners().len() implies merged.has_owner_uid(
        #[trigger] desired.owners()[i].uid,
    ) by {
        assert(merged.owners()[live.owners().len() + i].uid == desired.owners()[i].uid);
    }
}

/// Metadata is never different from itself.
pub proof fn lemma_meta_settled_in_itself(desired: ObjectMetaView)
    ensures
        !meta_differs(desired, desired),
{
    assert forall|i: int| 0 <= i < desired.owners().len() implies desired.has_owner_uid(
        #[trigger] desired.owners()[i].uid,
    ) by {
        assert(desired.owners()[i].uid == desired.owners()[i].uid);
    }
}

/// Whether some owner reference of the list carries the UID.
fn has_owner_uid(owners: &Vec<OwnerReference>, uid: &String) -> (b: bool)
    ensures
        b == exists|i: int| 0 <= i < owners@.len() && #[trigger] owner_views(owners@)[i].uid == uid@,
{
    let mut i: usize = 0;
    while i < owners.len()
        invariant
            i <= owners@.len(),
            forall|j: int| 0 <= j < i ==> #[trigger] owner_views(owners@)[j].uid != uid@,
        decreases owners@.len() - i,
    {
        if owners[i].uid == *uid {
            assert(owner_views(owners@)[i as int].uid == uid@);
            return true;
        }
        i += 1;
    }
    false
}

/// Computes [`owners_covered`].
fn owners_are_covered(desired: &ObjectMeta, live: &ObjectMeta) -> (b: bool)
    ensures
        b == owners_covered(desired@, live@),
{
    match &desired.owner_references {
        None => true,
        Some(wanted) => {
            let mut i: usize = 0;
            while i < wanted.len()
                invariant
                    i <= wanted@.len(),
                    desired@.owners() == owner_views(wanted@),
                    forall|j: int|
                        0 <= j < i ==> live@.has_owner_uid(#[trigger] desired@.owners()[j].uid),
                decreases wanted@.len() - i,
            {
                let found = match &live.owner_references {
                    Some(have) => {
                        let f = has_owner_uid(have, &wanted[i].uid);
                        assert(live@.owners() == owner_views(have@));
                        f
                    },
                    None => false,
                };
                assert(found == live@.has_owner_uid(desired@.owners()[i as int].uid));
                if !found {
                    return false;
                }
                i += 1;
            }
            true
        },
    }
}

/// Computes [`meta_differs`].
pub fn meta_diff(desired: &ObjectMeta, live: &ObjectMeta) -> (b: bool)
    ensures
        b == meta_differs(desired@, live@),
{
    let annotations_equal = opt_submap(&desired.annotations, &live.annotations);
    let labels_equal = opt_submap(&desired.labels, &live.labels);
    let owner_references_equal = owners_are_covered(desired, live);
    !annotations_equal || !labels_equal || !owner_references_equal
}

/// What a kind of object has to offer to the diff-patch engine: its identity,
/// its type and scope, and the comparison of a desired object with its live
/// counterpart.
pub trait ResourceDiff: View + Sized {
    /// The metadata of an object.
    spec fn meta_of(v: Self::V) -> ObjectMetaView;

    /// The object with other metadata.
    spec fn with_meta(v: Self::V, m: ObjectMetaView) -> Self::V;

    /// API version and kind.
    spec fn kind_of() -> TypeMetaView;

    /// Whether objects of the kind live in a namespace.
    spec fn is_namespaced() -> bool;

    /// Whether `live` differs from `desired` on the fields of the kind's own
    /// that the operator manages. Metadata is no part of this: it is compared
    /// in the same way for every kind.
    spec fn fields_differ(desired: Self::V, live: Self::V) -> bool;

    /// What the API server holds after `desired` was written: applied onto
    /// `live` where the object existed, created as it is where it did not.
    spec fn written(desired: Self::V, live: Option<Self::V>) -> Self::V;

    /// An object with other metadata has that metadata.
    proof fn lemma_meta_of_with_meta(v: Self::V, m: ObjectMetaView)
        ensures
            Self::meta_of(Self::with_meta(v, m)) == m,
    ;

    /// The comparison of the fields of the kind's own does not look at metadata.
    proof fn lemma_fields_apart_from_meta(desired: Self::V, live: Self::V, m: ObjectMetaView)
        ensures
            Self::fields_differ(desired, Self::with_meta(live, m)) == Self::fields_differ(desired, live),
            Self::fields_differ(Self::with_meta(desired, m), live) == Self::fields_differ(desired, live),
    ;

    /// After a write the managed fields are as desired, and the metadata is
    /// the desired one merged into the live one, or the desired one itself
    /// where the object is new.
    proof fn lemma_written(desired: Self::V, live: Option<Self::V>)
        ensures
            !Self::fields_differ(desired, Self::written(desired, live)),
            Self::meta_of(Self::written(desired, live)) == match live {
                Some(l) => merged_meta(Self::meta_of(desired), Self::meta_of(l)),
                None => Self::meta_of(desired),
            },
    ;

    fn meta(&self) -> (m: &ObjectMeta)
        ensures
            m@ == Self::meta_of(self@),
    ;

    /// Forgets the recorded field writers, which a server-side apply must not carry.
    fn clear_managed_fields(&mut self)
        ensures
            final(self)@ == Self::with_meta(
                old(self)@,
                ObjectMetaView { managed_fields: None, ..Self::meta_of(old(self)@) },
            ),
    ;

    fn type_meta() -> (t: TypeMeta)
        ensures
            t@ == Self::kind_of(),
    ;

    fn namespaced() -> (b: bool)
        ensures
            b == Self::is_namespaced(),
    ;

    /// Computes the diff predicate, [`differs`].
    fn diff(&self, live: &Self) -> (b: bool)
        ensures
            b == (Self::fields_differ(self@, live@) || meta_differs(
                Self::meta_of(self@),
                Self::meta_of(live@),
            )),
    ;

    fn duplicate(&self) -> (r: Self)
        ensures
            r@ == self@,
    ;
}

/// The diff predicate: whether `live` lacks something that `desired` asks
/// for, so that a write is due. For every kind the live object has to hold
/// the desired labels, annotations and owners, and to agree with the desired
/// object on the managed fields of the kind's own. What the live object holds
/// beyond that, its status and what the API server keeps in its metadata
/// among it, is no difference.
pub open spec fn differs<R: ResourceDiff>(desired: R::V, live: R::V) -> bool {
    R::fields_differ(desired, live) || meta_differs(R::meta_of(desired), R::meta_of(live))
}

/// After a write the diff predicate finds no difference, for every kind and
/// whatever the API server held before.
pub proof fn lemma_write_settles<R: ResourceDiff>(desired: R::V, live: Option<R::V>)
    ensures
        !differs::<R>(desired, R::written(desired, live)),
{
    R::lemma_written(desired, live);
    match live {
        Some(l) => lemma_merged_meta_settles(R::meta_of(desired), R::meta_of(l)),
        None => lemma_meta_settled_in_itself(R::meta_of(desired)),
    }
}

/// A namespace of the management cluster.
pub struct Namespace {
    pub metadata: ObjectMeta,
}

pub struct NamespaceView {
    pub metadata: ObjectMetaView,
}

impl View for Namespace {
    type V = NamespaceView;

    open spec fn view(&self) -> NamespaceView {
        NamespaceView { metadata: self.metadata@ }
    }
}

impl ResourceDiff for Namespace {
    open spec fn meta_of(v: NamespaceView) -> ObjectMetaView {
        v.metadata
    }

    open spec fn with_meta(v: NamespaceView, m: ObjectMetaView) -> NamespaceView {
        NamespaceView { metadata: m }
    }

    open spec fn kind_of() -> TypeMetaView {
        TypeMetaView { api_version: "v1"@, kind: "Namespace"@ }
    }

    open spec fn is_namespaced() -> bool {
        false
    }

    /// A namespace has no fields that the operator manages beside its metadata.
    open spec fn fields_differ(desired: NamespaceView, live: NamespaceView) -> bool {
        false
    }

    open spec fn written(desired: NamespaceView, live: Option<NamespaceView>) -> NamespaceView {
        match live {
            Some(l) => NamespaceView { metadata: merged_meta(desired.metadata, l.metadata) },
            None => desired,
        }
    }

    proof fn lemma_meta_of_with_meta(v: NamespaceView, m: ObjectMetaView) {
    }

    proof fn lemma_fields_apart_from_meta(desired: NamespaceView, live: NamespaceView, m: ObjectMetaView) {
    }

    proof fn lemma_written(desired: NamespaceView, live: Option<NamespaceView>) {
    }

    fn meta(&self) -> (m: &ObjectMeta) {
        &self.metadata
    }

    fn clear_managed_fields(&mut self) {
        self.metadata.managed_fields = None;
    }

    fn type_meta() -> (t: TypeMeta) {
        TypeMeta { api_version: text("v1"), kind: text("Namespace") }
    }

    fn namespaced() -> (b: bool) {
        false
    }

    fn diff(&self, live: &Self) -> (b: bool) {
        meta_diff(&self.metadata, &live.metadata)
    }

    fn duplicate(&self) -> (r: Self) {
        Namespace { metadata: self.metadata.duplicate() }
    }
}

} // verus!
