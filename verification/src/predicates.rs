//! The property by which repeated watch events for an object are told apart
//! from events that bring something new.

use crate::meta::{ObjectMeta, ObjectMetaView};
use vstd::prelude::*;

verus! {

/// The hash that `kube::runtime::predicates::generation` gives for a generation.
pub uninterp spec fn generation_hash(generation: i64) -> u64;

/// The hash that `kube::runtime::predicates::resource_version` gives for a
/// resource version.
pub uninterp spec fn resource_version_hash(resource_version: Seq<char>) -> u64;

/// Calls `kube::runtime::predicates::generation` on an object with the given
/// generation. As its source shows, the predicate gives nothing for an object
/// without a generation and else the hash of the generation alone, made with
/// the fixed-key default hasher of std.
#[verifier::external_body]
fn generation_predicate(generation: Option<i64>) -> (r: Option<u64>)
    ensures
        r == match generation {
            Some(g) => Some(generation_hash(g)),
            None => None::<u64>,
        },
{
    let mut object = k8s_openapi::api::core::v1::Namespace::default();
    object.metadata.generation = generation;
    kube::runtime::predicates::generation(&object)
}

/// Calls `kube::runtime::predicates::resource_version` on an object with the
/// given resource version. As its source shows, the predicate gives nothing
/// for an object without a resource version and else the hash of the resource
/// version alone, made with the fixed-key default hasher of std.
#[verifier::external_body]
fn resource_version_predicate(resource_version: &Option<String>) -> (r: Option<u64>)
    ensures
        r == match *resource_version {
            Some(v) => Some(resource_version_hash(v@)),
            None => None::<u64>,
        },
{
    let mut object = k8s_openapi::api::core::v1::Namespace::default();
    object.metadata.resource_version = resource_version.clone();
    kube::runtime::predicates::resource_version(&object)
}

/// What tells two states of an object apart: the generation while the object
/// lives, so that writes to its status are passed over; the resource version
/// once its deletion was asked for, so that every write is seen.
pub open spec fn generation_or_version(meta: ObjectMetaView) -> Option<u64> {
    if meta.deletion_timestamp is Some {
        match meta.resource_version {
            Some(v) => Some(resource_version_hash(v)),
            None => None,
        }
    } else {
        match meta.generation {
            Some(g) => Some(generation_hash(g)),
            None => None,
        }
    }
}

/// Computes [`generation_or_version`].
pub fn generation_with_deletion(meta: &ObjectMeta) -> (r: Option<u64>)
    ensures
        r == generation_or_version(meta@),
{
    match meta.deletion_timestamp {
        Some(_) => resource_version_predicate(&meta.resource_version),
        None => generation_predicate(meta.generation),
    }
}

} // verus!
