//! The controllers and the errors of their operations. Each operation has an
//! error union of its own; all of them fall into a few coarse classes, by
//! which failures are counted.

use crate::runtime::KubeError;
use crate::text::text;
use vstd::prelude::*;

pub mod addon_config;
pub mod bundle;
pub mod cluster;
pub mod cluster_class;
pub mod cluster_group;
pub mod controller;
pub mod helm;
pub mod reconcile;
pub mod store;

verus! {

/// The coarse class of an error, by which failures are counted.
#[derive(Clone, Copy, Debug, PartialEq, Eq, Structural)]
pub enum ErrorClass {
    /// An object could not be looked up.
    Lookup,
    /// An object could not be created.
    Create,
    /// An object could not be patched or deleted.
    Patch,
    /// An audit event could not be published.
    EventPublish,
    /// A selector of the configuration is malformed.
    SelectorParse,
    /// The finalizer could not be added or removed.
    Finalizer,
    /// An object did not pass through its generic representation.
    Serialization,
    /// The package manager could not be run, or what it reported could not be read.
    Install,
}

impl ErrorClass {
    /// The label under which failures of the class are counted.
    pub open spec fn label(self) -> Seq<char> {
        match self {
            ErrorClass::Lookup => "lookup"@,
            ErrorClass::Create => "create"@,
            ErrorClass::Patch => "patch"@,
            ErrorClass::EventPublish => "event"@,
            ErrorClass::SelectorParse => "selector"@,
            ErrorClass::Finalizer => "finalizer"@,
            ErrorClass::Serialization => "serialization"@,
            ErrorClass::Install => "install"@,
        }
    }

    /// Computes [`Self::label`].
    pub fn metric_label(&self) -> (r: String)
        ensures
            r@ == self.label(),
    {
        match self {
            ErrorClass::Lookup => text("lookup"),
            ErrorClass::Create => text("create"),
            ErrorClass::Patch => text("patch"),
            ErrorClass::EventPublish => text("event"),
            ErrorClass::SelectorParse => text("selector"),
            ErrorClass::Finalizer => text("finalizer"),
            ErrorClass::Serialization => text("serialization"),
            ErrorClass::Install => text("install"),
        }
    }
}

#[derive(Debug)]
pub enum GetOrCreateError {
    Lookup(KubeError),
    Create(KubeError),
    Event(KubeError),
}

impl GetOrCreateError {
    pub open spec fn class(&self) -> ErrorClass {
        match self {
            GetOrCreateError::Lookup(_) => ErrorClass::Lookup,
            GetOrCreateError::Create(_) => ErrorClass::Create,
            GetOrCreateError::Event(_) => ErrorClass::EventPublish,
        }
    }

    pub fn error_class(&self) -> (c: ErrorClass)
        ensures
            c == self.class(),
    {
        match self {
            GetOrCreateError::Lookup(_) => ErrorClass::Lookup,
            GetOrCreateError::Create(_) => ErrorClass::Create,
            GetOrCreateError::Event(_) => ErrorClass::EventPublish,
        }
    }
}

#[derive(Debug)]
pub enum PatchError {
    Get(KubeError),
    Patch(KubeError),
    Event(KubeError),
}

impl PatchError {
    pub open spec fn class(&self) -> ErrorClass {
        match self {
            PatchError::Get(_) => ErrorClass::Lookup,
            PatchError::Patch(_) => ErrorClass::Patch,
            PatchError::Event(_) => ErrorClass::EventPublish,
        }
    }

    pub fn error_class(&self) -> (c: ErrorClass)
        ensures
            c == self.class(),
    {
        match self {
            PatchError::Get(_) => ErrorClass::Lookup,
            PatchError::Patch(_) => ErrorClass::Patch,
            PatchError::Event(_) => ErrorClass::EventPublish,
        }
    }
}

#[derive(Debug)]
pub enum LabelCheckError {
    NamespaceLookup(KubeError),
    /// A selector expression did not parse; the text says why.
    Expression(String),
}

impl LabelCheckError {
    pub open spec fn class(&self) -> ErrorClass {
        match self {
            LabelCheckError::NamespaceLookup(_) => ErrorClass::Lookup,
            LabelCheckError::Expression(_) => ErrorClass::SelectorParse,
        }
    }

    pub fn error_class(&self) -> (c: ErrorClass)
        ensures
            c == self.class(),
    {
        match self {
            LabelCheckError::NamespaceLookup(_) => ErrorClass::Lookup,
            LabelCheckError::Expression(_) => ErrorClass::SelectorParse,
        }
    }
}

#[derive(Debug)]
pub enum ClusterSyncError {
    GetOrCreateError(GetOrCreateError),
    PatchError(PatchError),
    GroupPatchError(PatchError),
    NamespacePatchError(PatchError),
    BundleNamespaceMappingError(PatchError),
    MappingLookupError(KubeError),
    /// The template values did not encode; the text says why.
    ClusterEncodeError(String),
}

impl ClusterSyncError {
    pub open spec fn class(&self) -> ErrorClass {
        match self {
            ClusterSyncError::GetOrCreateError(e) => e.class(),
            ClusterSyncError::PatchError(e) => e.class(),
            ClusterSyncError::GroupPatchError(e) => e.class(),
            ClusterSyncError::NamespacePatchError(e) => e.class(),
            ClusterSyncError::BundleNamespaceMappingError(e) => e.class(),
            ClusterSyncError::MappingLookupError(_) => ErrorClass::Lookup,
            ClusterSyncError::ClusterEncodeError(_) => ErrorClass::Serialization,
        }
    }

    pub fn error_class(&self) -> (c: ErrorClass)
        ensures
            c == self.class(),
    {
        match self {
            ClusterSyncError::GetOrCreateError(e) => e.error_class(),
            ClusterSyncError::PatchError(e) => e.error_class(),
            ClusterSyncError::GroupPatchError(e) => e.error_class(),
            ClusterSyncError::NamespacePatchError(e) => e.error_class(),
            ClusterSyncError::BundleNamespaceMappingError(e) => e.error_class(),
            ClusterSyncError::MappingLookupError(_) => ErrorClass::Lookup,
            ClusterSyncError::ClusterEncodeError(_) => ErrorClass::Serialization,
        }
    }
}

#[derive(Debug)]
pub enum GroupSyncError {
    GetOrCreateError(GetOrCreateError),
    PatchError(PatchError),
    ClassLookup(KubeError),
}

impl GroupSyncError {
    pub open spec fn class(&self) -> ErrorClass {
        match self {
            GroupSyncError::GetOrCreateError(e) => e.class(),
            GroupSyncError::PatchError(e) => e.class(),
            GroupSyncError::ClassLookup(_) => ErrorClass::Lookup,
        }
    }

    pub fn error_class(&self) -> (c: ErrorClass)
        ensures
            c == self.class(),
    {
        match self {
            GroupSyncError::GetOrCreateError(e) => e.error_class(),
            GroupSyncError::PatchError(e) => e.error_class(),
            GroupSyncError::ClassLookup(_) => ErrorClass::Lookup,
        }
    }
}

#[derive(Debug)]
pub enum SyncError {
    ClusterSync(ClusterSyncError),
    GroupSync(GroupSyncError),
    LabelCheck(LabelCheckError),
    ClusterRegistrationTokenSync(GetOrCreateError),
    BundleNsMappingDelete(KubeError),
}

impl SyncError {
    pub open spec fn class(&self) -> ErrorClass {
        match self {
            SyncError::ClusterSync(e) => e.class(),
            SyncError::GroupSync(e) => e.class(),
            SyncError::LabelCheck(e) => e.class(),
            SyncError::ClusterRegistrationTokenSync(e) => e.class(),
            SyncError::BundleNsMappingDelete(_) => ErrorClass::Patch,
        }
    }

    pub fn error_class(&self) -> (c: ErrorClass)
        ensures
            c == self.class(),
    {
        match self {
            SyncError::ClusterSync(e) => e.error_class(),
            SyncError::GroupSync(e) => e.error_class(),
            SyncError::LabelCheck(e) => e.error_class(),
            SyncError::ClusterRegistrationTokenSync(e) => e.error_class(),
            SyncError::BundleNsMappingDelete(_) => ErrorClass::Patch,
        }
    }
}

#[derive(Debug)]
pub enum BundleMappingError {
    ClusterClassLookup(KubeError),
}

#[derive(Debug)]
pub enum ConfigFetchError {
    Lookup(KubeError),
}

#[derive(Debug)]
pub enum BundleError {
    LabelCheck(LabelCheckError),
    Config(ConfigFetchError),
    Mapping(BundleMappingError),
}

impl BundleError {
    pub open spec fn class(&self) -> ErrorClass {
        match self {
            BundleError::LabelCheck(e) => e.class(),
            BundleError::Config(_) => ErrorClass::Lookup,
            BundleError::Mapping(_) => ErrorClass::Lookup,
        }
    }

    pub fn error_class(&self) -> (c: ErrorClass)
        ensures
            c == self.class(),
    {
        match self {
            BundleError::LabelCheck(e) => e.error_class(),
            BundleError::Config(_) => ErrorClass::Lookup,
            BundleError::Mapping(_) => ErrorClass::Lookup,
        }
    }
}

} // verus!
