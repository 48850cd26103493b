//! The error of a reconcile, whatever the controller, and the coarse class by
//! which its failures are counted.

use crate::controllers::addon_config::{
    AddonConfigSyncError, DynamicWatcherError, FleetPatchError,
};
use crate::controllers::reconcile::FinalizerError;
use crate::controllers::{BundleError, ErrorClass, SyncError};
use crate::runtime::KubeError;
use vstd::prelude::*;

verus! {

/// Why a reconcile failed.
#[derive(Debug)]
pub enum Error {
    /// A reconcile under the finalizer failed.
    FinalizerError(FinalizerError),
    /// The sync of a group failed.
    SyncError(SyncError),
    /// A bundle could not be derived.
    BundleError(BundleError),
    /// The watches could not be brought in line with the configuration.
    DynamicWatcherError(DynamicWatcherError),
    /// The settings of the fleet manager could not be kept up.
    AddonConfigSyncError(AddonConfigSyncError),
    /// The charts of the fleet manager could not be installed.
    FleetPatchError(FleetPatchError),
    /// A call to the API server failed.
    KubeError(KubeError),
}

impl Error {
    /// The class of the error.
    pub open spec fn class(&self) -> ErrorClass {
        match self {
            Error::FinalizerError(e) => e.class(),
            Error::SyncError(e) => e.class(),
            Error::BundleError(e) => e.class(),
            Error::DynamicWatcherError(_) => ErrorClass::SelectorParse,
            Error::AddonConfigSyncError(e) => e.class(),
            Error::FleetPatchError(e) => e.class(),
            Error::KubeError(e) => match e {
                KubeError::Serde(_) => ErrorClass::Serialization,
                _ => ErrorClass::Lookup,
            },
        }
    }

    /// Computes [`Self::class`].
    pub fn error_class(&self) -> (c: ErrorClass)
        ensures
            c == self.class(),
    {
        match self {
            Error::FinalizerError(e) => e.error_class(),
            Error::SyncError(e) => e.error_class(),
            Error::BundleError(e) => e.error_class(),
            Error::DynamicWatcherError(_) => ErrorClass::SelectorParse,
            Error::AddonConfigSyncError(e) => e.error_class(),
            Error::FleetPatchError(e) => e.error_class(),
            Error::KubeError(e) => match e {
                KubeError::Serde(_) => ErrorClass::Serialization,
                _ => ErrorClass::Lookup,
            },
        }
    }

    /// The label under which the failure is counted: that of its class.
    pub fn metric_label(&self) -> (r: String)
        ensures
            r@ == self.class().label(),
    {
        self.error_class().metric_label()
    }
}

} // verus!
