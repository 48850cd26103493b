//! The kinds of objects that the operator reads and writes.

pub mod bundle_namespace_mapping;
pub mod capi_cluster;
pub mod capi_clusterclass;
pub mod comparable;
pub mod fleet_addon_config;
pub mod fleet_cluster;
pub mod fleet_cluster_registration_token;
pub mod fleet_clustergroup;
pub mod label_selector;
