//! The installation of the fleet manager with the package manager: which
//! commands are run, and when.

pub mod install;
