//! Installer core of a launcher for versioned, platform-specific release
//! bundles.
//!
//! The crate holds the decisions of the installation pipeline: which steps an
//! installation consists of and in which order, how a transfer reacts to a
//! broken stream, what progress is reported, whether a detached signature is
//! accepted, which tag a profile folder is at, and how every failure is named.
//! Reading and writing files, talking to the network and showing progress are
//! left to the caller, who performs the steps that the crate hands out.

pub mod archive;
pub mod download;
pub mod error;
pub mod install;
pub mod launch;
pub mod paths;
pub mod plan_laws;
pub mod profile;
pub mod progress;
pub mod release;
pub mod run;
pub mod signature;
