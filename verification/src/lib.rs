//! Release bookkeeping for a cache of prebuilt `frida-server` binaries.
//!
//! The crate holds the decisions of a small download manager as functions on
//! plain values: how a release is read out of the answer of the releases API,
//! which of its assets are server binaries, under which name an asset is kept
//! in the cache, what is to be downloaded and what a batch of downloads left
//! behind, and how the latest release compares with the installed version.
//! Network, filesystem and process handling are left to the caller.

pub mod asset;
pub mod batch;
pub mod cache;
pub mod download;
pub mod fetch;
pub mod json;
pub mod status;
pub mod text;
pub mod upstream;
