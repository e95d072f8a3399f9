//! Control plane for a desktop application that supervises a local "gateway"
//! server process, manages a large model file's resumable download, and
//! persists a small JSON configuration with read-modify-write safety.
//!
//! Every decision this core makes — how a download resumes, which keys a
//! config write may touch, when a second gateway may be spawned — is a
//! verified function over plain values. The unverified shell around it
//! performs the actual I/O and feeds the observed facts back in.

pub mod config;
pub mod download;
pub mod json;
pub mod paths;
pub mod probes;
pub mod resolver;
pub mod startup;
pub mod supervisor;
