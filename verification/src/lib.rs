//! Trust material for a cluster: the rules that decide how certificate
//! authorities, certificates and keys are requested, named, sealed at rest
//! and rotated. Every function here is pure or speaks to one outside
//! library; spawning the issuance engine, calling the key service and
//! touching the disk are left to the program built around this crate.

pub mod admin;
pub mod engine;
pub mod envelope;
pub mod error;
pub mod issuance;
pub mod json;
pub mod network;
pub mod orchestrator;
pub mod pki;
pub mod process;
pub mod repository;
pub mod rotation;
pub mod store;
pub mod validate;
