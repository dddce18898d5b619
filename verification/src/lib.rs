//! Registry of the appchains of Octopus Network: their metadata, the votes cast
//! for them and the lifecycle that takes an appchain from registration to its
//! anchor contract, together with the roles and settings that govern it.
//!
//! The registry is a state machine. Each request carries the calling account and
//! the block time in a [`registry::CallContext`]; a request is either refused with
//! a [`registry::RegistryError`] and leaves the registry as it was, or it is
//! applied and may hand back a [`registry::RegistryAction`] (a transfer, an account
//! creation or a cross-contract call) for the host to perform.

pub mod accounts;
pub mod appchain_basedata;
pub mod deposits;
pub mod interfaces;
pub mod kv;
pub mod laws;
pub mod lifecycle;
pub mod metadata;
pub mod ownership;
pub mod registration;
pub mod registry;
pub mod roles;
pub mod status;
pub mod storage_key;
pub mod sudo;
pub mod text;
pub mod types;
pub mod upgrade;
pub mod voting;
