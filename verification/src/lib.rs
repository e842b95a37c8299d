//! An access-controlled registry of current holders: a caller who proves
//! their identity assigns or revokes the single holder of a named item, and
//! anyone may ask who holds it.
//!
//! The records live in the instance storage of the contract that a Soroban
//! environment is running. The library asks the host for an answer where the
//! SDK's `require_auth` would abort, and for that it reaches the host through
//! `Env::host`, which the SDK offers with its `testutils` feature only: it is
//! built against the native host, and a contract compiled for the ledger
//! cannot link it.

pub mod host;
pub mod laws;
pub mod model;
pub mod registry;

pub use registry::{DefinitionContract, RegistryError};
