//! A minimal contract factory.
//!
//! The library keeps a registry that maps a contract category to the content
//! hash of a deployable code template, together with a directory that records,
//! for each caller, the address of the instance that caller most recently
//! deployed. Creating a contract is a two-step protocol: the factory first
//! resolves which template to deploy and hands the caller a fully determined
//! instantiation request; the host performs the actual deployment; the factory
//! then records the host's outcome in the directory.

pub mod directory;
pub mod error;
pub mod factory;
pub mod ids;
pub mod laws;
pub mod registry;

pub use error::Error;
pub use factory::Balance;
pub use factory::Factory;
pub use factory::HostOutcome;
pub use factory::InstantiationRequest;
pub use ids::AccountId;
pub use ids::CodeHash;
pub use ids::InstanceHandle;
pub use registry::ContractType;
