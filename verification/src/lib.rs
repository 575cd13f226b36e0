//! Verified core of a cross-provider account-linking service.
//!
//! The library drives a three-step flow that links a user's account at an
//! identity provider (which displays "linked role" metadata) to their account
//! at a media-server device provider, proving along the way that the user
//! controls one specific target device. The flow is a strictly forward state
//! machine whose correlation state lives in a tamper-evident browser session;
//! it ends with an atomic, idempotent persistence step and a push of derived
//! watch-statistics metadata back to the identity provider.
//!
//! All HTTP plumbing stays outside: the orchestrator here is a pure transition
//! function from (state, upstream event) to (new state, next upstream action).

mod clock;
pub mod errors;
pub mod metadata;
pub mod orchestrator;
pub mod params;
pub mod records;
pub mod session;
pub mod store;

pub use errors::LinkError;
