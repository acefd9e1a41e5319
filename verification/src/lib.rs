//! Bring-up and request-routing layer for a set of cryptographic service
//! front-ends that share exactly one size-bounded, synchronous transport to a
//! trusted execution environment.
//!
//! The library holds the decision logic of the bring-up protocol: bounded
//! connection retry, the shared channel's admission and mutual-exclusion
//! discipline, the optional boot-provisioning handshake, strictly ordered
//! service registration, and the overall startup state machine. The actual
//! transport, discovery registry and dispatch loop are external collaborators
//! that hand their outcomes to these functions.

pub mod channel;
pub mod errors;
pub mod exclusion;
pub mod provision;
pub mod registrar;
pub mod retry;
pub mod services;
pub mod startup;
