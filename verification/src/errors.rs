//! Error taxonomy of the bring-up layer.

use vstd::prelude::*;
use crate::services::ServiceKind;

verus! {

/// The transport could not be established after all retries; fatal at startup.
#[derive(Clone, Copy, PartialEq, Eq, Structural, Debug)]
pub struct ConnectionError {
    /// Status code reported by the final connection attempt. Earlier attempts'
    /// causes are logged as warnings but not retained.
    pub final_cause: i32,
}

/// One exchange on the shared channel failed.
#[derive(Clone, Copy, PartialEq, Eq, Structural, Debug)]
pub enum ChannelError {
    /// The request exceeded the frame-size ceiling; rejected before sending.
    Oversized,
    /// The transport reported a failure with this status code.
    Transport(i32),
    /// The channel lock was left corrupted by a previous abnormal exchange.
    LockPoisoned,
}

/// The discovery registry rejected a publish request; fatal, aborts startup.
#[derive(Clone, Copy, PartialEq, Eq, Structural, Debug)]
pub struct RegistrationError {
    /// The service whose publication was rejected.
    pub service: ServiceKind,
    /// Status code reported by the registry.
    pub code: i32,
}

/// The mandatory boot-state send of the provisioning handshake failed.
#[derive(Clone, Copy, PartialEq, Eq, Structural, Debug)]
pub struct ProvisioningError {
    /// The channel failure that made the boot-state send fail.
    pub cause: ChannelError,
}

/// A condition that aborts bring-up or ends serving; the outermost caller
/// turns it into deliberate process termination with a diagnostic.
#[derive(Clone, Copy, PartialEq, Eq, Structural, Debug)]
pub enum FatalError {
    /// No connection after all retry attempts.
    Connection(ConnectionError),
    /// The mandatory boot-state send failed.
    Provisioning(ProvisioningError),
    /// A service publication was rejected.
    Registration(RegistrationError),
    /// The topology announcement failed.
    Announcement(ChannelError),
    /// The dispatch loop returned control, which never happens in normal
    /// service.
    ServingExited,
}

} // verus!
