//! The optional boot-provisioning handshake.
//!
//! When bring-up runs in diagnostic mode, two sends go over the shared
//! channel before normal service, strictly in this order: the boot-state
//! snapshot, which is mandatory, then the attestation-identity snapshot,
//! which is best-effort. The sends themselves are exchanges on the channel;
//! this module holds the policy applied to their outcomes.

use vstd::prelude::*;
use crate::errors::{ChannelError, ProvisioningError};

verus! {

/// Result of the provisioning handshake.
#[derive(Clone, Copy, PartialEq, Eq, Structural, Debug)]
pub enum ProvisionRun {
    /// Startup proceeds. `attest_warning` records that the best-effort
    /// attestation-identity send failed and was only logged.
    Completed { attest_warning: bool },
    /// The mandatory boot-state send failed: startup aborts entirely.
    Aborted(ProvisioningError),
}

/// The provisioning policy as a function of the two send outcomes: a failed
/// boot-state send aborts startup; a failed attestation-identity send is
/// only a warning.
pub open spec fn provision_spec(
    boot_send: Result<(), ChannelError>,
    attest_send: Result<(), ChannelError>,
) -> ProvisionRun {
    match boot_send {
        Err(cause) => ProvisionRun::Aborted(ProvisioningError { cause }),
        Ok(_) => ProvisionRun::Completed { attest_warning: attest_send is Err },
    }
}

/// Decision core of the boot-provisioning handshake. The boot-state send is
/// mandatory: its failure aborts startup with that cause, and the
/// attestation-identity send never happens. The attestation-identity send is
/// best-effort: its failure leaves only a warning.
pub fn provision_outcome(
    boot_send: Result<(), ChannelError>,
    attest_send: Result<(), ChannelError>,
) -> (r: ProvisionRun)
    ensures
        r == provision_spec(boot_send, attest_send),
        boot_send is Err ==> r == ProvisionRun::Aborted(
            ProvisioningError { cause: boot_send->Err_0 },
        ),
        boot_send is Ok ==> r == (ProvisionRun::Completed { attest_warning: attest_send is Err }),
{
    match boot_send {
        Err(cause) => ProvisionRun::Aborted(ProvisioningError { cause }),
        Ok(_) => match attest_send {
            Ok(_) => ProvisionRun::Completed { attest_warning: false },
            Err(_) => ProvisionRun::Completed { attest_warning: true },
        },
    }
}

} // verus!
