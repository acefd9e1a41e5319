//! The four logical service identities and their fixed discovery names.

use vstd::prelude::*;

verus! {

/// The four cryptographic service front-ends that share the one channel.
#[derive(Clone, Copy, PartialEq, Eq, Structural, Debug)]
pub enum ServiceKind {
    KeyMintDevice,
    RemoteProvisioning,
    SecureClock,
    SharedSecret,
}

/// Number of service fronts published during registration.
pub const SERVICE_COUNT: usize = 4;

/// The fixed order in which the service fronts are registered.
pub open spec fn service_order() -> Seq<ServiceKind> {
    seq![
        ServiceKind::KeyMintDevice,
        ServiceKind::RemoteProvisioning,
        ServiceKind::SecureClock,
        ServiceKind::SharedSecret,
    ]
}

/// The service registered at position `i` of the fixed order.
pub fn service_at(i: usize) -> (k: ServiceKind)
    requires
        i < SERVICE_COUNT,
    ensures
        k == service_order()[i as int],
{
    if i == 0 {
        ServiceKind::KeyMintDevice
    } else if i == 1 {
        ServiceKind::RemoteProvisioning
    } else if i == 2 {
        ServiceKind::SecureClock
    } else {
        ServiceKind::SharedSecret
    }
}

/// Interface part of a service's discovery name.
pub open spec fn base_name_spec(k: ServiceKind) -> Seq<char> {
    match k {
        ServiceKind::KeyMintDevice => "android.hardware.security.keymint.IKeyMintDevice"@,
        ServiceKind::RemoteProvisioning => "android.hardware.security.keymint.IRemotelyProvisionedComponent"@,
        ServiceKind::SecureClock => "android.hardware.security.secureclock.ISecureClock"@,
        ServiceKind::SharedSecret => "android.hardware.security.sharedsecret.ISharedSecret"@,
    }
}

/// Interface name under which a service front is discovered, without the
/// instance suffix.
pub fn base_name(k: ServiceKind) -> (s: &'static str)
    ensures
        s@ == base_name_spec(k),
{
    match k {
        ServiceKind::KeyMintDevice => "android.hardware.security.keymint.IKeyMintDevice",
        ServiceKind::RemoteProvisioning => "android.hardware.security.keymint.IRemotelyProvisionedComponent",
        ServiceKind::SecureClock => "android.hardware.security.secureclock.ISecureClock",
        ServiceKind::SharedSecret => "android.hardware.security.sharedsecret.ISharedSecret",
    }
}

/// The fixed instance suffix of every discovery name.
pub fn instance_name() -> (s: &'static str)
    ensures
        s@ == "default"@,
{
    "default"
}

/// Full discovery name of a service front: `<interface>/<instance>`.
pub open spec fn full_name_spec(k: ServiceKind) -> Seq<char> {
    match k {
        ServiceKind::KeyMintDevice => "android.hardware.security.keymint.IKeyMintDevice/default"@,
        ServiceKind::RemoteProvisioning => "android.hardware.security.keymint.IRemotelyProvisionedComponent/default"@,
        ServiceKind::SecureClock => "android.hardware.security.secureclock.ISecureClock/default"@,
        ServiceKind::SharedSecret => "android.hardware.security.sharedsecret.ISharedSecret/default"@,
    }
}

/// Full discovery name under which a service front is published.
pub fn full_name(k: ServiceKind) -> (s: &'static str)
    ensures
        s@ == full_name_spec(k),
{
    match k {
        ServiceKind::KeyMintDevice => "android.hardware.security.keymint.IKeyMintDevice/default",
        ServiceKind::RemoteProvisioning => {
            "android.hardware.security.keymint.IRemotelyProvisionedComponent/default"
        },
        ServiceKind::SecureClock => "android.hardware.security.secureclock.ISecureClock/default",
        ServiceKind::SharedSecret => "android.hardware.security.sharedsecret.ISharedSecret/default",
    }
}

/// Law: every full discovery name is the interface name, a slash, and the
/// fixed instance suffix.
pub proof fn lemma_full_name_format(k: ServiceKind)
    ensures
        full_name_spec(k) == base_name_spec(k) + "/"@ + "default"@,
{
    reveal_strlit("/");
    reveal_strlit("default");
    match k {
        ServiceKind::KeyMintDevice => {
            reveal_strlit("android.hardware.security.keymint.IKeyMintDevice");
            reveal_strlit("android.hardware.security.keymint.IKeyMintDevice/default");
            assert(full_name_spec(k) =~= base_name_spec(k) + "/"@ + "default"@);
        },
        ServiceKind::RemoteProvisioning => {
            reveal_strlit("android.hardware.security.keymint.IRemotelyProvisionedComponent");
            reveal_strlit(
                "android.hardware.security.keymint.IRemotelyProvisionedComponent/default",
            );
            assert(full_name_spec(k) =~= base_name_spec(k) + "/"@ + "default"@);
        },
        ServiceKind::SecureClock => {
            reveal_strlit("android.hardware.security.secureclock.ISecureClock");
            reveal_strlit("android.hardware.security.secureclock.ISecureClock/default");
            assert(full_name_spec(k) =~= base_name_spec(k) + "/"@ + "default"@);
        },
        ServiceKind::SharedSecret => {
            reveal_strlit("android.hardware.security.sharedsecret.ISharedSecret");
            reveal_strlit("android.hardware.security.sharedsecret.ISharedSecret/default");
            assert(full_name_spec(k) =~= base_name_spec(k) + "/"@ + "default"@);
        },
    }
}

/// Discovery name used to look up the one comm-service transport.
pub fn transport_service_name() -> (s: &'static str)
    ensures
        s@ == "android.keymint.trusty.commservice.ICommService/default"@,
{
    "android.keymint.trusty.commservice.ICommService/default"
}

/// Name under which the accessor for the transport service is registered.
pub fn accessor_service_name() -> (s: &'static str)
    ensures
        s@ == "android.os.IAccessor/ICommService/default"@,
{
    "android.os.IAccessor/ICommService/default"
}

} // verus!
