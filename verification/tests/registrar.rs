use keymint_bringup::errors::RegistrationError;
use keymint_bringup::registrar::{run_registration, PublishOutcome};
use keymint_bringup::services::{
    accessor_service_name, base_name, full_name, instance_name, service_at,
    transport_service_name, ServiceKind, SERVICE_COUNT,
};

#[test]
fn all_four_register_in_fixed_order() {
    let outcomes = vec![PublishOutcome::Accepted; 4];
    let r = run_registration(&outcomes);
    assert_eq!(r.result, Ok(()));
    assert_eq!(r.attempted, 4);
    assert_eq!(
        r.registered,
        vec![
            ServiceKind::KeyMintDevice,
            ServiceKind::RemoteProvisioning,
            ServiceKind::SecureClock,
            ServiceKind::SharedSecret,
        ]
    );
}

#[test]
fn third_rejection_keeps_first_two_and_never_attempts_fourth() {
    let outcomes = vec![
        PublishOutcome::Accepted,
        PublishOutcome::Accepted,
        PublishOutcome::Rejected(-129),
        PublishOutcome::Accepted,
    ];
    let r = run_registration(&outcomes);
    // A and B stay registered: deliberately not rolled back
    assert_eq!(
        r.registered,
        vec![ServiceKind::KeyMintDevice, ServiceKind::RemoteProvisioning]
    );
    // D is never attempted
    assert_eq!(r.attempted, 3);
    // startup reports a fatal registration error naming C
    assert_eq!(
        r.result,
        Err(RegistrationError { service: ServiceKind::SecureClock, code: -129 })
    );
}

#[test]
fn first_rejection_registers_nothing() {
    let outcomes = vec![
        PublishOutcome::Rejected(7),
        PublishOutcome::Accepted,
        PublishOutcome::Accepted,
        PublishOutcome::Accepted,
    ];
    let r = run_registration(&outcomes);
    assert!(r.registered.is_empty());
    assert_eq!(r.attempted, 1);
    assert_eq!(
        r.result,
        Err(RegistrationError { service: ServiceKind::KeyMintDevice, code: 7 })
    );
}

#[test]
fn registration_order_is_fixed() {
    assert_eq!(SERVICE_COUNT, 4);
    assert_eq!(service_at(0), ServiceKind::KeyMintDevice);
    assert_eq!(service_at(1), ServiceKind::RemoteProvisioning);
    assert_eq!(service_at(2), ServiceKind::SecureClock);
    assert_eq!(service_at(3), ServiceKind::SharedSecret);
}

#[test]
fn discovery_names_are_fixed() {
    assert_eq!(
        full_name(ServiceKind::KeyMintDevice),
        "android.hardware.security.keymint.IKeyMintDevice/default"
    );
    assert_eq!(
        full_name(ServiceKind::RemoteProvisioning),
        "android.hardware.security.keymint.IRemotelyProvisionedComponent/default"
    );
    assert_eq!(
        full_name(ServiceKind::SecureClock),
        "android.hardware.security.secureclock.ISecureClock/default"
    );
    assert_eq!(
        full_name(ServiceKind::SharedSecret),
        "android.hardware.security.sharedsecret.ISharedSecret/default"
    );
    assert_eq!(instance_name(), "default");
    for kind in [
        ServiceKind::KeyMintDevice,
        ServiceKind::RemoteProvisioning,
        ServiceKind::SecureClock,
        ServiceKind::SharedSecret,
    ] {
        assert_eq!(
            full_name(kind),
            format!("{}/{}", base_name(kind), instance_name())
        );
    }
}

#[test]
fn transport_names_are_fixed() {
    assert_eq!(
        transport_service_name(),
        "android.keymint.trusty.commservice.ICommService/default"
    );
    assert_eq!(
        accessor_service_name(),
        "android.os.IAccessor/ICommService/default"
    );
}
