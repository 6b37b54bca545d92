use wink_link::bootstrap::{BootAction, BootError, BootEvent, BootPhase};
use wink_link::hotspot::{generate_hotspot, generate_wifi_name, generate_wifi_password, wifi_name_from, wifi_password_from};
use wink_link::identity::{StoredIdentity, WinkLinkDeviceInfo};
use wink_link::portal::{handle_connect, CredentialError, CredentialSlot, Credentials};

fn stored(serial: Option<&str>, owner: Option<&str>, name: Option<&str>) -> StoredIdentity {
    StoredIdentity {
        serial_number: serial.map(|s| s.to_string()),
        device_owner: owner.map(|s| s.to_string()),
        device_name: name.map(|s| s.to_string()),
    }
}

fn is_drawn_serial(s: &str) -> bool {
    match s.strip_prefix("WL") {
        Some(digits) => {
            !digits.is_empty()
                && digits.chars().all(|c| c.is_ascii_digit())
                && (digits == "0" || !digits.starts_with('0'))
                && digits.parse::<u64>().map(|n| n < u32::MAX as u64).unwrap_or(false)
        }
        None => false,
    }
}

fn hotspot() -> Credentials {
    Credentials::new("WinkLink-4242".to_string(), "Ab3dEf9h".to_string())
}

#[test]
fn stored_serial_is_kept_and_not_written() {
    let load = WinkLinkDeviceInfo::populate(stored(Some("WL123"), None, None));
    assert_eq!(load.identity.serial_number, "WL123");
    assert!(!load.store_serial);
    let again = WinkLinkDeviceInfo::populate(stored(Some("WL123"), None, None));
    assert_eq!(again.identity.serial_number, "WL123");
    assert!(!again.store_serial);
}

#[test]
fn missing_serial_is_drawn_once() {
    let first = WinkLinkDeviceInfo::populate(stored(None, None, None));
    assert!(first.store_serial);
    assert!(is_drawn_serial(&first.identity.serial_number), "{}", first.identity.serial_number);
    // The drawn serial is written back; the next load keeps it and writes nothing.
    let serial = first.identity.serial_number.clone();
    let second = WinkLinkDeviceInfo::populate(stored(Some(&serial), None, None));
    assert_eq!(second.identity.serial_number, serial);
    assert!(!second.store_serial);
}

#[test]
fn empty_stored_serial_counts_as_missing() {
    let load = WinkLinkDeviceInfo::populate(stored(Some(""), Some("o"), Some("n")));
    assert!(load.store_serial);
    assert!(is_drawn_serial(&load.identity.serial_number));
}

#[test]
fn populate_with_uses_given_draw() {
    let load = WinkLinkDeviceInfo::populate_with(stored(None, Some("me"), None), "WL7".to_string());
    assert_eq!(load.identity.serial_number, "WL7");
    assert_eq!(load.identity.device_owner, "me");
    assert_eq!(load.identity.device_name, "");
    assert!(load.store_serial);
    let load = WinkLinkDeviceInfo::populate_with(stored(Some("WL1"), None, None), "WL7".to_string());
    assert_eq!(load.identity.serial_number, "WL1");
    assert!(!load.store_serial);
}

#[test]
fn serial_from_writes_decimal() {
    assert_eq!(WinkLinkDeviceInfo::serial_from(0), "WL0");
    assert_eq!(WinkLinkDeviceInfo::serial_from(7), "WL7");
    assert_eq!(WinkLinkDeviceInfo::serial_from(1234567), "WL1234567");
    assert_eq!(WinkLinkDeviceInfo::serial_from(u32::MAX - 1), "WL4294967294");
}

#[test]
fn generated_serials_have_the_prefix() {
    for _ in 0..50 {
        let s = WinkLinkDeviceInfo::generate_new_serial();
        assert!(is_drawn_serial(&s), "{}", s);
    }
}

#[test]
fn provisioned_needs_owner_and_name() {
    let i = WinkLinkDeviceInfo::new("WL1".into(), "o".into(), "n".into());
    assert!(i.is_provisioned());
    let i = WinkLinkDeviceInfo::new("WL1".into(), "".into(), "n".into());
    assert!(!i.is_provisioned());
    let i = WinkLinkDeviceInfo::new("WL1".into(), "o".into(), "".into());
    assert!(!i.is_provisioned());
}

#[test]
fn hotspot_name_and_password() {
    assert_eq!(wifi_name_from(1000), "WinkLink-1000");
    assert_eq!(wifi_name_from(9998), "WinkLink-9998");
    assert_eq!(wifi_password_from(&vec![0, 25, 26, 51, 52, 61, 1, 27]), "AZaz09Bb");
    for _ in 0..50 {
        let name = generate_wifi_name();
        let n: u32 = name.strip_prefix("WinkLink-").unwrap().parse().unwrap();
        assert!((1000..9999).contains(&n));
        let pw = generate_wifi_password();
        assert_eq!(pw.len(), 8);
        assert!(pw.chars().all(|c| c.is_ascii_alphanumeric()));
    }
    let h = generate_hotspot();
    assert!(h.ssid.starts_with("WinkLink-"));
    assert_eq!(h.password.len(), 8);
}

fn step(phase: BootPhase, event: BootEvent) -> (BootPhase, BootAction) {
    phase.step_with(event, hotspot())
}

#[test]
fn incomplete_identity_enters_setup() {
    for (owner, name) in [(None, None), (Some("o"), None), (None, Some("n")), (Some(""), Some("n")), (Some("o"), Some(""))] {
        let load = WinkLinkDeviceInfo::populate(stored(Some("WL5"), owner, name));
        let (_, action) = step(BootPhase::new(), BootEvent::IdentityLoaded(load));
        assert!(matches!(action, BootAction::ScanNetworks), "{:?}", action);
    }
}

#[test]
fn complete_identity_skips_setup() {
    let load = WinkLinkDeviceInfo::populate(stored(Some("WL5"), Some("o"), Some("n")));
    let (phase, action) = step(BootPhase::new(), BootEvent::IdentityLoaded(load));
    assert!(matches!(phase, BootPhase::Done));
    match action {
        BootAction::Ready(i) => {
            assert_eq!(i.serial_number, "WL5");
            assert_eq!(i.device_owner, "o");
            assert_eq!(i.device_name, "n");
        }
        other => panic!("{:?}", other),
    }
}

#[test]
fn fresh_device_end_to_end() {
    // Fresh device: nothing stored.
    let load = WinkLinkDeviceInfo::populate(stored(None, None, None));
    let serial = load.identity.serial_number.clone();
    assert!(is_drawn_serial(&serial));
    let (phase, action) = BootPhase::new().step(BootEvent::IdentityLoaded(load));
    match &action {
        BootAction::StoreSerial(s) => assert_eq!(s, &serial),
        other => panic!("{:?}", other),
    }
    let (phase, action) = phase.step(BootEvent::SerialStored(true));
    assert!(matches!(action, BootAction::ScanNetworks));
    let (phase, action) = phase.step(BootEvent::ScanFinished);
    let ap = match action {
        BootAction::OpenPortal(c) => c,
        other => panic!("{:?}", other),
    };
    assert!(ap.ssid.starts_with("WinkLink-"));
    assert_eq!(ap.password.len(), 8);
    let (mut phase, action) = phase.step(BootEvent::PortalOpened(true));
    assert!(matches!(action, BootAction::PollSlot));
    // Nothing submitted yet: keep polling.
    let mut slot = CredentialSlot::new();
    for _ in 0..3 {
        let (p, a) = phase.step(BootEvent::SlotPolled(slot.take()));
        assert!(matches!(a, BootAction::PollSlot));
        phase = p;
    }
    assert_eq!(handle_connect(&mut slot, "s=MyWifi&p=secret123"), Ok(()));
    let (phase, action) = phase.step(BootEvent::SlotPolled(slot.take()));
    match &action {
        BootAction::JoinNetwork(c) => {
            assert_eq!(c.ssid, "MyWifi");
            assert_eq!(c.password, "secret123");
        }
        other => panic!("{:?}", other),
    }
    let (phase, action) = phase.step(BootEvent::NetworkJoined(true));
    match &action {
        BootAction::StoreOwnership { owner, name } => {
            assert_eq!(owner, "MyWifi");
            assert_eq!(name, &ap.ssid);
        }
        other => panic!("{:?}", other),
    }
    let (phase, action) = phase.step(BootEvent::OwnershipStored(true));
    assert!(matches!(phase, BootPhase::Done));
    let done = match action {
        BootAction::RestartAfterSetup(i) => i,
        other => panic!("{:?}", other),
    };
    assert_eq!(done.serial_number, serial);
    assert!(done.is_provisioned());
    // Repeat boot with all three fields stored: straight to success.
    let load = WinkLinkDeviceInfo::populate(stored(Some(&serial), Some(&done.device_owner), Some(&done.device_name)));
    assert!(!load.store_serial);
    let (phase, action) = BootPhase::new().step(BootEvent::IdentityLoaded(load));
    assert!(matches!(phase, BootPhase::Done));
    assert!(matches!(action, BootAction::Ready(_)));
}

#[test]
fn invalid_polled_credentials_are_rejected_and_polling_goes_on() {
    let phase = BootPhase::AwaitingCredentials {
        identity: WinkLinkDeviceInfo::new("WL1".into(), "".into(), "".into()),
        hotspot: hotspot(),
    };
    let (phase, action) = step(phase, BootEvent::SlotPolled(Some(Credentials::new("a".repeat(33), "x".into()))));
    assert!(matches!(action, BootAction::RejectCredentials(CredentialError::SsidTooLong)));
    assert!(matches!(phase, BootPhase::AwaitingCredentials { .. }));
    let (phase, action) = step(phase, BootEvent::SlotPolled(Some(Credentials::new("".into(), "x".into()))));
    assert!(matches!(action, BootAction::RejectCredentials(CredentialError::SsidEmpty)));
    let (_, action) = step(phase, BootEvent::SlotPolled(Some(Credentials::new("n".into(), "p".repeat(65)))));
    assert!(matches!(action, BootAction::RejectCredentials(CredentialError::PasswordTooLong)));
}

#[test]
fn failures_escalate() {
    let (phase, action) = step(BootPhase::new(), BootEvent::StorageUnavailable);
    assert!(matches!(action, BootAction::Escalate(BootError::StorageUnavailable)));
    let (_, action) = step(phase, BootEvent::ScanFinished);
    assert!(matches!(action, BootAction::Nothing));

    let load = WinkLinkDeviceInfo::populate_with(stored(None, None, None), "WL9".into());
    let (phase, _) = step(BootPhase::new(), BootEvent::IdentityLoaded(load));
    let (_, action) = step(phase, BootEvent::SerialStored(false));
    assert!(matches!(action, BootAction::Escalate(BootError::SerialNotStored)));

    let id = || WinkLinkDeviceInfo::new("WL1".into(), "".into(), "".into());
    let (_, action) = step(BootPhase::OpeningPortal { identity: id(), hotspot: hotspot() }, BootEvent::PortalOpened(false));
    assert!(matches!(action, BootAction::Escalate(BootError::PortalFailed)));
    let (_, action) = step(
        BootPhase::Joining { identity: id(), hotspot: hotspot(), network: Credentials::new("n".into(), "p".into()) },
        BootEvent::NetworkJoined(false),
    );
    assert!(matches!(action, BootAction::Escalate(BootError::JoinFailed)));
    let (_, action) = step(BootPhase::StoringOwnership { identity: id() }, BootEvent::OwnershipStored(false));
    assert!(matches!(action, BootAction::Escalate(BootError::OwnershipNotStored)));
    let (phase, action) = step(BootPhase::Scanning { identity: id() }, BootEvent::NetworkJoined(true));
    assert!(matches!(phase, BootPhase::Failed));
    assert!(matches!(action, BootAction::Escalate(BootError::UnexpectedEvent)));
}
