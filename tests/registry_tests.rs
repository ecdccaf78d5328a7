use iot_registry::error::LedgerError;
use iot_registry::primitives::{hash_bytes, parse_address, Address, Hash32};
use iot_registry::registry::{DeviceRegistry, DeviceStatus, RegistryEvent};

fn addr(n: u8) -> Address {
    let mut bytes = [0u8; 20];
    bytes[19] = n;
    Address { bytes }
}

fn registry() -> DeviceRegistry {
    DeviceRegistry::new(addr(0xAA))
}

fn hex32(s: &str) -> [u8; 32] {
    let mut out = [0u8; 32];
    for i in 0..32 {
        out[i] = u8::from_str_radix(&s[2 * i..2 * i + 2], 16).unwrap();
    }
    out
}

#[test]
fn test_device_registration() {
    let mut contract = registry();
    let owner_address = addr(1);
    let _ = contract.initialize(owner_address);
    let result = contract.register_device(
        owner_address,
        100,
        "did:lcore:test-device".into(),
        "test_did_document".into(),
        "test_public_key".into(),
        "environmental_sensor".into(),
        "{}".into(),
    );
    assert!(result.is_ok(), "Device registration should succeed");
    let device_hash = hash_bytes(b"did:lcore:test-device");
    assert!(contract.is_device_registered(&device_hash));
    assert_eq!(contract.get_device_owner(&device_hash), owner_address);
}

#[test]
fn test_access_control() {
    let mut contract = registry();
    let owner_address = addr(1);
    let consumer_address = addr(2);
    let result = contract.grant_access(owner_address, consumer_address, 0);
    assert!(result.is_ok(), "Access grant should succeed");
    assert!(contract.has_access(&owner_address, &consumer_address, 1_000));
    let result = contract.revoke_access(owner_address, consumer_address);
    assert!(result.is_ok(), "Access revoke should succeed");
    assert!(!contract.has_access(&owner_address, &consumer_address, 1_000));
}

#[test]
fn keccak_of_known_input() {
    let h = hash_bytes(b"hello world");
    assert_eq!(
        h.bytes,
        hex32("47173285a8d7341e5e972fc677286384f802f8ef42a5ec5f03bbfa254cb01fad")
    );
    let empty = hash_bytes(b"");
    assert_eq!(
        empty.bytes,
        hex32("c5d2460186f7233c927e7db2dcc703c0e500b653ca82273b7bfad8045d85a470")
    );
}

#[test]
fn register_sensor_scenario() {
    let mut reg = registry();
    let a = addr(0xA);
    let r = reg.register_device(a, 7, "sensor-1".into(), "did".into(), "pk".into(), "temp".into(), "".into());
    let h = hash_bytes(b"sensor-1");
    assert_eq!(r, Ok(h));
    assert!(reg.is_device_registered(&h));
    assert_eq!(reg.get_device_owner(&h), a);
    assert_eq!(reg.total_devices(), 1);
    let d = reg.get_device(&h).unwrap();
    assert_eq!(d.device_id, b"sensor-1".to_vec());
    assert_eq!(d.device_type, b"temp".to_vec());
    assert_eq!(d.metadata, Vec::<u8>::new());
    assert_eq!(d.registered_at, 7);
    assert_eq!(d.status, DeviceStatus::Active);
    match &reg.events()[0] {
        RegistryEvent::DeviceRegistered { id_hash, owner, device_type, timestamp } => {
            assert_eq!(*id_hash, h);
            assert_eq!(*owner, a);
            assert_eq!(*device_type, b"temp".to_vec());
            assert_eq!(*timestamp, 7);
        }
        other => panic!("unexpected event {:?}", other),
    }
}

#[test]
fn second_registration_fails_for_any_caller() {
    let mut reg = registry();
    let first = reg.register_device(addr(1), 1, "dev".into(), "".into(), "".into(), "".into(), "".into());
    assert!(first.is_ok());
    for caller in [addr(1), addr(2), addr(3)] {
        let again = reg.register_device(caller, 2, "dev".into(), "".into(), "".into(), "".into(), "".into());
        assert_eq!(again, Err(LedgerError::AlreadyExists));
    }
    assert_eq!(reg.total_devices(), 1);
    assert_eq!(reg.get_device_owner(&hash_bytes(b"dev")), addr(1));
    assert_eq!(reg.events().len(), 1);
}

#[test]
fn failed_registrations_leave_count_unchanged() {
    let mut reg = registry();
    assert_eq!(
        reg.register_device(addr(1), 1, "".into(), "".into(), "".into(), "".into(), "".into()),
        Err(LedgerError::InvalidInput)
    );
    assert_eq!(
        reg.register_device(Address::zero(), 1, "x".into(), "".into(), "".into(), "".into(), "".into()),
        Err(LedgerError::InvalidInput)
    );
    assert_eq!(reg.total_devices(), 0);
    assert!(reg.register_device(addr(1), 1, "a".into(), "".into(), "".into(), "".into(), "".into()).is_ok());
    assert!(reg.register_device(addr(2), 1, "b".into(), "".into(), "".into(), "".into(), "".into()).is_ok());
    assert_eq!(reg.total_devices(), 2);
    assert!(reg.register_device(addr(2), 1, "a".into(), "".into(), "".into(), "".into(), "".into()).is_err());
    assert_eq!(reg.total_devices(), 2);
}

#[test]
fn unregistered_device_lookups() {
    let reg = registry();
    let h = hash_bytes(b"nothing");
    assert!(!reg.is_device_registered(&h));
    assert_eq!(reg.get_device_owner(&h), Address::zero());
    assert!(reg.get_device(&h).is_none());
}

#[test]
fn grant_and_revoke_scenario() {
    let mut reg = registry();
    let (a, b) = (addr(0xA), addr(0xB));
    assert_eq!(reg.grant_access(a, b, 0), Ok(()));
    assert!(reg.has_access(&a, &b, 0));
    assert!(reg.has_access(&a, &b, u64::MAX));
    assert!(!reg.has_access(&b, &a, 0));
    assert_eq!(reg.revoke_access(a, b), Ok(()));
    assert!(!reg.has_access(&a, &b, 0));
}

#[test]
fn grant_expiry_boundary_is_inclusive() {
    let mut reg = registry();
    let (a, b) = (addr(1), addr(2));
    assert_eq!(reg.grant_access(a, b, 500), Ok(()));
    assert!(reg.has_access(&a, &b, 0));
    assert!(reg.has_access(&a, &b, 499));
    assert!(reg.has_access(&a, &b, 500));
    assert!(!reg.has_access(&a, &b, 501));
    // a later grant without expiry replaces the expiring one
    assert_eq!(reg.grant_access(a, b, 0), Ok(()));
    assert!(reg.has_access(&a, &b, 10_000));
}

#[test]
fn revoke_clears_expiring_and_missing_grants() {
    let mut reg = registry();
    let (a, b, c) = (addr(1), addr(2), addr(3));
    assert_eq!(reg.grant_access(a, b, 50), Ok(()));
    assert_eq!(reg.revoke_access(a, b), Ok(()));
    assert!(!reg.has_access(&a, &b, 10));
    assert_eq!(reg.revoke_access(a, c), Ok(()));
    assert!(!reg.has_access(&a, &c, 10));
    assert_eq!(reg.events().len(), 3);
}

#[test]
fn grant_to_zero_address_is_rejected() {
    let mut reg = registry();
    assert_eq!(reg.grant_access(addr(1), Address::zero(), 0), Err(LedgerError::InvalidInput));
    assert!(reg.events().is_empty());
}

#[test]
fn admin_lifecycle() {
    let mut reg = registry();
    assert_eq!(reg.owner(), Address::zero());
    assert_eq!(reg.transfer_ownership(&addr(1), addr(2)), Err(LedgerError::Unauthorized));
    assert_eq!(reg.initialize(addr(1)), Ok(()));
    assert_eq!(reg.initialize(addr(2)), Err(LedgerError::AlreadyInitialized));
    assert_eq!(reg.owner(), addr(1));
    assert_eq!(reg.transfer_ownership(&addr(2), addr(3)), Err(LedgerError::Unauthorized));
    assert_eq!(reg.transfer_ownership(&addr(1), Address::zero()), Err(LedgerError::InvalidInput));
    assert_eq!(reg.transfer_ownership(&addr(1), addr(2)), Ok(()));
    assert_eq!(reg.owner(), addr(2));
    match reg.events().last().unwrap() {
        RegistryEvent::OwnershipTransferred { previous, next } => {
            assert_eq!(*previous, addr(1));
            assert_eq!(*next, addr(2));
        }
        other => panic!("unexpected event {:?}", other),
    }
    assert_eq!(reg.renounce_ownership(&addr(1)), Err(LedgerError::Unauthorized));
    assert_eq!(reg.renounce_ownership(&addr(2)), Ok(()));
    assert_eq!(reg.owner(), Address::zero());
    assert_eq!(reg.transfer_ownership(&addr(2), addr(3)), Err(LedgerError::Unauthorized));
    assert_eq!(reg.transfer_ownership(&Address::zero(), addr(3)), Err(LedgerError::Unauthorized));
    assert_eq!(reg.initialize(addr(4)), Err(LedgerError::AlreadyInitialized));
}

#[test]
fn revoked_device_keeps_identity() {
    let mut reg = registry();
    let h = hash_bytes(b"cam");
    assert!(reg.register_device(addr(5), 1, "cam".into(), "".into(), "".into(), "".into(), "".into()).is_ok());
    assert_eq!(reg.revoke_device(&addr(1), &h), Err(LedgerError::Unauthorized));
    assert_eq!(reg.initialize(addr(1)), Ok(()));
    assert_eq!(reg.revoke_device(&addr(1), &hash_bytes(b"other")), Err(LedgerError::NotRegistered));
    assert_eq!(reg.revoke_device(&addr(1), &h), Ok(()));
    assert!(!reg.is_device_registered(&h));
    assert_eq!(reg.get_device(&h).unwrap().status, DeviceStatus::Revoked);
    assert_eq!(reg.get_device_owner(&h), addr(5));
    assert_eq!(reg.revoke_device(&addr(1), &h), Err(LedgerError::NotRegistered));
    assert_eq!(
        reg.register_device(addr(6), 2, "cam".into(), "".into(), "".into(), "".into(), "".into()),
        Err(LedgerError::AlreadyExists)
    );
    assert_eq!(reg.total_devices(), 1);
}

const OWNER_HEX: &str = "0x00000000000000000000000000000000000000aB";

#[test]
fn delegated_registration_uses_payload_owner() {
    let mut reg = registry();
    let payload = format!(
        "{{\"device_id\":\"gw-9\",\"did_document\":\"doc\",\"public_key\":\"k1\",\"owner_address\":\"{}\"}}",
        OWNER_HEX
    );
    let r = reg.register_device_from_cartesi(42, payload.as_bytes());
    let h = hash_bytes(b"gw-9");
    assert_eq!(r, Ok(h));
    assert_eq!(reg.get_device_owner(&h), addr(0xAB));
    let d = reg.get_device(&h).unwrap();
    assert_eq!(d.did_document, b"doc".to_vec());
    assert_eq!(d.public_key, b"k1".to_vec());
    assert_eq!(d.device_type, b"iot".to_vec());
    assert_eq!(d.metadata, b"{}".to_vec());
    assert_eq!(d.registered_at, 42);
    assert_eq!(reg.total_devices(), 1);
    assert_eq!(reg.register_device_from_cartesi(43, payload.as_bytes()), Err(LedgerError::AlreadyExists));
}

#[test]
fn delegated_registration_reads_device_type() {
    let mut reg = registry();
    let payload = "\"device_id\":\"x\",\"device_type\":\"meter\",\"did_document\":\"d\",\"owner_address\":\"00000000000000000000000000000000000000ff\"";
    assert!(reg.register_device_from_cartesi(1, payload.as_bytes()).is_ok());
    let d = reg.get_device(&hash_bytes(b"x")).unwrap();
    assert_eq!(d.device_type, b"meter".to_vec());
    assert_eq!(d.public_key, Vec::<u8>::new());
    assert_eq!(d.owner, addr(0xFF));
}

#[test]
fn delegated_registration_rejects_malformed_payloads() {
    let mut reg = registry();
    let cases: Vec<Vec<u8>> = vec![
        format!("\"did_document\":\"d\",\"owner_address\":\"{}\"", OWNER_HEX).into_bytes(),
        format!("\"device_id\":\"x\",\"owner_address\":\"{}\"", OWNER_HEX).into_bytes(),
        b"\"device_id\":\"x\",\"did_document\":\"d\"".to_vec(),
        b"\"device_id\":\"x\",\"did_document\":\"d\",\"owner_address\":\"0x12\"".to_vec(),
        b"\"device_id\":\"x\",\"did_document\":\"d\",\"owner_address\":\"0xzz000000000000000000000000000000000000ab\"".to_vec(),
        format!("\"device_id\":\"x,\"did_document\":\"d\",\"owner_address\":\"{}", OWNER_HEX).into_bytes(),
        vec![0xFF, 0xFE, b'"'],
    ];
    for payload in cases {
        assert_eq!(reg.register_device_from_cartesi(1, &payload), Err(LedgerError::MalformedPayload));
    }
    assert_eq!(reg.total_devices(), 0);
    let empty_id = format!("\"device_id\":\"\",\"did_document\":\"d\",\"owner_address\":\"{}\"", OWNER_HEX);
    assert_eq!(reg.register_device_from_cartesi(1, empty_id.as_bytes()), Err(LedgerError::InvalidInput));
    let zero_owner = "\"device_id\":\"z\",\"did_document\":\"d\",\"owner_address\":\"0x0000000000000000000000000000000000000000\"";
    assert_eq!(reg.register_device_from_cartesi(1, zero_owner.as_bytes()), Err(LedgerError::InvalidInput));
}

#[test]
fn address_parsing() {
    assert_eq!(parse_address(OWNER_HEX.as_bytes()), Some(addr(0xAB)));
    assert_eq!(parse_address(b"0X00000000000000000000000000000000000000AB"), Some(addr(0xAB)));
    assert_eq!(parse_address(b"00000000000000000000000000000000000000ab"), Some(addr(0xAB)));
    let full = parse_address(b"0x0102030405060708090a0b0c0d0e0f1011121314").unwrap();
    assert_eq!(full.bytes, [1, 2, 3, 4, 5, 6, 7, 8, 9, 10, 11, 12, 13, 14, 15, 16, 17, 18, 19, 20]);
    assert_eq!(parse_address(b"0x00000000000000000000000000000000000000a"), None);
    assert_eq!(parse_address(b"0x00000000000000000000000000000000000000abc"), None);
    assert_eq!(parse_address(b"0x00000000000000000000000000000000000000ag"), None);
    assert_eq!(parse_address(b""), None);
}

#[test]
fn hash_equality_helpers() {
    let a = hash_bytes(b"a");
    let b = hash_bytes(b"b");
    assert!(a.same(&a));
    assert!(!a.same(&b));
    assert!(Hash32::zero().bytes.iter().all(|x| *x == 0));
    assert!(Address::zero().is_zero());
    assert!(!addr(1).is_zero());
}

#[test]
fn owner_device_list_keeps_registration_order() {
    let mut reg = registry();
    for (owner, id) in [(1u8, "a"), (2, "b"), (1, "c"), (1, "a")] {
        let _ = reg.register_device(addr(owner), 1, id.into(), "".into(), "".into(), "".into(), "".into());
    }
    assert_eq!(reg.get_owner_devices(&addr(1)), vec![b"a".to_vec(), b"c".to_vec()]);
    assert_eq!(reg.get_owner_devices(&addr(2)), vec![b"b".to_vec()]);
    assert!(reg.get_owner_devices(&addr(3)).is_empty());
}
