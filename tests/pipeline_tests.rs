use iot_registry::error::LedgerError;
use iot_registry::payload::field;
use iot_registry::pipeline::{AnalyticsConfig, IoTDataPipeline, PipelineEvent};
use iot_registry::primitives::{hash_bytes, Address, Hash32};
use iot_registry::registry::DeviceRegistry;

fn addr(n: u8) -> Address {
    let mut bytes = [0u8; 20];
    bytes[19] = n;
    Address { bytes }
}

const ADMIN: u8 = 1;
const RELAY: u8 = 2;
const REGISTRY: u8 = 3;

fn setup() -> (IoTDataPipeline, DeviceRegistry) {
    let mut p = IoTDataPipeline::new();
    assert_eq!(p.initialize(addr(ADMIN), addr(RELAY), addr(REGISTRY), 100), Ok(()));
    (p, DeviceRegistry::new(addr(REGISTRY)))
}

fn data_hash_of(payload: &[u8]) -> Hash32 {
    let mut bytes = hash_bytes(payload).bytes.to_vec();
    bytes.extend_from_slice(payload);
    hash_bytes(&bytes)
}

#[test]
fn test_basic_initialization() {
    let mut contract = IoTDataPipeline::new();
    let admin_address = addr(1);
    let rollup_address = addr(2);
    let registry_address = addr(3);
    let result = contract.initialize(admin_address, rollup_address, registry_address, 100);
    assert!(result.is_ok(), "Initialization should succeed");
    assert_eq!(contract.owner(), admin_address);
    assert_eq!(contract.total_submissions(), 0);
}

#[test]
fn test_marketplace_access_control() {
    let mut contract = IoTDataPipeline::new();
    let registry = DeviceRegistry::new(Address::zero());
    let owner_address = addr(1);
    let consumer_address = addr(2);
    let result = contract.grant_marketplace_access(owner_address, consumer_address);
    assert!(result.is_ok(), "Access grant should succeed");
    let has_access = contract.has_marketplace_access(&owner_address, &consumer_address, 0, &registry);
    assert!(has_access.unwrap(), "Consumer should have access");
    let result = contract.revoke_marketplace_access(owner_address, consumer_address);
    assert!(result.is_ok(), "Access revoke should succeed");
    let has_access = contract.has_marketplace_access(&owner_address, &consumer_address, 0, &registry);
    assert!(!has_access.unwrap(), "Consumer should not have access");
}

#[test]
fn initialize_only_once() {
    let (mut p, _) = setup();
    assert_eq!(p.initialize(addr(9), addr(9), addr(9), 1), Err(LedgerError::AlreadyInitialized));
    assert_eq!(p.owner(), addr(ADMIN));
    assert_eq!(p.rollup_contract(), addr(RELAY));
    assert_eq!(p.device_registry(), addr(REGISTRY));
    assert_eq!(p.base_fee(), 100);
    assert_eq!(p.ping(), 1);
}

#[test]
fn submit_for_unregistered_device_fails() {
    let (mut p, reg) = setup();
    let r = p.submit_cartesi_result(&addr(RELAY), 10, b"unknown-device", &reg);
    assert_eq!(r, Err(LedgerError::NotRegistered));
    assert_eq!(p.total_submissions(), 0);
    assert!(p.events().is_empty());
}

#[test]
fn submit_by_non_relay_is_unauthorized() {
    let (mut p, mut reg) = setup();
    assert!(reg.register_device(addr(7), 1, "dev".into(), "".into(), "".into(), "".into(), "".into()).is_ok());
    for caller in [addr(ADMIN), addr(REGISTRY), addr(7), Address::zero()] {
        assert_eq!(p.submit_cartesi_result(&caller, 10, b"dev", &reg), Err(LedgerError::Unauthorized));
    }
    assert_eq!(p.total_submissions(), 0);
}

#[test]
fn submit_against_wrong_registry_fails() {
    let (mut p, _) = setup();
    let mut other = DeviceRegistry::new(addr(99));
    assert!(other.register_device(addr(7), 1, "dev".into(), "".into(), "".into(), "".into(), "".into()).is_ok());
    assert_eq!(p.submit_cartesi_result(&addr(RELAY), 10, b"dev", &other), Err(LedgerError::QueryFailed));
    assert_eq!(p.total_submissions(), 0);
}

#[test]
fn accepted_submission_is_recorded() {
    let (mut p, mut reg) = setup();
    let owner = addr(7);
    assert!(reg.register_device(owner, 1, "dev".into(), "".into(), "".into(), "".into(), "".into()).is_ok());
    let device = hash_bytes(b"dev");
    let r = p.submit_cartesi_result(&addr(RELAY), 10, b"dev", &reg);
    let expected = data_hash_of(b"dev");
    assert_eq!(r, Ok(expected));
    assert_ne!(expected, device);
    assert_eq!(p.total_submissions(), 1);
    assert_eq!(p.get_device_submission_count(&device), 1);
    assert_eq!(p.get_device_submission_count(&hash_bytes(b"other")), 0);
    assert_eq!(p.get_owner_data_hashes(&owner), vec![expected]);
    assert!(p.get_owner_data_hashes(&addr(8)).is_empty());
    assert_eq!(p.get_submission_info(&expected), (device, owner, 10, true));
    assert_eq!(p.get_submission_info(&device), (Hash32::zero(), Address::zero(), 0, false));
    assert_eq!(
        p.events()[0],
        PipelineEvent::DataSubmitted { data_hash: expected, device_id_hash: device, owner, timestamp: 10 }
    );
    assert_eq!(p.submit_cartesi_result(&addr(RELAY), 20, b"dev", &reg), Ok(expected));
    assert_eq!(p.total_submissions(), 2);
    assert_eq!(p.get_device_submission_count(&device), 2);
    assert_eq!(p.get_owner_data_hashes(&owner), vec![expected, expected]);
    assert_eq!(p.get_submission_info(&expected), (device, owner, 20, true));
}

#[test]
fn submission_from_revoked_device_fails() {
    let (mut p, mut reg) = setup();
    assert_eq!(reg.initialize(addr(ADMIN)), Ok(()));
    assert!(reg.register_device(addr(7), 1, "dev".into(), "".into(), "".into(), "".into(), "".into()).is_ok());
    assert_eq!(reg.revoke_device(&addr(ADMIN), &hash_bytes(b"dev")), Ok(()));
    assert_eq!(p.submit_cartesi_result(&addr(RELAY), 10, b"dev", &reg), Err(LedgerError::NotRegistered));
}

#[test]
fn marketplace_falls_back_to_registry_grant() {
    let (mut p, mut reg) = setup();
    let (o, c) = (addr(10), addr(11));
    assert_eq!(p.has_marketplace_access(&o, &c, 5, &reg), Ok(false));
    assert_eq!(reg.grant_access(o, c, 6), Ok(()));
    assert_eq!(p.has_marketplace_access(&o, &c, 5, &reg), Ok(true));
    assert_eq!(p.has_marketplace_access(&o, &c, 7, &reg), Ok(false));
    assert_eq!(p.grant_marketplace_access(o, c), Ok(()));
    assert_eq!(p.has_marketplace_access(&o, &c, 7, &reg), Ok(true));
    let stranger = DeviceRegistry::new(addr(50));
    assert_eq!(p.has_marketplace_access(&o, &c, 7, &stranger), Ok(true));
    assert_eq!(p.has_marketplace_access(&c, &o, 7, &stranger), Err(LedgerError::QueryFailed));
    assert_eq!(p.grant_marketplace_access(o, Address::zero()), Err(LedgerError::InvalidInput));
}

#[test]
fn admin_setters_require_admin() {
    let (mut p, _) = setup();
    assert_eq!(p.set_base_fee(&addr(RELAY), 5), Err(LedgerError::Unauthorized));
    assert_eq!(p.set_rollup_contract(&addr(RELAY), addr(20)), Err(LedgerError::Unauthorized));
    assert_eq!(p.set_device_registry(&addr(RELAY), addr(20)), Err(LedgerError::Unauthorized));
    assert_eq!(p.update_analytics_config(&addr(RELAY), 1, true, 5, false), Err(LedgerError::Unauthorized));
    assert_eq!(p.base_fee(), 100);
    assert_eq!(p.set_base_fee(&addr(ADMIN), 5), Ok(()));
    assert_eq!(p.base_fee(), 5);
    assert_eq!(p.events().last(), Some(&PipelineEvent::MarketplaceConfigUpdated { base_fee: 5 }));
    assert_eq!(p.set_rollup_contract(&addr(ADMIN), addr(20)), Ok(()));
    assert_eq!(p.rollup_contract(), addr(20));
    assert_eq!(p.set_device_registry(&addr(ADMIN), addr(21)), Ok(()));
    assert_eq!(p.device_registry(), addr(21));
    assert_eq!(p.get_analytics_config(1), None);
    assert_eq!(p.update_analytics_config(&addr(ADMIN), 1, true, 5, true), Ok(()));
    assert_eq!(
        p.get_analytics_config(1),
        Some(AnalyticsConfig { enabled: true, processing_fee: 5, requires_proof_of_correctness: true })
    );
    assert_eq!(p.update_analytics_config(&addr(ADMIN), 1, false, 0, false), Ok(()));
    assert_eq!(
        p.get_analytics_config(1),
        Some(AnalyticsConfig { enabled: false, processing_fee: 0, requires_proof_of_correctness: false })
    );
}

#[test]
fn uninitialized_pipeline_rejects_admin_calls() {
    let mut p = IoTDataPipeline::new();
    assert_eq!(p.owner(), Address::zero());
    assert_eq!(p.set_base_fee(&Address::zero(), 5), Err(LedgerError::Unauthorized));
}

#[test]
fn field_extraction() {
    let text = b"{\"a\":\"1\",\"ab\":\"22\",\"a\":\"3\"}";
    assert_eq!(field(text, "a"), Some(b"1".to_vec()));
    assert_eq!(field(text, "ab"), Some(b"22".to_vec()));
    assert_eq!(field(text, "b"), None);
    assert_eq!(field(b"\"a\":\"open", "a"), None);
    assert_eq!(field(b"\"a\":\"\"", "a"), Some(Vec::new()));
}
