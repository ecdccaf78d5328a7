//! The identity registry: device records, their owners, and per-owner access
//! grants with optional expiry.
use vstd::prelude::*;
use vstd::string::*;
use vstd::utf8::encode_utf8;
use crate::access::{access_live, grant_state, AccessTable};
use crate::admin::AdminState;
use crate::error::LedgerError;
use crate::payload::{delegated_fields, parse_delegated};
use crate::primitives::{all_zero, hash_bytes, hash_result, keccak_of, zero_address, Address, Hash32};

verus! {

/// Where a registered device stands.
#[derive(Clone, Copy, Debug, PartialEq, Eq, Structural)]
pub enum DeviceStatus {
    /// Registered and in service.
    Active,
    /// Taken out of service by the admin; its identity stays taken.
    Revoked,
}

/// A registered device. Its identity hash and owner never change.
#[derive(Debug)]
pub struct Device {
    pub id_hash: Hash32,
    pub device_id: Vec<u8>,
    pub owner: Address,
    pub did_document: Vec<u8>,
    pub public_key: Vec<u8>,
    pub device_type: Vec<u8>,
    pub metadata: Vec<u8>,
    pub registered_at: u64,
    pub status: DeviceStatus,
}

/// A device as plain byte strings.
pub struct DeviceView {
    pub id_hash: Seq<u8>,
    pub device_id: Seq<u8>,
    pub owner: Seq<u8>,
    pub did_document: Seq<u8>,
    pub public_key: Seq<u8>,
    pub device_type: Seq<u8>,
    pub metadata: Seq<u8>,
    pub registered_at: u64,
    pub status: DeviceStatus,
}

impl View for Device {
    type V = DeviceView;

    open spec fn view(&self) -> DeviceView {
        DeviceView {
            id_hash: self.id_hash@,
            device_id: self.device_id@,
            owner: self.owner@,
            did_document: self.did_document@,
            public_key: self.public_key@,
            device_type: self.device_type@,
            metadata: self.metadata@,
            registered_at: self.registered_at,
            status: self.status,
        }
    }
}

/// An entry of the registry's audit log.
#[derive(Debug)]
pub enum RegistryEvent {
    DeviceRegistered { id_hash: Hash32, owner: Address, device_type: Vec<u8>, timestamp: u64 },
    DeviceRevoked { id_hash: Hash32 },
    AccessGranted { owner: Address, consumer: Address, expires_at: u64 },
    AccessRevoked { owner: Address, consumer: Address },
    OwnershipTransferred { previous: Address, next: Address },
}

/// An audit log entry as plain byte strings.
pub enum RegistryEventView {
    DeviceRegistered { id_hash: Seq<u8>, owner: Seq<u8>, device_type: Seq<u8>, timestamp: u64 },
    DeviceRevoked { id_hash: Seq<u8> },
    AccessGranted { owner: Seq<u8>, consumer: Seq<u8>, expires_at: u64 },
    AccessRevoked { owner: Seq<u8>, consumer: Seq<u8> },
    OwnershipTransferred { previous: Seq<u8>, next: Seq<u8> },
}

impl View for RegistryEvent {
    type V = RegistryEventView;

    open spec fn view(&self) -> RegistryEventView {
        match self {
            RegistryEvent::DeviceRegistered { id_hash, owner, device_type, timestamp } => {
                RegistryEventView::DeviceRegistered {
                    id_hash: id_hash@,
                    owner: owner@,
                    device_type: device_type@,
                    timestamp: *timestamp,
                }
            },
            RegistryEvent::DeviceRevoked { id_hash } => RegistryEventView::DeviceRevoked {
                id_hash: id_hash@,
            },
            RegistryEvent::AccessGranted { owner, consumer, expires_at } => {
                RegistryEventView::AccessGranted {
                    owner: owner@,
                    consumer: consumer@,
                    expires_at: *expires_at,
                }
            },
            RegistryEvent::AccessRevoked { owner, consumer } => RegistryEventView::AccessRevoked {
                owner: owner@,
                consumer: consumer@,
            },
            RegistryEvent::OwnershipTransferred { previous, next } => {
                RegistryEventView::OwnershipTransferred { previous: previous@, next: next@ }
            },
        }
    }
}

/// The registry's abstract state.
pub struct RegistryView {
    /// The address at which the registry answers queries.
    pub address: Seq<u8>,
    pub admin: AdminState,
    /// Devices in order of registration.
    pub devices: Seq<DeviceView>,
    /// (owner, consumer) to (active, expires_at).
    pub grants: Map<(Seq<u8>, Seq<u8>), (bool, u64)>,
    pub total_devices: nat,
    pub events: Seq<RegistryEventView>,
}

/// Some device of `devs` has identity `h`.
pub open spec fn id_taken(devs: Seq<DeviceView>, h: Seq<u8>) -> bool {
    exists|i: int| 0 <= i < devs.len() && devs[i].id_hash == h
}

/// The device of `devs` with identity `h`.
pub open spec fn device_with(devs: Seq<DeviceView>, h: Seq<u8>) -> DeviceView {
    devs[choose|i: int| 0 <= i < devs.len() && devs[i].id_hash == h]
}

/// No two devices of `devs` share an identity.
pub open spec fn ids_unique(devs: Seq<DeviceView>) -> bool {
    forall|i: int, j: int|
        0 <= i < devs.len() && 0 <= j < devs.len() && devs[i].id_hash == devs[j].id_hash ==> i == j
}

/// The identifiers of the devices of `owner`, in order of registration.
pub open spec fn owner_devices(devs: Seq<DeviceView>, owner: Seq<u8>) -> Seq<Seq<u8>>
    decreases devs.len(),
{
    if devs.len() == 0 {
        Seq::empty()
    } else {
        let prev = owner_devices(devs.drop_last(), owner);
        if devs.last().owner == owner {
            prev.push(devs.last().device_id)
        } else {
            prev
        }
    }
}

/// The bytes of the metadata of a delegated registration, `{}`.
pub open spec fn empty_metadata() -> Seq<u8> {
    seq![123u8, 125u8]
}

impl RegistryView {
    /// A device with identity `h` exists, in any status.
    pub open spec fn taken(self, h: Seq<u8>) -> bool {
        id_taken(self.devices, h)
    }

    /// A device with identity `h` exists and is in service.
    pub open spec fn registered(self, h: Seq<u8>) -> bool {
        self.taken(h) && device_with(self.devices, h).status == DeviceStatus::Active
    }

    /// The owner of device `h`, or the zero address if there is none.
    pub open spec fn owner_of(self, h: Seq<u8>) -> Seq<u8> {
        if self.taken(h) {
            device_with(self.devices, h).owner
        } else {
            zero_address()
        }
    }

    /// `consumer` may read `owner`'s data at time `now`.
    pub open spec fn access(self, owner: Seq<u8>, consumer: Seq<u8>, now: u64) -> bool {
        access_live(grant_state(self.grants, owner, consumer), now)
    }

    /// What registering `device_id` (as bytes) for `owner` returns.
    pub open spec fn register_result(self, device_id: Seq<u8>, owner: Seq<u8>) -> Result<
        Seq<u8>,
        LedgerError,
    > {
        if device_id.len() == 0 {
            Err(LedgerError::InvalidInput)
        } else if self.taken(keccak_of(device_id)) {
            Err(LedgerError::AlreadyExists)
        } else if all_zero(owner) {
            Err(LedgerError::InvalidInput)
        } else {
            Ok(keccak_of(device_id))
        }
    }

    /// `post` is `self` with `d` added as a newly registered device.
    pub open spec fn registered_as(self, post: RegistryView, d: DeviceView) -> bool {
        &&& post.devices == self.devices.push(d)
        &&& post.total_devices == self.total_devices + 1
        &&& post.events == self.events.push(
            RegistryEventView::DeviceRegistered {
                id_hash: d.id_hash,
                owner: d.owner,
                device_type: d.device_type,
                timestamp: d.registered_at,
            },
        )
        &&& post.address == self.address
        &&& post.admin == self.admin
        &&& post.grants == self.grants
    }

    /// `post` is `self` after `owner` set the grant to `consumer` to
    /// (`active`, `expires_at`), logging `event`.
    pub open spec fn granted_as(
        self,
        post: RegistryView,
        owner: Seq<u8>,
        consumer: Seq<u8>,
        state: (bool, u64),
        event: RegistryEventView,
    ) -> bool {
        &&& post.grants == self.grants.insert((owner, consumer), state)
        &&& post.events == self.events.push(event)
        &&& post.devices == self.devices
        &&& post.total_devices == self.total_devices
        &&& post.address == self.address
        &&& post.admin == self.admin
    }
}

/// The identity registry.
pub struct DeviceRegistry {
    address: Address,
    admin: AdminState,
    devices: Vec<Device>,
    grants: AccessTable,
    total_devices: usize,
    events: Vec<RegistryEvent>,
}

impl View for DeviceRegistry {
    type V = RegistryView;

    closed spec fn view(&self) -> RegistryView {
        RegistryView {
            address: self.address@,
            admin: self.admin,
            devices: self.devices@.map_values(|d: Device| d@),
            grants: self.grants@,
            total_devices: self.total_devices as nat,
            events: self.events@.map_values(|e: RegistryEvent| e@),
        }
    }
}

impl DeviceRegistry {
    /// The registry's internal invariant.
    pub closed spec fn wf(&self) -> bool {
        &&& self.grants.wf()
        &&& ids_unique(self@.devices)
        &&& self.total_devices == self.devices@.len()
        &&& forall|i: int| 0 <= i < self.devices@.len() ==> !all_zero(#[trigger] self.devices@[i].owner@)
    }

    /// An empty registry answering at `address`, with no admin yet.
    pub fn new(address: Address) -> (r: DeviceRegistry)
        ensures
            r.wf(),
            r@.address == address@,
            r@.admin == AdminState::Uninitialized,
            r@.devices == Seq::<DeviceView>::empty(),
            r@.grants == Map::<(Seq<u8>, Seq<u8>), (bool, u64)>::empty(),
            r@.total_devices == 0,
            r@.events == Seq::<RegistryEventView>::empty(),
    {
        let r = DeviceRegistry {
            address,
            admin: AdminState::new(),
            devices: Vec::new(),
            grants: AccessTable::new(),
            total_devices: 0,
            events: Vec::new(),
        };
        assert(r@.devices =~= Seq::<DeviceView>::empty());
        assert(r@.events =~= Seq::<RegistryEventView>::empty());
        r
    }

    /// The address at which the registry answers queries.
    pub fn address(&self) -> (r: Address)
        ensures
            r@ == self@.address,
    {
        self.address
    }

    fn find_device(&self, h: &Hash32) -> (r: Option<usize>)
        requires
            self.wf(),
        ensures
            r matches Some(i) ==> i < self.devices@.len() && self.devices@[i as int].id_hash@
                == h@ && self@.taken(h@) && device_with(self@.devices, h@) == self.devices@[i as int]@,
            r is None ==> !self@.taken(h@),
    {
        let ghost devs = self@.devices;
        let mut i: usize = 0;
        while i < self.devices.len()
            invariant
                devs == self@.devices,
                ids_unique(devs),
                devs.len() == self.devices@.len(),
                0 <= i <= self.devices@.len(),
                forall|j: int| 0 <= j < i ==> #[trigger] devs[j].id_hash != h@,
            decreases self.devices@.len() - i,
        {
            assert(devs[i as int] == self.devices@[i as int]@);
            if self.devices[i].id_hash.same(h) {
                proof {
                    assert(devs[i as int].id_hash == h@);
                    assert(id_taken(devs, h@));
                    let c = choose|j: int| 0 <= j < devs.len() && devs[j].id_hash == h@;
                    assert(ids_unique(devs));
                    assert(devs[c].id_hash == devs[i as int].id_hash);
                    assert(c == i);
                }
                return Some(i);
            }
            i = i + 1;
        }
        None
    }

    /// Adds a device after the checks that every registration shares.
    fn insert_device(
        &mut self,
        now: u64,
        device_id: Vec<u8>,
        owner: Address,
        did_document: Vec<u8>,
        public_key: Vec<u8>,
        device_type: Vec<u8>,
        metadata: Vec<u8>,
    ) -> (r: Result<Hash32, LedgerError>)
        requires
            old(self).wf(),
        ensures
            final(self).wf(),
            hash_result(r) == old(self)@.register_result(device_id@, owner@),
            r is Err ==> final(self)@ == old(self)@,
            r is Ok ==> old(self)@.registered_as(
                final(self)@,
                DeviceView {
                    id_hash: keccak_of(device_id@),
                    device_id: device_id@,
                    owner: owner@,
                    did_document: did_document@,
                    public_key: public_key@,
                    device_type: device_type@,
                    metadata: metadata@,
                    registered_at: now,
                    status: DeviceStatus::Active,
                },
            ),
    {
        if device_id.len() == 0 {
            return Err(LedgerError::InvalidInput);
        }
        let id_hash = hash_bytes(device_id.as_slice());
        if self.find_device(&id_hash).is_some() {
            return Err(LedgerError::AlreadyExists);
        }
        if owner.is_zero() {
            return Err(LedgerError::InvalidInput);
        }
        let ghost pre = self@;
        let event = RegistryEvent::DeviceRegistered {
            id_hash,
            owner,
            device_type: copy_bytes(&device_type),
            timestamp: now,
        };
        let device = Device {
            id_hash,
            device_id,
            owner,
            did_document,
            public_key,
            device_type,
            metadata,
            registered_at: now,
            status: DeviceStatus::Active,
        };
        let ghost dv = device@;
        self.devices.push(device);
        self.total_devices = self.devices.len();
        self.events.push(event);
        proof {
            assert(self@.devices =~= pre.devices.push(dv));
            assert(self@.events =~= pre.events.push(event@));
            let n = pre.devices.len() as int;
            assert forall|a: int, b: int|
                0 <= a < self@.devices.len() && 0 <= b < self@.devices.len()
                    && self@.devices[a].id_hash == self@.devices[b].id_hash implies a == b by {
                if a < n && b < n {
                } else if a < n {
                    assert(id_taken(pre.devices, self@.devices[a].id_hash));
                } else if b < n {
                    assert(id_taken(pre.devices, self@.devices[b].id_hash));
                }
            }
        }
        Ok(id_hash)
    }

    /// Claims the admin role for `caller`; only the first call succeeds.
    pub fn initialize(&mut self, caller: Address) -> (r: Result<(), LedgerError>)
        requires
            old(self).wf(),
        ensures
            final(self).wf(),
            old(self)@.admin == AdminState::Uninitialized ==> r is Ok && final(self)@ == (
            RegistryView { admin: AdminState::Active(caller), ..old(self)@ }),
            old(self)@.admin != AdminState::Uninitialized ==> r == Err::<(), LedgerError>(
                LedgerError::AlreadyInitialized,
            ) && final(self)@ == old(self)@,
    {
        self.admin.initialize(caller)
    }

    /// Registers `device_id` with `caller` as its owner and returns the
    /// device's identity hash, the keccak-256 digest of the identifier's bytes.
    pub fn register_device(
        &mut self,
        caller: Address,
        now: u64,
        device_id: String,
        did_document: String,
        public_key_hex: String,
        device_type: String,
        metadata: String,
    ) -> (r: Result<Hash32, LedgerError>)
        requires
            old(self).wf(),
        ensures
            final(self).wf(),
            hash_result(r) == old(self)@.register_result(encode_utf8(device_id@), caller@),
            r is Err ==> final(self)@ == old(self)@,
            r is Ok ==> final(self)@.total_devices == old(self)@.total_devices + 1,
            r is Ok ==> old(self)@.registered_as(
                final(self)@,
                DeviceView {
                    id_hash: keccak_of(encode_utf8(device_id@)),
                    device_id: encode_utf8(device_id@),
                    owner: caller@,
                    did_document: encode_utf8(did_document@),
                    public_key: encode_utf8(public_key_hex@),
                    device_type: encode_utf8(device_type@),
                    metadata: encode_utf8(metadata@),
                    registered_at: now,
                    status: DeviceStatus::Active,
                },
            ),
    {
        self.insert_device(
            now,
            device_id.as_str().as_bytes_vec(),
            caller,
            did_document.as_str().as_bytes_vec(),
            public_key_hex.as_str().as_bytes_vec(),
            device_type.as_str().as_bytes_vec(),
            metadata.as_str().as_bytes_vec(),
        )
    }

    /// Registers the device that a delegated payload describes, owned by the
    /// address the payload names, with metadata `{}`.
    pub fn register_device_from_cartesi(&mut self, now: u64, payload: &[u8]) -> (r: Result<
        Hash32,
        LedgerError,
    >)
        requires
            old(self).wf(),
        ensures
            final(self).wf(),
            r is Err ==> final(self)@ == old(self)@,
            r is Ok ==> final(self)@.total_devices == old(self)@.total_devices + 1,
            delegated_fields(payload@) is None ==> r == Err::<Hash32, LedgerError>(
                LedgerError::MalformedPayload,
            ),
            delegated_fields(payload@) matches Some(f) ==> hash_result(r) == old(self)@.register_result(f.device_id, f.owner) && (r is Ok ==> old(self)@.registered_as(
                final(self)@,
                DeviceView {
                    id_hash: keccak_of(f.device_id),
                    device_id: f.device_id,
                    owner: f.owner,
                    did_document: f.did_document,
                    public_key: f.public_key,
                    device_type: f.device_type,
                    metadata: empty_metadata(),
                    registered_at: now,
                    status: DeviceStatus::Active,
                },
            )),
    {
        let d = match parse_delegated(payload) {
            Some(d) => d,
            None => return Err(LedgerError::MalformedPayload),
        };
        let metadata: Vec<u8> = vec![123u8, 125u8];
        assert(metadata@ =~= empty_metadata());
        self.insert_device(
            now,
            d.device_id,
            d.owner,
            d.did_document,
            d.public_key,
            d.device_type,
            metadata,
        )
    }

    /// Grants `consumer` access to `caller`'s data until `expires_at`, or for
    /// good when `expires_at` is zero.
    pub fn grant_access(&mut self, caller: Address, consumer: Address, expires_at: u64) -> (r:
        Result<(), LedgerError>)
        requires
            old(self).wf(),
        ensures
            final(self).wf(),
            all_zero(consumer@) ==> r == Err::<(), LedgerError>(LedgerError::InvalidInput)
                && final(self)@ == old(self)@,
            !all_zero(consumer@) ==> r is Ok && old(self)@.granted_as(
                final(self)@,
                caller@,
                consumer@,
                (true, expires_at),
                RegistryEventView::AccessGranted {
                    owner: caller@,
                    consumer: consumer@,
                    expires_at,
                },
            ),
    {
        if consumer.is_zero() {
            return Err(LedgerError::InvalidInput);
        }
        let ghost pre = self@;
        self.grants.set(caller, consumer, true, expires_at);
        let event = RegistryEvent::AccessGranted { owner: caller, consumer, expires_at };
        self.events.push(event);
        assert(self@.events =~= pre.events.push(event@));
        assert(self@.devices =~= pre.devices);
        Ok(())
    }

    /// Withdraws any grant from `caller` to `consumer`; succeeds whether or
    /// not one existed.
    pub fn revoke_access(&mut self, caller: Address, consumer: Address) -> (r: Result<
        (),
        LedgerError,
    >)
        requires
            old(self).wf(),
        ensures
            final(self).wf(),
            r is Ok,
            old(self)@.granted_as(
                final(self)@,
                caller@,
                consumer@,
                (false, 0),
                RegistryEventView::AccessRevoked { owner: caller@, consumer: consumer@ },
            ),
    {
        let ghost pre = self@;
        self.grants.set(caller, consumer, false, 0);
        let event = RegistryEvent::AccessRevoked { owner: caller, consumer };
        self.events.push(event);
        assert(self@.events =~= pre.events.push(event@));
        assert(self@.devices =~= pre.devices);
        Ok(())
    }

    /// Whether `consumer` may read `owner`'s data at time `now`.
    pub fn has_access(&self, owner: &Address, consumer: &Address, now: u64) -> (r: bool)
        requires
            self.wf(),
        ensures
            r == self@.access(owner@, consumer@, now),
    {
        let (active, expires_at) = self.grants.get(owner, consumer);
        active && (expires_at == 0 || now <= expires_at)
    }

    /// Whether device `id_hash` is registered and in service.
    pub fn is_device_registered(&self, id_hash: &Hash32) -> (r: bool)
        requires
            self.wf(),
        ensures
            r == self@.registered(id_hash@),
    {
        match self.find_device(id_hash) {
            Some(i) => self.devices[i].status == DeviceStatus::Active,
            None => false,
        }
    }

    /// The owner of device `id_hash`, or the zero address if there is none.
    pub fn get_device_owner(&self, id_hash: &Hash32) -> (r: Address)
        requires
            self.wf(),
        ensures
            r@ == self@.owner_of(id_hash@),
    {
        match self.find_device(id_hash) {
            Some(i) => self.devices[i].owner,
            None => Address::zero(),
        }
    }

    /// The record of device `id_hash`, if one exists.
    pub fn get_device(&self, id_hash: &Hash32) -> (r: Option<&Device>)
        requires
            self.wf(),
        ensures
            r is None ==> !self@.taken(id_hash@),
            r matches Some(d) ==> self@.taken(id_hash@) && d@ == device_with(
                self@.devices,
                id_hash@,
            ),
    {
        match self.find_device(id_hash) {
            Some(i) => Some(&self.devices[i]),
            None => None,
        }
    }

    /// Takes device `id_hash` out of service; admin only. Its identity stays
    /// taken.
    pub fn revoke_device(&mut self, caller: &Address, id_hash: &Hash32) -> (r: Result<
        (),
        LedgerError,
    >)
        requires
            old(self).wf(),
        ensures
            final(self).wf(),
            !old(self)@.admin.is_admin(caller@) ==> r == Err::<(), LedgerError>(
                LedgerError::Unauthorized,
            ),
            old(self)@.admin.is_admin(caller@) && !old(self)@.registered(id_hash@) ==> r == Err::<
                (),
                LedgerError,
            >(LedgerError::NotRegistered),
            r is Err ==> final(self)@ == old(self)@,
            r is Ok ==> old(self)@.admin.is_admin(caller@) && old(self)@.registered(id_hash@),
            r is Ok ==> final(self)@.devices.len() == old(self)@.devices.len() && (forall|i: int|
                0 <= i < old(self)@.devices.len() ==> #[trigger] final(self)@.devices[i] == (if old(self)@.devices[i].id_hash == id_hash@ {
                    DeviceView { status: DeviceStatus::Revoked, ..old(self)@.devices[i] }
                } else {
                    old(self)@.devices[i]
                })) && final(self)@.events == old(self)@.events.push(
                RegistryEventView::DeviceRevoked { id_hash: id_hash@ },
            ) && final(self)@.grants == old(self)@.grants && final(self)@.total_devices == old(self)@.total_devices && final(self)@.admin == old(self)@.admin && final(self)@.address
                == old(self)@.address,
    {
        self.admin.authorize(caller)?;
        let i = match self.find_device(id_hash) {
            Some(i) => i,
            None => return Err(LedgerError::NotRegistered),
        };
        if self.devices[i].status != DeviceStatus::Active {
            return Err(LedgerError::NotRegistered);
        }
        let ghost pre = self@;
        let mut d = self.devices.remove(i);
        d.status = DeviceStatus::Revoked;
        self.devices.insert(i, d);
        let event = RegistryEvent::DeviceRevoked { id_hash: *id_hash };
        self.events.push(event);
        proof {
            assert(self@.events =~= pre.events.push(event@));
            assert forall|k: int| 0 <= k < pre.devices.len() implies #[trigger] self@.devices[k] == (if pre.devices[k].id_hash == id_hash@ {
                DeviceView { status: DeviceStatus::Revoked, ..pre.devices[k] }
            } else {
                pre.devices[k]
            }) by {
                if k != i {
                    assert(pre.devices[k].id_hash != pre.devices[i as int].id_hash);
                }
            }
            assert forall|a: int, b: int|
                0 <= a < self@.devices.len() && 0 <= b < self@.devices.len()
                    && self@.devices[a].id_hash == self@.devices[b].id_hash implies a == b by {
                assert(self@.devices[a].id_hash == pre.devices[a].id_hash);
                assert(self@.devices[b].id_hash == pre.devices[b].id_hash);
            }
        }
        Ok(())
    }

    /// The admin address, or the zero address when no one holds the role.
    pub fn owner(&self) -> (r: Address)
        ensures
            r@ == self@.admin.admin_address(),
    {
        self.admin.admin()
    }

    /// Hands the admin role to `new_owner`; admin only.
    pub fn transfer_ownership(&mut self, caller: &Address, new_owner: Address) -> (r: Result<
        (),
        LedgerError,
    >)
        requires
            old(self).wf(),
        ensures
            final(self).wf(),
            !old(self)@.admin.is_admin(caller@) ==> r == Err::<(), LedgerError>(
                LedgerError::Unauthorized,
            ),
            old(self)@.admin.is_admin(caller@) && all_zero(new_owner@) ==> r == Err::<
                (),
                LedgerError,
            >(LedgerError::InvalidInput),
            r is Err ==> final(self)@ == old(self)@,
            old(self)@.admin.is_admin(caller@) && !all_zero(new_owner@) ==> r is Ok && final(self)@ == (RegistryView {
                admin: AdminState::Active(new_owner),
                events: old(self)@.events.push(
                    RegistryEventView::OwnershipTransferred { previous: caller@, next: new_owner@ },
                ),
                ..old(self)@
            }),
    {
        let ghost pre = self@;
        let previous = self.admin.transfer(caller, new_owner)?;
        let event = RegistryEvent::OwnershipTransferred { previous, next: new_owner };
        self.events.push(event);
        assert(self@.events =~= pre.events.push(event@));
        assert(self@.devices =~= pre.devices);
        Ok(())
    }

    /// Gives the admin role up for good; admin only.
    pub fn renounce_ownership(&mut self, caller: &Address) -> (r: Result<(), LedgerError>)
        requires
            old(self).wf(),
        ensures
            final(self).wf(),
            !old(self)@.admin.is_admin(caller@) ==> r == Err::<(), LedgerError>(
                LedgerError::Unauthorized,
            ) && final(self)@ == old(self)@,
            old(self)@.admin.is_admin(caller@) ==> r is Ok && final(self)@ == (RegistryView {
                admin: AdminState::Renounced,
                events: old(self)@.events.push(
                    RegistryEventView::OwnershipTransferred {
                        previous: caller@,
                        next: zero_address(),
                    },
                ),
                ..old(self)@
            }),
    {
        let ghost pre = self@;
        let previous = self.admin.renounce(caller)?;
        let event = RegistryEvent::OwnershipTransferred { previous, next: Address::zero() };
        self.events.push(event);
        assert(self@.events =~= pre.events.push(event@));
        assert(self@.devices =~= pre.devices);
        Ok(())
    }

    /// The identifiers of the devices registered to `owner`, in order of
    /// registration.
    pub fn get_owner_devices(&self, owner: &Address) -> (r: Vec<Vec<u8>>)
        ensures
            r@.map_values(|v: Vec<u8>| v@) == owner_devices(self@.devices, owner@),
    {
        let ghost devs = self@.devices;
        let mut out: Vec<Vec<u8>> = Vec::new();
        let mut i: usize = 0;
        while i < self.devices.len()
            invariant
                devs == self@.devices,
                devs.len() == self.devices@.len(),
                0 <= i <= devs.len(),
                out@.map_values(|v: Vec<u8>| v@) == owner_devices(devs.subrange(0, i as int), owner@),
            decreases devs.len() - i,
        {
            assert(devs.subrange(0, i + 1).drop_last() =~= devs.subrange(0, i as int));
            assert(devs[i as int] == self.devices@[i as int]@);
            let ghost before = out@;
            if self.devices[i].owner.same(owner) {
                out.push(copy_bytes(&self.devices[i].device_id));
                assert(out@.map_values(|v: Vec<u8>| v@) =~= before.map_values(|v: Vec<u8>| v@).push(
                    devs[i as int].device_id,
                ));
            }
            i = i + 1;
        }
        assert(devs.subrange(0, devs.len() as int) =~= devs);
        out
    }

    /// The number of successful registrations.
    pub fn total_devices(&self) -> (r: usize)
        ensures
            r == self@.total_devices,
    {
        self.total_devices
    }

    /// The audit log, oldest entry first.
    pub fn events(&self) -> (r: &Vec<RegistryEvent>)
        ensures
            r@.map_values(|e: RegistryEvent| e@) == self@.events,
    {
        &self.events
    }
}

/// A copy of a byte vector.
fn copy_bytes(v: &Vec<u8>) -> (r: Vec<u8>)
    ensures
        r@ == v@,
{
    let mut out: Vec<u8> = Vec::new();
    let mut i: usize = 0;
    while i < v.len()
        invariant
            0 <= i <= v@.len(),
            out@ == v@.subrange(0, i as int),
        decreases v@.len() - i,
    {
        out.push(v[i]);
        i = i + 1;
        assert(out@ =~= v@.subrange(0, i as int));
    }
    assert(v@.subrange(0, v@.len() as int) =~= v@);
    out
}

} // verus!
