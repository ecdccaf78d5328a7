//! The ingestion pipeline: relay-submitted payloads, accepted only for devices
//! that the identity registry reports as registered.
use vstd::prelude::*;
use std::collections::HashMap;
use crate::access::{grant_state, AccessTable};
use crate::admin::AdminState;
use crate::error::LedgerError;
use crate::primitives::{all_zero, hash_bytes, hash_result, keccak_of, zero_address, Address, Hash32};
use crate::registry::{DeviceRegistry, RegistryView};

verus! {

broadcast use vstd::std_specs::hash::group_hash_axioms;

/// What was recorded for one accepted submission. Records are never changed.
#[derive(Clone, Copy, Debug, PartialEq, Eq)]
pub struct SubmissionRecord {
    pub data_hash: Hash32,
    pub device_id_hash: Hash32,
    /// The device's owner as the registry reported it at submission time.
    pub device_owner: Address,
    pub timestamp: u64,
    pub fee_paid: u64,
    pub processed: bool,
}

/// A submission record as plain byte strings.
pub struct SubmissionView {
    pub data_hash: Seq<u8>,
    pub device_id_hash: Seq<u8>,
    pub device_owner: Seq<u8>,
    pub timestamp: u64,
    pub fee_paid: u64,
    pub processed: bool,
}

impl View for SubmissionRecord {
    type V = SubmissionView;

    open spec fn view(&self) -> SubmissionView {
        SubmissionView {
            data_hash: self.data_hash@,
            device_id_hash: self.device_id_hash@,
            device_owner: self.device_owner@,
            timestamp: self.timestamp,
            fee_paid: self.fee_paid,
            processed: self.processed,
        }
    }
}

/// Settings of one analytics tier.
#[derive(Clone, Copy, Debug, PartialEq, Eq, Structural)]
pub struct AnalyticsConfig {
    pub enabled: bool,
    pub processing_fee: u64,
    pub requires_proof_of_correctness: bool,
}

/// An entry of the pipeline's audit log.
#[derive(Clone, Copy, Debug, PartialEq, Eq)]
pub enum PipelineEvent {
    DataSubmitted { data_hash: Hash32, device_id_hash: Hash32, owner: Address, timestamp: u64 },
    MarketplaceConfigUpdated { base_fee: u64 },
}

/// An audit log entry as plain byte strings.
pub enum PipelineEventView {
    DataSubmitted { data_hash: Seq<u8>, device_id_hash: Seq<u8>, owner: Seq<u8>, timestamp: u64 },
    MarketplaceConfigUpdated { base_fee: u64 },
}

impl View for PipelineEvent {
    type V = PipelineEventView;

    open spec fn view(&self) -> PipelineEventView {
        match self {
            PipelineEvent::DataSubmitted { data_hash, device_id_hash, owner, timestamp } => {
                PipelineEventView::DataSubmitted {
                    data_hash: data_hash@,
                    device_id_hash: device_id_hash@,
                    owner: owner@,
                    timestamp: *timestamp,
                }
            },
            PipelineEvent::MarketplaceConfigUpdated { base_fee } => {
                PipelineEventView::MarketplaceConfigUpdated { base_fee: *base_fee }
            },
        }
    }
}

/// The pipeline's abstract state.
pub struct PipelineView {
    pub admin: AdminState,
    /// The only caller allowed to submit.
    pub relay: Seq<u8>,
    /// The address of the registry that submissions are checked against.
    pub registry: Seq<u8>,
    pub base_fee: u64,
    /// Accepted submissions, oldest first.
    pub submissions: Seq<SubmissionView>,
    /// Marketplace grants: (owner, consumer) to (active, expires_at).
    pub marketplace: Map<(Seq<u8>, Seq<u8>), (bool, u64)>,
    pub analytics: Map<u8, AnalyticsConfig>,
    pub events: Seq<PipelineEventView>,
}

/// The hashes of the submissions whose device belonged to `owner`, oldest first.
pub open spec fn owner_hashes(subs: Seq<SubmissionView>, owner: Seq<u8>) -> Seq<Seq<u8>>
    decreases subs.len(),
{
    if subs.len() == 0 {
        Seq::empty()
    } else {
        let prev = owner_hashes(subs.drop_last(), owner);
        if subs.last().device_owner == owner {
            prev.push(subs.last().data_hash)
        } else {
            prev
        }
    }
}

/// The number of submissions from device `h`.
pub open spec fn count_for(subs: Seq<SubmissionView>, h: Seq<u8>) -> nat
    decreases subs.len(),
{
    if subs.len() == 0 {
        0
    } else {
        count_for(subs.drop_last(), h) + if subs.last().device_id_hash == h {
            1nat
        } else {
            0nat
        }
    }
}

/// The most recent submission with data hash `d`.
pub open spec fn latest_with(subs: Seq<SubmissionView>, d: Seq<u8>) -> Option<SubmissionView>
    decreases subs.len(),
{
    if subs.len() == 0 {
        None
    } else if subs.last().data_hash == d {
        Some(subs.last())
    } else {
        latest_with(subs.drop_last(), d)
    }
}

/// The identity of the device a payload comes from: the digest of the whole
/// payload.
pub open spec fn payload_device(payload: Seq<u8>) -> Seq<u8> {
    keccak_of(payload)
}

/// The data hash of a payload: the digest of its device identity followed by
/// the payload.
pub open spec fn payload_data_hash(payload: Seq<u8>) -> Seq<u8> {
    keccak_of(payload_device(payload) + payload)
}

impl PipelineView {
    /// Everything but the submissions and the log is as in `other`.
    pub open spec fn same_config(self, other: PipelineView) -> bool {
        &&& self.admin == other.admin
        &&& self.relay == other.relay
        &&& self.registry == other.registry
        &&& self.base_fee == other.base_fee
        &&& self.marketplace == other.marketplace
        &&& self.analytics == other.analytics
    }

    /// What a submission of `payload` by `caller`, checked against `reg`,
    /// returns: the data hash, or why it was refused.
    pub open spec fn submit_result(self, caller: Seq<u8>, payload: Seq<u8>, reg: RegistryView) -> Result<
        Seq<u8>,
        LedgerError,
    > {
        let h = payload_device(payload);
        if caller != self.relay {
            Err(LedgerError::Unauthorized)
        } else if reg.address != self.registry {
            Err(LedgerError::QueryFailed)
        } else if !reg.registered(h) {
            Err(LedgerError::NotRegistered)
        } else if all_zero(reg.owner_of(h)) {
            Err(LedgerError::InvalidOwner)
        } else {
            Ok(payload_data_hash(payload))
        }
    }

    /// The record an accepted submission of `payload` at `now` adds.
    pub open spec fn record_for(payload: Seq<u8>, reg: RegistryView, now: u64) -> SubmissionView {
        SubmissionView {
            data_hash: payload_data_hash(payload),
            device_id_hash: payload_device(payload),
            device_owner: reg.owner_of(payload_device(payload)),
            timestamp: now,
            fee_paid: 0,
            processed: true,
        }
    }

    /// What asking whether `consumer` may read `owner`'s data at `now`
    /// returns: a marketplace grant suffices; without one the registry's
    /// grant decides.
    pub open spec fn marketplace_result(
        self,
        owner: Seq<u8>,
        consumer: Seq<u8>,
        now: u64,
        reg: RegistryView,
    ) -> Result<bool, LedgerError> {
        if grant_state(self.marketplace, owner, consumer).0 {
            Ok(true)
        } else if reg.address != self.registry {
            Err(LedgerError::QueryFailed)
        } else {
            Ok(reg.access(owner, consumer, now))
        }
    }
}

/// The ingestion pipeline.
pub struct IoTDataPipeline {
    admin: AdminState,
    relay: Address,
    registry: Address,
    base_fee: u64,
    submissions: Vec<SubmissionRecord>,
    marketplace: AccessTable,
    analytics: HashMap<u8, AnalyticsConfig>,
    events: Vec<PipelineEvent>,
}

impl View for IoTDataPipeline {
    type V = PipelineView;

    closed spec fn view(&self) -> PipelineView {
        PipelineView {
            admin: self.admin,
            relay: self.relay@,
            registry: self.registry@,
            base_fee: self.base_fee,
            submissions: self.submissions@.map_values(|r: SubmissionRecord| r@),
            marketplace: self.marketplace@,
            analytics: self.analytics@,
            events: self.events@.map_values(|e: PipelineEvent| e@),
        }
    }
}

/// The bytes of `h` followed by `payload`.
fn concat_hash(h: &Hash32, payload: &[u8]) -> (r: Vec<u8>)
    ensures
        r@ == h@ + payload@,
{
    let mut out: Vec<u8> = Vec::new();
    let mut i: usize = 0;
    while i < 32
        invariant
            0 <= i <= 32,
            h@.len() == 32,
            out@ == h@.subrange(0, i as int),
        decreases 32 - i,
    {
        out.push(h.bytes[i]);
        i = i + 1;
        assert(out@ =~= h@.subrange(0, i as int));
    }
    let mut k: usize = 0;
    while k < payload.len()
        invariant
            0 <= k <= payload@.len(),
            h@.len() == 32,
            out@ == h@ + payload@.subrange(0, k as int),
        decreases payload@.len() - k,
    {
        out.push(payload[k]);
        k = k + 1;
        assert(out@ =~= h@ + payload@.subrange(0, k as int));
    }
    assert(h@.subrange(0, 32) =~= h@);
    assert(payload@.subrange(0, payload@.len() as int) =~= payload@);
    out
}

impl IoTDataPipeline {
    /// The pipeline's internal invariant.
    pub closed spec fn wf(&self) -> bool {
        self.marketplace.wf()
    }

    /// A pipeline with no admin, zero addresses and fee, and no submissions.
    pub fn new() -> (r: IoTDataPipeline)
        ensures
            r.wf(),
            r@.admin == AdminState::Uninitialized,
            r@.relay == zero_address(),
            r@.registry == zero_address(),
            r@.base_fee == 0,
            r@.submissions == Seq::<SubmissionView>::empty(),
            r@.marketplace == Map::<(Seq<u8>, Seq<u8>), (bool, u64)>::empty(),
            r@.analytics == Map::<u8, AnalyticsConfig>::empty(),
            r@.events == Seq::<PipelineEventView>::empty(),
    {
        let r = IoTDataPipeline {
            admin: AdminState::new(),
            relay: Address::zero(),
            registry: Address::zero(),
            base_fee: 0,
            submissions: Vec::new(),
            marketplace: AccessTable::new(),
            analytics: HashMap::new(),
            events: Vec::new(),
        };
        assert(r@.submissions =~= Seq::<SubmissionView>::empty());
        assert(r@.events =~= Seq::<PipelineEventView>::empty());
        r
    }

    /// Claims the admin role for `caller` and sets the relay, the registry
    /// address and the base fee; only the first call succeeds.
    pub fn initialize(
        &mut self,
        caller: Address,
        rollup_address: Address,
        registry_address: Address,
        base_fee: u64,
    ) -> (r: Result<(), LedgerError>)
        requires
            old(self).wf(),
        ensures
            final(self).wf(),
            old(self)@.admin != AdminState::Uninitialized ==> r == Err::<(), LedgerError>(
                LedgerError::AlreadyInitialized,
            ) && final(self)@ == old(self)@,
            old(self)@.admin == AdminState::Uninitialized ==> r is Ok && final(self)@ == (
            PipelineView {
                admin: AdminState::Active(caller),
                relay: rollup_address@,
                registry: registry_address@,
                base_fee,
                ..old(self)@
            }),
    {
        self.admin.initialize(caller)?;
        self.relay = rollup_address;
        self.registry = registry_address;
        self.base_fee = base_fee;
        Ok(())
    }

    /// Accepts `payload` from the relay once `registry` confirms that the
    /// device it comes from is registered, and returns the submission's data
    /// hash. The device identity is the digest of the whole payload.
    pub fn submit_cartesi_result(
        &mut self,
        caller: &Address,
        now: u64,
        payload: &[u8],
        registry: &DeviceRegistry,
    ) -> (r: Result<Hash32, LedgerError>)
        requires
            old(self).wf(),
            registry.wf(),
        ensures
            final(self).wf(),
            hash_result(r) == old(self)@.submit_result(caller@, payload@, registry@),
            caller@ != old(self)@.relay ==> r == Err::<Hash32, LedgerError>(
                LedgerError::Unauthorized,
            ),
            caller@ == old(self)@.relay && registry@.address == old(self)@.registry
                && !registry@.registered(payload_device(payload@)) ==> r == Err::<
                Hash32,
                LedgerError,
            >(LedgerError::NotRegistered),
            r is Err ==> final(self)@ == old(self)@,
            r is Err ==> final(self)@.submissions.len() == old(self)@.submissions.len(),
            r is Ok ==> final(self)@.same_config(old(self)@) && final(self)@.submissions == old(
                self,
            )@.submissions.push(PipelineView::record_for(payload@, registry@, now))
                && final(self)@.events == old(self)@.events.push(
                PipelineEventView::DataSubmitted {
                    data_hash: payload_data_hash(payload@),
                    device_id_hash: payload_device(payload@),
                    owner: registry@.owner_of(payload_device(payload@)),
                    timestamp: now,
                },
            ),
    {
        if !caller.same(&self.relay) {
            return Err(LedgerError::Unauthorized);
        }
        let device_id_hash = hash_bytes(payload);
        if !registry.address().same(&self.registry) {
            return Err(LedgerError::QueryFailed);
        }
        if !registry.is_device_registered(&device_id_hash) {
            return Err(LedgerError::NotRegistered);
        }
        let device_owner = registry.get_device_owner(&device_id_hash);
        if device_owner.is_zero() {
            return Err(LedgerError::InvalidOwner);
        }
        let data_hash = hash_bytes(concat_hash(&device_id_hash, payload).as_slice());
        let record = SubmissionRecord {
            data_hash,
            device_id_hash,
            device_owner,
            timestamp: now,
            fee_paid: 0,
            processed: true,
        };
        let event = PipelineEvent::DataSubmitted {
            data_hash,
            device_id_hash,
            owner: device_owner,
            timestamp: now,
        };
        let ghost pre = self@;
        self.submissions.push(record);
        self.events.push(event);
        assert(self@.submissions =~= pre.submissions.push(record@));
        assert(self@.events =~= pre.events.push(event@));
        Ok(data_hash)
    }

    /// Lets `consumer` read `caller`'s data through the marketplace.
    pub fn grant_marketplace_access(&mut self, caller: Address, consumer: Address) -> (r: Result<
        (),
        LedgerError,
    >)
        requires
            old(self).wf(),
        ensures
            final(self).wf(),
            all_zero(consumer@) ==> r == Err::<(), LedgerError>(LedgerError::InvalidInput)
                && final(self)@ == old(self)@,
            !all_zero(consumer@) ==> r is Ok && final(self)@ == (PipelineView {
                marketplace: old(self)@.marketplace.insert((caller@, consumer@), (true, 0)),
                ..old(self)@
            }),
    {
        if consumer.is_zero() {
            return Err(LedgerError::InvalidInput);
        }
        self.marketplace.set(caller, consumer, true, 0);
        Ok(())
    }

    /// Withdraws `consumer`'s marketplace access to `caller`'s data.
    pub fn revoke_marketplace_access(&mut self, caller: Address, consumer: Address) -> (r: Result<
        (),
        LedgerError,
    >)
        requires
            old(self).wf(),
        ensures
            final(self).wf(),
            r is Ok,
            final(self)@ == (PipelineView {
                marketplace: old(self)@.marketplace.insert((caller@, consumer@), (false, 0)),
                ..old(self)@
            }),
    {
        self.marketplace.set(caller, consumer, false, 0);
        Ok(())
    }

    /// Whether `consumer` may read `owner`'s data at `now`: a marketplace
    /// grant suffices; otherwise the registry's grant decides.
    pub fn has_marketplace_access(
        &self,
        owner: &Address,
        consumer: &Address,
        now: u64,
        registry: &DeviceRegistry,
    ) -> (r: Result<bool, LedgerError>)
        requires
            self.wf(),
            registry.wf(),
        ensures
            r == self@.marketplace_result(owner@, consumer@, now, registry@),
    {
        let (active, _) = self.marketplace.get(owner, consumer);
        if active {
            return Ok(true);
        }
        if !registry.address().same(&self.registry) {
            return Err(LedgerError::QueryFailed);
        }
        Ok(registry.has_access(owner, consumer, now))
    }

    /// The number of accepted submissions.
    pub fn total_submissions(&self) -> (r: usize)
        ensures
            r == self@.submissions.len(),
    {
        self.submissions.len()
    }

    /// The number of accepted submissions from device `id_hash`.
    pub fn get_device_submission_count(&self, id_hash: &Hash32) -> (r: usize)
        ensures
            r == count_for(self@.submissions, id_hash@),
    {
        let ghost subs = self@.submissions;
        let mut n: usize = 0;
        let mut i: usize = 0;
        while i < self.submissions.len()
            invariant
                subs == self@.submissions,
                subs.len() == self.submissions@.len(),
                0 <= n <= i <= subs.len(),
                n == count_for(subs.subrange(0, i as int), id_hash@),
            decreases subs.len() - i,
        {
            assert(subs.subrange(0, i + 1).drop_last() =~= subs.subrange(0, i as int));
            assert(subs[i as int] == self.submissions@[i as int]@);
            if self.submissions[i].device_id_hash.same(id_hash) {
                n = n + 1;
            }
            i = i + 1;
        }
        assert(subs.subrange(0, subs.len() as int) =~= subs);
        n
    }

    /// The data hashes of the submissions whose device belonged to `owner`,
    /// oldest first.
    pub fn get_owner_data_hashes(&self, owner: &Address) -> (r: Vec<Hash32>)
        ensures
            r@.map_values(|h: Hash32| h@) == owner_hashes(self@.submissions, owner@),
    {
        let ghost subs = self@.submissions;
        let mut out: Vec<Hash32> = Vec::new();
        let mut i: usize = 0;
        while i < self.submissions.len()
            invariant
                subs == self@.submissions,
                subs.len() == self.submissions@.len(),
                0 <= i <= subs.len(),
                out@.map_values(|h: Hash32| h@) == owner_hashes(subs.subrange(0, i as int), owner@),
            decreases subs.len() - i,
        {
            assert(subs.subrange(0, i + 1).drop_last() =~= subs.subrange(0, i as int));
            assert(subs[i as int] == self.submissions@[i as int]@);
            let ghost before = out@;
            if self.submissions[i].device_owner.same(owner) {
                out.push(self.submissions[i].data_hash);
                assert(out@.map_values(|h: Hash32| h@) =~= before.map_values(|h: Hash32| h@).push(
                    subs[i as int].data_hash,
                ));
            }
            i = i + 1;
        }
        assert(subs.subrange(0, subs.len() as int) =~= subs);
        out
    }

    /// The device, owner, time and processed flag of the most recent
    /// submission with data hash `data_hash`; zeros and `false` if none.
    pub fn get_submission_info(&self, data_hash: &Hash32) -> (r: (Hash32, Address, u64, bool))
        ensures
            latest_with(self@.submissions, data_hash@) matches Some(s) ==> r.0@ == s.device_id_hash
                && r.1@ == s.device_owner && r.2 == s.timestamp && r.3 == s.processed,
            latest_with(self@.submissions, data_hash@) is None ==> all_zero(r.0@) && r.1@
                == zero_address() && r.2 == 0 && !r.3,
    {
        let ghost subs = self@.submissions;
        let mut i: usize = self.submissions.len();
        assert(subs.subrange(0, subs.len() as int) =~= subs);
        while i > 0
            invariant
                subs == self@.submissions,
                subs.len() == self.submissions@.len(),
                0 <= i <= subs.len(),
                latest_with(subs, data_hash@) == latest_with(subs.subrange(0, i as int), data_hash@),
            decreases i,
        {
            assert(subs.subrange(0, i as int).drop_last() =~= subs.subrange(0, i - 1));
            assert(subs[i - 1] == self.submissions@[i - 1]@);
            let s = &self.submissions[i - 1];
            if s.data_hash.same(data_hash) {
                return (s.device_id_hash, s.device_owner, s.timestamp, s.processed);
            }
            i = i - 1;
        }
        (Hash32::zero(), Address::zero(), 0, false)
    }

    /// The admin address, or the zero address when no one holds the role.
    pub fn owner(&self) -> (r: Address)
        ensures
            r@ == self@.admin.admin_address(),
    {
        self.admin.admin()
    }

    /// Sets the relay address; admin only.
    pub fn set_rollup_contract(&mut self, caller: &Address, new_address: Address) -> (r: Result<
        (),
        LedgerError,
    >)
        requires
            old(self).wf(),
        ensures
            final(self).wf(),
            !old(self)@.admin.is_admin(caller@) ==> r == Err::<(), LedgerError>(
                LedgerError::Unauthorized,
            ) && final(self)@ == old(self)@,
            old(self)@.admin.is_admin(caller@) ==> r is Ok && final(self)@ == (PipelineView {
                relay: new_address@,
                ..old(self)@
            }),
    {
        self.admin.authorize(caller)?;
        self.relay = new_address;
        Ok(())
    }

    /// Sets the registry address; admin only.
    pub fn set_device_registry(&mut self, caller: &Address, new_address: Address) -> (r: Result<
        (),
        LedgerError,
    >)
        requires
            old(self).wf(),
        ensures
            final(self).wf(),
            !old(self)@.admin.is_admin(caller@) ==> r == Err::<(), LedgerError>(
                LedgerError::Unauthorized,
            ) && final(self)@ == old(self)@,
            old(self)@.admin.is_admin(caller@) ==> r is Ok && final(self)@ == (PipelineView {
                registry: new_address@,
                ..old(self)@
            }),
    {
        self.admin.authorize(caller)?;
        self.registry = new_address;
        Ok(())
    }

    /// Sets the base submission fee; admin only.
    pub fn set_base_fee(&mut self, caller: &Address, new_fee: u64) -> (r: Result<(), LedgerError>)
        requires
            old(self).wf(),
        ensures
            final(self).wf(),
            !old(self)@.admin.is_admin(caller@) ==> r == Err::<(), LedgerError>(
                LedgerError::Unauthorized,
            ) && final(self)@ == old(self)@,
            old(self)@.admin.is_admin(caller@) ==> r is Ok && final(self)@ == (PipelineView {
                base_fee: new_fee,
                events: old(self)@.events.push(
                    PipelineEventView::MarketplaceConfigUpdated { base_fee: new_fee },
                ),
                ..old(self)@
            }),
    {
        self.admin.authorize(caller)?;
        self.base_fee = new_fee;
        let ghost pre = self@;
        let event = PipelineEvent::MarketplaceConfigUpdated { base_fee: new_fee };
        self.events.push(event);
        assert(self@.events =~= pre.events.push(event@));
        Ok(())
    }

    /// Sets the configuration of analytics tier `tier`; admin only.
    pub fn update_analytics_config(
        &mut self,
        caller: &Address,
        tier: u8,
        enabled: bool,
        processing_fee: u64,
        requires_proof_of_correctness: bool,
    ) -> (r: Result<(), LedgerError>)
        requires
            old(self).wf(),
        ensures
            final(self).wf(),
            !old(self)@.admin.is_admin(caller@) ==> r == Err::<(), LedgerError>(
                LedgerError::Unauthorized,
            ) && final(self)@ == old(self)@,
            old(self)@.admin.is_admin(caller@) ==> r is Ok && final(self)@ == (PipelineView {
                analytics: old(self)@.analytics.insert(
                    tier,
                    AnalyticsConfig { enabled, processing_fee, requires_proof_of_correctness },
                ),
                ..old(self)@
            }),
    {
        self.admin.authorize(caller)?;
        self.analytics.insert(
            tier,
            AnalyticsConfig { enabled, processing_fee, requires_proof_of_correctness },
        );
        Ok(())
    }

    /// The configuration of analytics tier `tier`, if one was set.
    pub fn get_analytics_config(&self, tier: u8) -> (r: Option<AnalyticsConfig>)
        ensures
            r is None ==> !self@.analytics.contains_key(tier),
            r matches Some(c) ==> self@.analytics.contains_key(tier) && c == self@.analytics[tier],
    {
        match self.analytics.get(&tier) {
            Some(c) => Some(*c),
            None => None,
        }
    }

    /// The relay address.
    pub fn rollup_contract(&self) -> (r: Address)
        ensures
            r@ == self@.relay,
    {
        self.relay
    }

    /// The registry address.
    pub fn device_registry(&self) -> (r: Address)
        ensures
            r@ == self@.registry,
    {
        self.registry
    }

    /// The base submission fee.
    pub fn base_fee(&self) -> (r: u64)
        ensures
            r == self@.base_fee,
    {
        self.base_fee
    }

    /// The audit log, oldest entry first.
    pub fn events(&self) -> (r: &Vec<PipelineEvent>)
        ensures
            r@.map_values(|e: PipelineEvent| e@) == self@.events,
    {
        &self.events
    }

    /// Liveness check; always 1.
    pub fn ping(&self) -> (r: u64)
        ensures
            r == 1,
    {
        1
    }
}

} // verus!
