//! Properties that relate several registry calls, proved over the contracts
//! of those calls.
use vstd::prelude::*;
use crate::error::LedgerError;
use crate::primitives::{all_zero, keccak_of};
use crate::registry::{DeviceView, RegistryEventView, RegistryView};

verus! {

/// A valid identifier registers the first time, and every later attempt to
/// register it fails with `AlreadyExists`, whoever the owner would be.
pub proof fn law_registration_unique(
    pre: RegistryView,
    post: RegistryView,
    device_id: Seq<u8>,
    owner: Seq<u8>,
    d: DeviceView,
    later_owner: Seq<u8>,
)
    requires
        device_id.len() > 0,
        !all_zero(owner),
        !pre.taken(keccak_of(device_id)),
        d.id_hash == keccak_of(device_id),
        pre.registered_as(post, d),
    ensures
        pre.register_result(device_id, owner) == Ok::<Seq<u8>, LedgerError>(keccak_of(device_id)),
        post.register_result(device_id, later_owner) == Err::<Seq<u8>, LedgerError>(
            LedgerError::AlreadyExists,
        ),
{
    let n = pre.devices.len() as int;
    assert(post.devices[n] == d);
}

/// A taken identity stays taken through later registrations and grant
/// changes, so registering it again keeps failing with `AlreadyExists`.
pub proof fn law_identity_stays_taken(
    pre: RegistryView,
    post: RegistryView,
    device_id: Seq<u8>,
    owner: Seq<u8>,
)
    requires
        device_id.len() > 0,
        pre.taken(keccak_of(device_id)),
        (exists|d: DeviceView| pre.registered_as(post, d)) || (exists|
            o: Seq<u8>,
            c: Seq<u8>,
            st: (bool, u64),
            ev: RegistryEventView,
        | pre.granted_as(post, o, c, st, ev)),
    ensures
        post.taken(keccak_of(device_id)),
        post.register_result(device_id, owner) == Err::<Seq<u8>, LedgerError>(
            LedgerError::AlreadyExists,
        ),
{
    let h = keccak_of(device_id);
    let i = choose|i: int| 0 <= i < pre.devices.len() && pre.devices[i].id_hash == h;
    if exists|d: DeviceView| pre.registered_as(post, d) {
        let d = choose|d: DeviceView| pre.registered_as(post, d);
        assert(post.devices[i] == pre.devices[i]);
    }
    assert(post.devices[i].id_hash == h);
}

/// After a registration the device count is one more than before.
pub proof fn law_registration_counts(pre: RegistryView, post: RegistryView, d: DeviceView)
    requires
        pre.registered_as(post, d),
    ensures
        post.total_devices == pre.total_devices + 1,
        post.devices.len() == pre.devices.len() + 1,
{
}

/// A grant with no expiry gives access at every time.
pub proof fn law_grant_never_expires(
    pre: RegistryView,
    post: RegistryView,
    owner: Seq<u8>,
    consumer: Seq<u8>,
    now: u64,
)
    requires
        pre.granted_as(
            post,
            owner,
            consumer,
            (true, 0),
            RegistryEventView::AccessGranted { owner, consumer, expires_at: 0 },
        ),
    ensures
        post.access(owner, consumer, now),
{
    assert(post.grants.contains_key((owner, consumer)));
}

/// A grant with expiry `expires_at` gives access exactly up to and including
/// `expires_at`.
pub proof fn law_grant_expiry(
    pre: RegistryView,
    post: RegistryView,
    owner: Seq<u8>,
    consumer: Seq<u8>,
    expires_at: u64,
    now: u64,
)
    requires
        expires_at > 0,
        pre.granted_as(
            post,
            owner,
            consumer,
            (true, expires_at),
            RegistryEventView::AccessGranted { owner, consumer, expires_at },
        ),
    ensures
        post.access(owner, consumer, now) <==> now <= expires_at,
{
    assert(post.grants.contains_key((owner, consumer)));
}

/// After a revocation the consumer has no access, at any time, whatever the
/// grant was before.
pub proof fn law_revoke_removes_access(
    pre: RegistryView,
    post: RegistryView,
    owner: Seq<u8>,
    consumer: Seq<u8>,
    now: u64,
)
    requires
        pre.granted_as(
            post,
            owner,
            consumer,
            (false, 0),
            RegistryEventView::AccessRevoked { owner, consumer },
        ),
    ensures
        !post.access(owner, consumer, now),
{
    assert(post.grants.contains_key((owner, consumer)));
}

} // verus!
