use vstd::prelude::*;

verus! {

/// Why a call into the registry or the pipeline was refused.
///
/// Every refusal leaves the component exactly as it was before the call.
#[derive(Clone, Copy, Debug, PartialEq, Eq, Structural)]
pub enum LedgerError {
    /// An empty identifier or a zero address where a real one is needed.
    InvalidInput,
    /// The identity is already registered.
    AlreadyExists,
    /// The component was initialized before.
    AlreadyInitialized,
    /// The caller is not the admin, or not the relay.
    Unauthorized,
    /// The device identity is not registered.
    NotRegistered,
    /// The registry reports the zero address as the device's owner.
    InvalidOwner,
    /// A delegated registration payload lacks a required field.
    MalformedPayload,
    /// The registry could not answer a cross-component query.
    QueryFailed,
}

} // verus!
