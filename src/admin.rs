//! The single-admin control shared by the registry and the pipeline.
use vstd::prelude::*;
use crate::error::LedgerError;
use crate::primitives::{all_zero, zero_address, Address};

verus! {

/// The admin lifecycle: unset, then held by one address, possibly given up
/// for good.
#[derive(Clone, Copy, Debug, PartialEq, Eq)]
pub enum AdminState {
    /// No admin yet; `initialize` may claim the role.
    Uninitialized,
    /// The role is held by this address.
    Active(Address),
    /// The role was renounced; no admin-only call can succeed again.
    Renounced,
}

impl AdminState {
    /// `caller` holds the admin role.
    pub open spec fn is_admin(self, caller: Seq<u8>) -> bool {
        self matches AdminState::Active(a) && a@ == caller
    }

    /// The admin address as reported to callers: the zero address when no
    /// one holds the role.
    pub open spec fn admin_address(self) -> Seq<u8> {
        match self {
            AdminState::Active(a) => a@,
            _ => zero_address(),
        }
    }

    /// A fresh, unclaimed admin role.
    pub fn new() -> (r: AdminState)
        ensures
            r == AdminState::Uninitialized,
    {
        AdminState::Uninitialized
    }

    /// Claims the role for `caller`; only possible once.
    pub fn initialize(&mut self, caller: Address) -> (r: Result<(), LedgerError>)
        ensures
            *old(self) == AdminState::Uninitialized ==> r is Ok && *final(self)
                == AdminState::Active(caller),
            *old(self) != AdminState::Uninitialized ==> r == Err::<(), LedgerError>(
                LedgerError::AlreadyInitialized,
            ) && *final(self) == *old(self),
    {
        match *self {
            AdminState::Uninitialized => {
                *self = AdminState::Active(caller);
                Ok(())
            },
            _ => Err(LedgerError::AlreadyInitialized),
        }
    }

    /// Succeeds exactly when `caller` holds the role.
    pub fn authorize(&self, caller: &Address) -> (r: Result<(), LedgerError>)
        ensures
            r is Ok == self.is_admin(caller@),
            r is Err ==> r == Err::<(), LedgerError>(LedgerError::Unauthorized),
    {
        match self {
            AdminState::Active(a) => {
                if a.same(caller) {
                    Ok(())
                } else {
                    Err(LedgerError::Unauthorized)
                }
            },
            _ => Err(LedgerError::Unauthorized),
        }
    }

    /// Hands the role to `new_admin`; returns the previous admin.
    pub fn transfer(&mut self, caller: &Address, new_admin: Address) -> (r: Result<
        Address,
        LedgerError,
    >)
        ensures
            !old(self).is_admin(caller@) ==> r == Err::<Address, LedgerError>(
                LedgerError::Unauthorized,
            ),
            old(self).is_admin(caller@) && all_zero(new_admin@) ==> r == Err::<
                Address,
                LedgerError,
            >(LedgerError::InvalidInput),
            old(self).is_admin(caller@) && !all_zero(new_admin@) ==> (r matches Ok(p) && p@
                == caller@) && *final(self) == AdminState::Active(new_admin),
            r is Err ==> *final(self) == *old(self),
    {
        self.authorize(caller)?;
        if new_admin.is_zero() {
            return Err(LedgerError::InvalidInput);
        }
        let previous = *caller;
        *self = AdminState::Active(new_admin);
        Ok(previous)
    }

    /// Gives the role up for good; returns the previous admin.
    pub fn renounce(&mut self, caller: &Address) -> (r: Result<Address, LedgerError>)
        ensures
            !old(self).is_admin(caller@) ==> r == Err::<Address, LedgerError>(
                LedgerError::Unauthorized,
            ) && *final(self) == *old(self),
            old(self).is_admin(caller@) ==> (r matches Ok(p) && p@ == caller@) && *final(self)
                == AdminState::Renounced,
    {
        self.authorize(caller)?;
        *self = AdminState::Renounced;
        Ok(*caller)
    }

    /// The admin address, or the zero address when no one holds the role.
    pub fn admin(&self) -> (r: Address)
        ensures
            r@ == self.admin_address(),
    {
        match self {
            AdminState::Active(a) => *a,
            _ => Address::zero(),
        }
    }
}

} // verus!
