//! Settings in instance storage, balances in persistent storage and
//! replay-protection nonces in temporary storage.
use vstd::prelude::*;
use std::collections::HashMap;
use crate::common::Address;

verus! {

broadcast use vstd::std_specs::hash::group_hash_axioms;

#[derive(Clone, Copy, Debug, PartialEq, Eq, Structural)]
pub enum StorageError {
    NotInitialized,
    Unauthorized,
    NonceExpiredOrInvalid,
}

/// The contract's storage.  A used nonce is stored under
/// `nonce_key(user, nonce)`.
pub struct DecoupledStorageContract {
    pub admin: Option<Address>,
    pub protocol_fee_bps: u32,
    pub balances: HashMap<Address, i128>,
    pub nonces: HashMap<u128, bool>,
}

pub open spec fn nonce_key(user: Address, nonce: u64) -> u128 {
    (user as int * 0x1_0000_0000_0000_0000 + nonce as int) as u128
}

impl DecoupledStorageContract {
    pub fn new() -> (s: Self)
        ensures
            s.admin is None,
            s.balances@ == Map::<Address, i128>::empty(),
            s.nonces@ == Map::<u128, bool>::empty(),
    {
        DecoupledStorageContract { admin: None, protocol_fee_bps: 0, balances: HashMap::new(), nonces: HashMap::new() }
    }

    /// Record the admin and the protocol fee.  Initializing twice panics,
    /// which `requires` leaves out.
    pub fn initialize(&mut self, admin: Address, fee_bps: u32)
        requires
            old(self).admin is None,
        ensures
            *final(self) == (DecoupledStorageContract {
                admin: Some(admin),
                protocol_fee_bps: fee_bps,
                ..*old(self)
            }),
    {
        self.admin = Some(admin);
        self.protocol_fee_bps = fee_bps;
    }

    /// The admin sets a user's balance.
    pub fn set_balance(&mut self, user: Address, amount: i128) -> (r: Result<(), StorageError>)
        ensures
            old(self).admin is None ==> r == Err::<(), StorageError>(StorageError::NotInitialized) && *final(self)
                == *old(self),
            old(self).admin is Some ==> r is Ok && final(self).balances@ == old(self).balances@.insert(user, amount)
                && final(self).admin == old(self).admin && final(self).protocol_fee_bps == old(
                self).protocol_fee_bps && final(self).nonces@ == old(self).nonces@,
    {
        if self.admin.is_none() {
            return Err(StorageError::NotInitialized);
        }
        self.balances.insert(user, amount);
        Ok(())
    }

    /// A user's balance, 0 when none was set.
    pub fn get_balance(&self, user: Address) -> (b: i128)
        ensures
            self.balances@.contains_key(user) ==> b == self.balances@[user],
            !self.balances@.contains_key(user) ==> b == 0,
    {
        match self.balances.get(&user) {
            Some(b) => *b,
            None => 0,
        }
    }

    /// A user spends a nonce; each nonce is accepted once (while its entry
    /// lives).
    pub fn consume_nonce(&mut self, user: Address, nonce: u64) -> (r: Result<(), StorageError>)
        ensures
            old(self).nonces@.contains_key(nonce_key(user, nonce)) ==> r == Err::<(), StorageError>(
                StorageError::NonceExpiredOrInvalid,
            ) && *final(self) == *old(self),
            !old(self).nonces@.contains_key(nonce_key(user, nonce)) ==> r is Ok && final(self).nonces@ == old(
                self).nonces@.insert(nonce_key(user, nonce), true) && final(self).admin == old(self).admin
                && final(self).protocol_fee_bps == old(self).protocol_fee_bps && final(self).balances@ == old(
                self).balances@,
    {
        let k = user as u128 * 0x1_0000_0000_0000_0000 + nonce as u128;
        if self.nonces.contains_key(&k) {
            return Err(StorageError::NonceExpiredOrInvalid);
        }
        self.nonces.insert(k, true);
        Ok(())
    }
}

} // verus!
