//! An account: stored data together with the address it is stored at.

use vstd::prelude::*;
use crate::pubkey::Pubkey;

verus! {

/// Data of type `T` held at the address `key`.
#[derive(Clone, Copy, Debug, PartialEq, Eq)]
pub struct Account<T> {
    /// The address of the account.
    pub key: Pubkey,
    /// What the account holds.
    pub data: T,
}

impl<T> Account<T> {
    /// Pairs `data` with the address it lives at.
    pub fn new(key: Pubkey, data: T) -> (account: Account<T>)
        ensures
            account.key == key,
            account.data == data,
    {
        Account { key, data }
    }

    /// The address of the account.
    pub fn key(&self) -> (key: Pubkey)
        ensures
            key == self.key,
    {
        self.key
    }
}

} // verus!
