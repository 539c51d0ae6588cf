//! Identifiers of the parties and assets that the contracts deal with.

use vstd::prelude::*;

verus! {

/// Whether an address names a key-holding account or a deployed contract.
#[derive(Clone, Copy, Debug, PartialEq, Eq, Structural)]
pub enum AddressKind {
    Account,
    Contract,
}

/// A ledger address: its kind and its 256-bit payload, as two halves.
/// Two addresses are the same party exactly when all three parts agree.
#[derive(Clone, Copy, Debug, PartialEq, Eq, Structural)]
pub struct Address {
    pub kind: AddressKind,
    pub hi: u128,
    pub lo: u128,
}

/// An address in its role as the owner of funds or shares.
pub type AccountId = Address;

/// An address in its role as the contract of a token.
pub type AssetId = Address;

impl Address {
    /// The address of the account whose key is `(hi, lo)`.
    pub fn account(hi: u128, lo: u128) -> (a: Address)
        ensures
            a == (Address { kind: AddressKind::Account, hi, lo }),
    {
        Address { kind: AddressKind::Account, hi, lo }
    }

    /// The address of the contract whose hash is `(hi, lo)`.
    pub fn contract(hi: u128, lo: u128) -> (a: Address)
        ensures
            a == (Address { kind: AddressKind::Contract, hi, lo }),
    {
        Address { kind: AddressKind::Contract, hi, lo }
    }
}

} // verus!
