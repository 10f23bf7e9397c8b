//! Addresses, hashes and signatures.
use crate::u256::U256;
use vstd::prelude::*;

verus! {

/// A 20-byte account address.
#[derive(Debug, Clone, Copy, PartialEq, Eq)]
pub struct Address {
    pub bytes: [u8; 20],
}

impl View for Address {
    type V = Seq<u8>;

    open spec fn view(&self) -> Seq<u8> {
        self.bytes@
    }
}

/// A 32-byte hash.
#[derive(Debug, Clone, Copy, PartialEq, Eq)]
pub struct B256 {
    pub bytes: [u8; 32],
}

impl View for B256 {
    type V = Seq<u8>;

    open spec fn view(&self) -> Seq<u8> {
        self.bytes@
    }
}

/// What a transaction does: create a contract, or call an account.
#[derive(Debug, Clone, Copy, PartialEq, Eq)]
pub enum TxKind {
    Create,
    Call(Address),
}

impl View for TxKind {
    type V = Option<Seq<u8>>;

    /// The bytes of the account called, or `None` for a contract creation.
    open spec fn view(&self) -> Option<Seq<u8>> {
        match *self {
            TxKind::Create => None,
            TxKind::Call(to) => Some(to@),
        }
    }
}

impl TxKind {
    /// Whether this is a contract creation.
    pub fn is_create(&self) -> (create: bool)
        ensures
            create == (self@ is None),
    {
        match self {
            TxKind::Create => true,
            TxKind::Call(_) => false,
        }
    }
}

/// A secp256k1 signature.
#[derive(Debug, Clone, Copy, PartialEq, Eq)]
pub struct Signature {
    pub r: U256,
    pub s: U256,
    pub odd_y_parity: bool,
}

} // verus!
