//! Signed transactions of the OP stack, and what is read off them.
//!
//! Every transaction type has a mathematical counterpart, the type named `..View`, in which byte
//! strings and lists are sequences. The contracts speak of those.
use crate::outside::{
    access_list_items, authorization_items, clone_access_list, clone_authorization_list,
    deposit_encoding, eip1559_encoding, eip2930_encoding, eip7702_encoding, encode_deposit,
    encode_eip1559, encode_eip2930, encode_eip7702, encode_legacy, keccak256, keccak256_digest,
    legacy_encoding,
};
use crate::primitives::{Address, Signature, TxKind, B256};
use crate::u256::{saturating_sum, U256};
use alloy_eips::eip2930::AccessList;
use alloy_eips::eip7702::SignedAuthorization;
use vstd::prelude::*;

verus! {

/// The type byte of legacy transactions.
pub const LEGACY_TX_TYPE_ID: u8 = 0x00;

/// The type byte of EIP-2930 transactions.
pub const EIP2930_TX_TYPE_ID: u8 = 0x01;

/// The type byte of EIP-1559 transactions.
pub const EIP1559_TX_TYPE_ID: u8 = 0x02;

/// The type byte of EIP-4844 blob transactions.
pub const EIP4844_TX_TYPE_ID: u8 = 0x03;

/// The type byte of EIP-7702 transactions.
pub const EIP7702_TX_TYPE_ID: u8 = 0x04;

/// The type byte of deposit transactions.
pub const DEPOSIT_TX_TYPE_ID: u8 = 0x7e;

/// A legacy transaction.
#[derive(Debug, PartialEq, Eq)]
pub struct TxLegacy {
    pub chain_id: Option<u64>,
    pub nonce: u64,
    pub gas_price: u128,
    pub gas_limit: u64,
    pub to: TxKind,
    pub value: U256,
    pub input: Vec<u8>,
}

/// The mathematical counterpart of [`TxLegacy`].
pub struct TxLegacyView {
    pub chain_id: Option<u64>,
    pub nonce: u64,
    pub gas_price: u128,
    pub gas_limit: u64,
    pub to: TxKind,
    pub value: U256,
    pub input: Seq<u8>,
}

impl View for TxLegacy {
    type V = TxLegacyView;

    open spec fn view(&self) -> TxLegacyView {
        TxLegacyView {
            chain_id: self.chain_id,
            nonce: self.nonce,
            gas_price: self.gas_price,
            gas_limit: self.gas_limit,
            to: self.to,
            value: self.value,
            input: self.input@,
        }
    }
}

impl Clone for TxLegacy {
    fn clone(&self) -> (copy: Self)
        ensures
            copy@ == self@,
    {
        TxLegacy {
            chain_id: self.chain_id,
            nonce: self.nonce,
            gas_price: self.gas_price,
            gas_limit: self.gas_limit,
            to: self.to,
            value: self.value,
            input: clone_bytes(&self.input),
        }
    }
}

/// A transaction with an access list.
#[derive(Debug, PartialEq, Eq)]
pub struct TxEip2930 {
    pub chain_id: u64,
    pub nonce: u64,
    pub gas_price: u128,
    pub gas_limit: u64,
    pub to: TxKind,
    pub value: U256,
    pub access_list: AccessList,
    pub input: Vec<u8>,
}

/// The mathematical counterpart of [`TxEip2930`].
pub struct TxEip2930View {
    pub chain_id: u64,
    pub nonce: u64,
    pub gas_price: u128,
    pub gas_limit: u64,
    pub to: TxKind,
    pub value: U256,
    pub access_list: Seq<(Seq<u8>, Seq<Seq<u8>>)>,
    pub input: Seq<u8>,
}

impl View for TxEip2930 {
    type V = TxEip2930View;

    open spec fn view(&self) -> TxEip2930View {
        TxEip2930View {
            chain_id: self.chain_id,
            nonce: self.nonce,
            gas_price: self.gas_price,
            gas_limit: self.gas_limit,
            to: self.to,
            value: self.value,
            access_list: access_list_items(self.access_list),
            input: self.input@,
        }
    }
}

impl Clone for TxEip2930 {
    fn clone(&self) -> (copy: Self)
        ensures
            copy@ == self@,
    {
        TxEip2930 {
            chain_id: self.chain_id,
            nonce: self.nonce,
            gas_price: self.gas_price,
            gas_limit: self.gas_limit,
            to: self.to,
            value: self.value,
            access_list: clone_access_list(&self.access_list),
            input: clone_bytes(&self.input),
        }
    }
}

/// A transaction with a priority fee.
#[derive(Debug, PartialEq, Eq)]
pub struct TxEip1559 {
    pub chain_id: u64,
    pub nonce: u64,
    pub gas_limit: u64,
    pub max_fee_per_gas: u128,
    pub max_priority_fee_per_gas: u128,
    pub to: TxKind,
    pub value: U256,
    pub access_list: AccessList,
    pub input: Vec<u8>,
}

/// The mathematical counterpart of [`TxEip1559`].
pub struct TxEip1559View {
    pub chain_id: u64,
    pub nonce: u64,
    pub gas_limit: u64,
    pub max_fee_per_gas: u128,
    pub max_priority_fee_per_gas: u128,
    pub to: TxKind,
    pub value: U256,
    pub access_list: Seq<(Seq<u8>, Seq<Seq<u8>>)>,
    pub input: Seq<u8>,
}

impl View for TxEip1559 {
    type V = TxEip1559View;

    open spec fn view(&self) -> TxEip1559View {
        TxEip1559View {
            chain_id: self.chain_id,
            nonce: self.nonce,
            gas_limit: self.gas_limit,
            max_fee_per_gas: self.max_fee_per_gas,
            max_priority_fee_per_gas: self.max_priority_fee_per_gas,
            to: self.to,
            value: self.value,
            access_list: access_list_items(self.access_list),
            input: self.input@,
        }
    }
}

impl Clone for TxEip1559 {
    fn clone(&self) -> (copy: Self)
        ensures
            copy@ == self@,
    {
        TxEip1559 {
            chain_id: self.chain_id,
            nonce: self.nonce,
            gas_limit: self.gas_limit,
            max_fee_per_gas: self.max_fee_per_gas,
            max_priority_fee_per_gas: self.max_priority_fee_per_gas,
            to: self.to,
            value: self.value,
            access_list: clone_access_list(&self.access_list),
            input: clone_bytes(&self.input),
        }
    }
}

/// A transaction that sets the code of the accounts that authorized it.
#[derive(Debug, PartialEq, Eq)]
pub struct TxEip7702 {
    pub chain_id: u64,
    pub nonce: u64,
    pub gas_limit: u64,
    pub max_fee_per_gas: u128,
    pub max_priority_fee_per_gas: u128,
    pub to: Address,
    pub value: U256,
    pub access_list: AccessList,
    pub authorization_list: Vec<SignedAuthorization>,
    pub input: Vec<u8>,
}

/// The mathematical counterpart of [`TxEip7702`].
pub struct TxEip7702View {
    pub chain_id: u64,
    pub nonce: u64,
    pub gas_limit: u64,
    pub max_fee_per_gas: u128,
    pub max_priority_fee_per_gas: u128,
    pub to: Address,
    pub value: U256,
    pub access_list: Seq<(Seq<u8>, Seq<Seq<u8>>)>,
    pub authorization_list: Seq<(nat, Seq<u8>, u64, u8, nat, nat)>,
    pub input: Seq<u8>,
    /// The length of the authorization list.
    pub authorization_count: nat,
}

impl View for TxEip7702 {
    type V = TxEip7702View;

    open spec fn view(&self) -> TxEip7702View {
        TxEip7702View {
            chain_id: self.chain_id,
            nonce: self.nonce,
            gas_limit: self.gas_limit,
            max_fee_per_gas: self.max_fee_per_gas,
            max_priority_fee_per_gas: self.max_priority_fee_per_gas,
            to: self.to,
            value: self.value,
            access_list: access_list_items(self.access_list),
            authorization_list: authorization_items(self.authorization_list),
            input: self.input@,
            authorization_count: self.authorization_list@.len(),
        }
    }
}

impl Clone for TxEip7702 {
    fn clone(&self) -> (copy: Self)
        ensures
            copy@ == self@,
    {
        TxEip7702 {
            chain_id: self.chain_id,
            nonce: self.nonce,
            gas_limit: self.gas_limit,
            max_fee_per_gas: self.max_fee_per_gas,
            max_priority_fee_per_gas: self.max_priority_fee_per_gas,
            to: self.to,
            value: self.value,
            access_list: clone_access_list(&self.access_list),
            authorization_list: clone_authorization_list(&self.authorization_list),
            input: clone_bytes(&self.input),
        }
    }
}

/// A deposit, started on L1 and executed on L2. It carries no signature.
#[derive(Debug, PartialEq, Eq)]
pub struct TxDeposit {
    pub source_hash: B256,
    pub from: Address,
    pub to: TxKind,
    pub mint: Option<u128>,
    pub value: U256,
    pub gas_limit: u64,
    pub is_system_transaction: bool,
    pub input: Vec<u8>,
}

/// The mathematical counterpart of [`TxDeposit`].
pub struct TxDepositView {
    pub source_hash: B256,
    pub from: Address,
    pub to: TxKind,
    pub mint: Option<u128>,
    pub value: U256,
    pub gas_limit: u64,
    pub is_system_transaction: bool,
    pub input: Seq<u8>,
}

impl View for TxDeposit {
    type V = TxDepositView;

    open spec fn view(&self) -> TxDepositView {
        TxDepositView {
            source_hash: self.source_hash,
            from: self.from,
            to: self.to,
            mint: self.mint,
            value: self.value,
            gas_limit: self.gas_limit,
            is_system_transaction: self.is_system_transaction,
            input: self.input@,
        }
    }
}

impl Clone for TxDeposit {
    fn clone(&self) -> (copy: Self)
        ensures
            copy@ == self@,
    {
        TxDeposit {
            source_hash: self.source_hash,
            from: self.from,
            to: self.to,
            mint: self.mint,
            value: self.value,
            gas_limit: self.gas_limit,
            is_system_transaction: self.is_system_transaction,
            input: clone_bytes(&self.input),
        }
    }
}

/// A copy of a byte string.
fn clone_bytes(bytes: &Vec<u8>) -> (copy: Vec<u8>)
    ensures
        copy@ == bytes@,
{
    let copy = bytes.clone();
    assert(copy@ =~= bytes@);
    copy
}

/// A transaction of any type, unsigned.
#[derive(Debug, PartialEq, Eq)]
pub enum OpTypedTransaction {
    Legacy(TxLegacy),
    Eip2930(TxEip2930),
    Eip1559(TxEip1559),
    Eip7702(TxEip7702),
    Deposit(TxDeposit),
}

/// The mathematical counterpart of [`OpTypedTransaction`].
pub enum OpTypedTransactionView {
    Legacy(TxLegacyView),
    Eip2930(TxEip2930View),
    Eip1559(TxEip1559View),
    Eip7702(TxEip7702View),
    Deposit(TxDepositView),
}

impl View for OpTypedTransaction {
    type V = OpTypedTransactionView;

    open spec fn view(&self) -> OpTypedTransactionView {
        match *self {
            OpTypedTransaction::Legacy(tx) => OpTypedTransactionView::Legacy(tx@),
            OpTypedTransaction::Eip2930(tx) => OpTypedTransactionView::Eip2930(tx@),
            OpTypedTransaction::Eip1559(tx) => OpTypedTransactionView::Eip1559(tx@),
            OpTypedTransaction::Eip7702(tx) => OpTypedTransactionView::Eip7702(tx@),
            OpTypedTransaction::Deposit(tx) => OpTypedTransactionView::Deposit(tx@),
        }
    }
}

impl Clone for OpTypedTransaction {
    fn clone(&self) -> (copy: Self)
        ensures
            copy@ == self@,
    {
        match self {
            OpTypedTransaction::Legacy(tx) => OpTypedTransaction::Legacy(tx.clone()),
            OpTypedTransaction::Eip2930(tx) => OpTypedTransaction::Eip2930(tx.clone()),
            OpTypedTransaction::Eip1559(tx) => OpTypedTransaction::Eip1559(tx.clone()),
            OpTypedTransaction::Eip7702(tx) => OpTypedTransaction::Eip7702(tx.clone()),
            OpTypedTransaction::Deposit(tx) => OpTypedTransaction::Deposit(tx.clone()),
        }
    }
}

impl OpTypedTransactionView {
    /// The type byte of the transaction.
    pub open spec fn tx_type(self) -> u8 {
        match self {
            OpTypedTransactionView::Legacy(_) => LEGACY_TX_TYPE_ID,
            OpTypedTransactionView::Eip2930(_) => EIP2930_TX_TYPE_ID,
            OpTypedTransactionView::Eip1559(_) => EIP1559_TX_TYPE_ID,
            OpTypedTransactionView::Eip7702(_) => EIP7702_TX_TYPE_ID,
            OpTypedTransactionView::Deposit(_) => DEPOSIT_TX_TYPE_ID,
        }
    }

    /// The chain the transaction is bound to, if it is. A deposit is bound to none.
    pub open spec fn chain_id(self) -> Option<u64> {
        match self {
            OpTypedTransactionView::Legacy(tx) => tx.chain_id,
            OpTypedTransactionView::Eip2930(tx) => Some(tx.chain_id),
            OpTypedTransactionView::Eip1559(tx) => Some(tx.chain_id),
            OpTypedTransactionView::Eip7702(tx) => Some(tx.chain_id),
            OpTypedTransactionView::Deposit(_) => None,
        }
    }

    /// The sender's transaction count. A deposit has none and counts as zero.
    pub open spec fn nonce(self) -> u64 {
        match self {
            OpTypedTransactionView::Legacy(tx) => tx.nonce,
            OpTypedTransactionView::Eip2930(tx) => tx.nonce,
            OpTypedTransactionView::Eip1559(tx) => tx.nonce,
            OpTypedTransactionView::Eip7702(tx) => tx.nonce,
            OpTypedTransactionView::Deposit(_) => 0,
        }
    }

    /// The most gas the transaction may use.
    pub open spec fn gas_limit(self) -> u64 {
        match self {
            OpTypedTransactionView::Legacy(tx) => tx.gas_limit,
            OpTypedTransactionView::Eip2930(tx) => tx.gas_limit,
            OpTypedTransactionView::Eip1559(tx) => tx.gas_limit,
            OpTypedTransactionView::Eip7702(tx) => tx.gas_limit,
            OpTypedTransactionView::Deposit(tx) => tx.gas_limit,
        }
    }

    /// The most the sender pays per gas: the gas price where there is one. A deposit pays nothing.
    pub open spec fn max_fee_per_gas(self) -> u128 {
        match self {
            OpTypedTransactionView::Legacy(tx) => tx.gas_price,
            OpTypedTransactionView::Eip2930(tx) => tx.gas_price,
            OpTypedTransactionView::Eip1559(tx) => tx.max_fee_per_gas,
            OpTypedTransactionView::Eip7702(tx) => tx.max_fee_per_gas,
            OpTypedTransactionView::Deposit(_) => 0,
        }
    }

    /// The most the sender pays per gas to the block's author, where the type has such a field.
    pub open spec fn max_priority_fee_per_gas(self) -> Option<u128> {
        match self {
            OpTypedTransactionView::Legacy(_) => None,
            OpTypedTransactionView::Eip2930(_) => None,
            OpTypedTransactionView::Eip1559(tx) => Some(tx.max_priority_fee_per_gas),
            OpTypedTransactionView::Eip7702(tx) => Some(tx.max_priority_fee_per_gas),
            OpTypedTransactionView::Deposit(_) => None,
        }
    }

    /// The most the sender pays per blob gas. No type of the OP stack has blobs.
    pub open spec fn max_fee_per_blob_gas(self) -> Option<u128> {
        match self {
            OpTypedTransactionView::Legacy(_) => None,
            OpTypedTransactionView::Eip2930(_) => None,
            OpTypedTransactionView::Eip1559(_) => None,
            OpTypedTransactionView::Eip7702(_) => None,
            OpTypedTransactionView::Deposit(_) => None,
        }
    }

    /// The priority fee where the type has one, else the gas price. Zero for a deposit.
    pub open spec fn priority_fee_or_price(self) -> u128 {
        match self {
            OpTypedTransactionView::Legacy(tx) => tx.gas_price,
            OpTypedTransactionView::Eip2930(tx) => tx.gas_price,
            OpTypedTransactionView::Eip1559(tx) => tx.max_priority_fee_per_gas,
            OpTypedTransactionView::Eip7702(tx) => tx.max_priority_fee_per_gas,
            OpTypedTransactionView::Deposit(_) => 0,
        }
    }

    /// Whether the transaction creates a contract or calls an account.
    pub open spec fn kind(self) -> TxKind {
        match self {
            OpTypedTransactionView::Legacy(tx) => tx.to,
            OpTypedTransactionView::Eip2930(tx) => tx.to,
            OpTypedTransactionView::Eip1559(tx) => tx.to,
            OpTypedTransactionView::Eip7702(tx) => TxKind::Call(tx.to),
            OpTypedTransactionView::Deposit(tx) => tx.to,
        }
    }

    /// The amount transferred.
    pub open spec fn value(self) -> U256 {
        match self {
            OpTypedTransactionView::Legacy(tx) => tx.value,
            OpTypedTransactionView::Eip2930(tx) => tx.value,
            OpTypedTransactionView::Eip1559(tx) => tx.value,
            OpTypedTransactionView::Eip7702(tx) => tx.value,
            OpTypedTransactionView::Deposit(tx) => tx.value,
        }
    }

    /// The call data, or the code that initialises the contract created.
    pub open spec fn input(self) -> Seq<u8> {
        match self {
            OpTypedTransactionView::Legacy(tx) => tx.input,
            OpTypedTransactionView::Eip2930(tx) => tx.input,
            OpTypedTransactionView::Eip1559(tx) => tx.input,
            OpTypedTransactionView::Eip7702(tx) => tx.input,
            OpTypedTransactionView::Deposit(tx) => tx.input,
        }
    }

    /// The access list, where the type has one.
    pub open spec fn access_list(self) -> Option<Seq<(Seq<u8>, Seq<Seq<u8>>)>> {
        match self {
            OpTypedTransactionView::Legacy(_) => None,
            OpTypedTransactionView::Eip2930(tx) => Some(tx.access_list),
            OpTypedTransactionView::Eip1559(tx) => Some(tx.access_list),
            OpTypedTransactionView::Eip7702(tx) => Some(tx.access_list),
            OpTypedTransactionView::Deposit(_) => None,
        }
    }

    /// The number of EIP-7702 authorizations.
    pub open spec fn authorization_count(self) -> nat {
        match self {
            OpTypedTransactionView::Eip7702(tx) => tx.authorization_count,
            _ => 0,
        }
    }

    /// What the block's author earns per gas at the given base fee: what the fee cap leaves above
    /// the base fee, and no more than the priority fee where there is one. `None` where the fee cap
    /// is below the base fee.
    pub open spec fn effective_tip_per_gas(self, base_fee: u64) -> Option<u128> {
        if self.max_fee_per_gas() < base_fee {
            None
        } else {
            let fee = (self.max_fee_per_gas() - base_fee) as u128;
            match self.max_priority_fee_per_gas() {
                Some(priority_fee) if priority_fee < fee => Some(priority_fee),
                _ => Some(fee),
            }
        }
    }

    /// The most the sender pays in all: the gas limit at the fee cap, and the amount transferred.
    pub open spec fn max_cost(self) -> nat {
        saturating_sum((self.max_fee_per_gas() * self.gas_limit()) as nat, self.value()@)
    }

    /// The EIP-2718 encoding of the transaction with the given signature. A deposit is encoded
    /// without one.
    pub open spec fn encoding(self, signature: Signature) -> Seq<u8> {
        match self {
            OpTypedTransactionView::Legacy(tx) => legacy_encoding(
                tx.chain_id,
                tx.nonce,
                tx.gas_price,
                tx.gas_limit,
                tx.to@,
                tx.value@,
                tx.input,
                signature.r@,
                signature.s@,
                signature.odd_y_parity,
            ),
            OpTypedTransactionView::Eip2930(tx) => eip2930_encoding(
                tx.chain_id,
                tx.nonce,
                tx.gas_price,
                tx.gas_limit,
                tx.to@,
                tx.value@,
                tx.access_list,
                tx.input,
                signature.r@,
                signature.s@,
                signature.odd_y_parity,
            ),
            OpTypedTransactionView::Eip1559(tx) => eip1559_encoding(
                tx.chain_id,
                tx.nonce,
                tx.gas_limit,
                tx.max_fee_per_gas,
                tx.max_priority_fee_per_gas,
                tx.to@,
                tx.value@,
                tx.access_list,
                tx.input,
                signature.r@,
                signature.s@,
                signature.odd_y_parity,
            ),
            OpTypedTransactionView::Eip7702(tx) => eip7702_encoding(
                tx.chain_id,
                tx.nonce,
                tx.gas_limit,
                tx.max_fee_per_gas,
                tx.max_priority_fee_per_gas,
                tx.to@,
                tx.value@,
                tx.access_list,
                tx.authorization_list,
                tx.input,
                signature.r@,
                signature.s@,
                signature.odd_y_parity,
            ),
            OpTypedTransactionView::Deposit(tx) => deposit_encoding(
                tx.source_hash@,
                tx.from@,
                tx.to@,
                tx.mint,
                tx.value@,
                tx.gas_limit,
                tx.is_system_transaction,
                tx.input,
            ),
        }
    }
}

impl OpTypedTransaction {
    /// The type byte of the transaction.
    pub fn tx_type(&self) -> (r: u8)
        ensures
            r == self@.tx_type(),
    {
        match self {
            OpTypedTransaction::Legacy(_) => LEGACY_TX_TYPE_ID,
            OpTypedTransaction::Eip2930(_) => EIP2930_TX_TYPE_ID,
            OpTypedTransaction::Eip1559(_) => EIP1559_TX_TYPE_ID,
            OpTypedTransaction::Eip7702(_) => EIP7702_TX_TYPE_ID,
            OpTypedTransaction::Deposit(_) => DEPOSIT_TX_TYPE_ID,
        }
    }

    /// The chain the transaction is bound to, if it is. A deposit is bound to none.
    pub fn chain_id(&self) -> (r: Option<u64>)
        ensures
            r == self@.chain_id(),
    {
        match self {
            OpTypedTransaction::Legacy(tx) => tx.chain_id,
            OpTypedTransaction::Eip2930(tx) => Some(tx.chain_id),
            OpTypedTransaction::Eip1559(tx) => Some(tx.chain_id),
            OpTypedTransaction::Eip7702(tx) => Some(tx.chain_id),
            OpTypedTransaction::Deposit(_) => None,
        }
    }

    /// The sender's transaction count. A deposit has none and counts as zero.
    pub fn nonce(&self) -> (r: u64)
        ensures
            r == self@.nonce(),
    {
        match self {
            OpTypedTransaction::Legacy(tx) => tx.nonce,
            OpTypedTransaction::Eip2930(tx) => tx.nonce,
            OpTypedTransaction::Eip1559(tx) => tx.nonce,
            OpTypedTransaction::Eip7702(tx) => tx.nonce,
            OpTypedTransaction::Deposit(_) => 0,
        }
    }

    /// The most gas the transaction may use.
    pub fn gas_limit(&self) -> (r: u64)
        ensures
            r == self@.gas_limit(),
    {
        match self {
            OpTypedTransaction::Legacy(tx) => tx.gas_limit,
            OpTypedTransaction::Eip2930(tx) => tx.gas_limit,
            OpTypedTransaction::Eip1559(tx) => tx.gas_limit,
            OpTypedTransaction::Eip7702(tx) => tx.gas_limit,
            OpTypedTransaction::Deposit(tx) => tx.gas_limit,
        }
    }

    /// The most the sender pays per gas: the gas price where there is one. A deposit pays nothing.
    pub fn max_fee_per_gas(&self) -> (r: u128)
        ensures
            r == self@.max_fee_per_gas(),
    {
        match self {
            OpTypedTransaction::Legacy(tx) => tx.gas_price,
            OpTypedTransaction::Eip2930(tx) => tx.gas_price,
            OpTypedTransaction::Eip1559(tx) => tx.max_fee_per_gas,
            OpTypedTransaction::Eip7702(tx) => tx.max_fee_per_gas,
            OpTypedTransaction::Deposit(_) => 0,
        }
    }

    /// The most the sender pays per gas to the block's author, where the type has such a field.
    pub fn max_priority_fee_per_gas(&self) -> (r: Option<u128>)
        ensures
            r == self@.max_priority_fee_per_gas(),
    {
        match self {
            OpTypedTransaction::Legacy(_) => None,
            OpTypedTransaction::Eip2930(_) => None,
            OpTypedTransaction::Eip1559(tx) => Some(tx.max_priority_fee_per_gas),
            OpTypedTransaction::Eip7702(tx) => Some(tx.max_priority_fee_per_gas),
            OpTypedTransaction::Deposit(_) => None,
        }
    }

    /// The most the sender pays per blob gas. No type of the OP stack has blobs.
    pub fn max_fee_per_blob_gas(&self) -> (r: Option<u128>)
        ensures
            r == self@.max_fee_per_blob_gas(),
    {
        match self {
            OpTypedTransaction::Legacy(_) => None,
            OpTypedTransaction::Eip2930(_) => None,
            OpTypedTransaction::Eip1559(_) => None,
            OpTypedTransaction::Eip7702(_) => None,
            OpTypedTransaction::Deposit(_) => None,
        }
    }

    /// The priority fee where the type has one, else the gas price. Zero for a deposit.
    pub fn priority_fee_or_price(&self) -> (r: u128)
        ensures
            r == self@.priority_fee_or_price(),
    {
        match self {
            OpTypedTransaction::Legacy(tx) => tx.gas_price,
            OpTypedTransaction::Eip2930(tx) => tx.gas_price,
            OpTypedTransaction::Eip1559(tx) => tx.max_priority_fee_per_gas,
            OpTypedTransaction::Eip7702(tx) => tx.max_priority_fee_per_gas,
            OpTypedTransaction::Deposit(_) => 0,
        }
    }

    /// Whether the transaction creates a contract or calls an account.
    pub fn kind(&self) -> (r: TxKind)
        ensures
            r == self@.kind(),
    {
        match self {
            OpTypedTransaction::Legacy(tx) => tx.to,
            OpTypedTransaction::Eip2930(tx) => tx.to,
            OpTypedTransaction::Eip1559(tx) => tx.to,
            OpTypedTransaction::Eip7702(tx) => TxKind::Call(tx.to),
            OpTypedTransaction::Deposit(tx) => tx.to,
        }
    }

    /// The amount transferred.
    pub fn value(&self) -> (r: U256)
        ensures
            r == self@.value(),
    {
        match self {
            OpTypedTransaction::Legacy(tx) => tx.value,
            OpTypedTransaction::Eip2930(tx) => tx.value,
            OpTypedTransaction::Eip1559(tx) => tx.value,
            OpTypedTransaction::Eip7702(tx) => tx.value,
            OpTypedTransaction::Deposit(tx) => tx.value,
        }
    }

    /// The call data, or the code that initialises the contract created.
    pub fn input(&self) -> (bytes: &Vec<u8>)
        ensures
            bytes@ == self@.input(),
    {
        match self {
            OpTypedTransaction::Legacy(tx) => &tx.input,
            OpTypedTransaction::Eip2930(tx) => &tx.input,
            OpTypedTransaction::Eip1559(tx) => &tx.input,
            OpTypedTransaction::Eip7702(tx) => &tx.input,
            OpTypedTransaction::Deposit(tx) => &tx.input,
        }
    }

    /// The access list, where the type has one.
    pub fn access_list(&self) -> (list: Option<&AccessList>)
        ensures
            list is Some == self@.access_list() is Some,
            list is Some ==> Some(access_list_items(*list->0)) == self@.access_list(),
    {
        match self {
            OpTypedTransaction::Legacy(_) => None,
            OpTypedTransaction::Eip2930(tx) => Some(&tx.access_list),
            OpTypedTransaction::Eip1559(tx) => Some(&tx.access_list),
            OpTypedTransaction::Eip7702(tx) => Some(&tx.access_list),
            OpTypedTransaction::Deposit(_) => None,
        }
    }

    /// Whether the transaction creates a contract.
    pub fn is_create(&self) -> (create: bool)
        ensures
            create == (self@.kind()@ is None),
    {
        match self {
            OpTypedTransaction::Legacy(tx) => tx.to.is_create(),
            OpTypedTransaction::Eip2930(tx) => tx.to.is_create(),
            OpTypedTransaction::Eip1559(tx) => tx.to.is_create(),
            OpTypedTransaction::Eip7702(_) => false,
            OpTypedTransaction::Deposit(tx) => tx.to.is_create(),
        }
    }

    /// What the block's author earns per gas at the given base fee.
    pub fn effective_tip_per_gas(&self, base_fee: u64) -> (tip: Option<u128>)
        ensures
            tip == self@.effective_tip_per_gas(base_fee),
    {
        let max_fee_per_gas = self.max_fee_per_gas();
        if max_fee_per_gas < base_fee as u128 {
            return None;
        }
        let fee: u128 = max_fee_per_gas - base_fee as u128;
        match self.max_priority_fee_per_gas() {
            Some(priority_fee) if priority_fee < fee => Some(priority_fee),
            _ => Some(fee),
        }
    }

    /// The most the sender pays in all.
    pub fn max_cost(&self) -> (cost: U256)
        ensures
            cost@ == self@.max_cost(),
            self@.max_fee_per_gas() * self@.gas_limit() + self@.value()@
                <= 0xffff_ffff_ffff_ffff_ffff_ffff_ffff_ffff_ffff_ffff_ffff_ffff_ffff_ffff_ffff_ffff
                ==> cost@ == self@.max_fee_per_gas() * self@.gas_limit() + self@.value()@,
            cost@ >= self@.value()@,
    {
        U256::wide_product(self.max_fee_per_gas(), self.gas_limit()).saturating_add(self.value())
    }

    /// The number of EIP-7702 authorizations.
    pub fn authorization_count(&self) -> (count: usize)
        ensures
            count == self@.authorization_count(),
    {
        match self {
            OpTypedTransaction::Eip7702(tx) => tx.authorization_list.len(),
            _ => 0,
        }
    }
}

impl TxLegacy {
    /// The EIP-2718 encoding with the given signature.
    pub fn encoded_2718(&self, signature: &Signature) -> (encoding: Vec<u8>)
        ensures
            encoding@ == OpTypedTransactionView::Legacy(self@).encoding(*signature),
    {
        encode_legacy(
            self.chain_id,
            self.nonce,
            self.gas_price,
            self.gas_limit,
            self.to,
            self.value,
            &self.input,
            signature,
        )
    }
}

impl TxEip2930 {
    /// The EIP-2718 encoding with the given signature, which starts with the type byte.
    pub fn encoded_2718(&self, signature: &Signature) -> (encoding: Vec<u8>)
        ensures
            encoding@ == OpTypedTransactionView::Eip2930(self@).encoding(*signature),
            encoding@.len() > 0 && encoding@[0] == EIP2930_TX_TYPE_ID,
    {
        encode_eip2930(
            self.chain_id,
            self.nonce,
            self.gas_price,
            self.gas_limit,
            self.to,
            self.value,
            &self.access_list,
            &self.input,
            signature,
        )
    }
}

impl TxEip1559 {
    /// The EIP-2718 encoding with the given signature, which starts with the type byte.
    pub fn encoded_2718(&self, signature: &Signature) -> (encoding: Vec<u8>)
        ensures
            encoding@ == OpTypedTransactionView::Eip1559(self@).encoding(*signature),
            encoding@.len() > 0 && encoding@[0] == EIP1559_TX_TYPE_ID,
    {
        encode_eip1559(
            self.chain_id,
            self.nonce,
            self.gas_limit,
            self.max_fee_per_gas,
            self.max_priority_fee_per_gas,
            self.to,
            self.value,
            &self.access_list,
            &self.input,
            signature,
        )
    }
}

impl TxEip7702 {
    /// The EIP-2718 encoding with the given signature, which starts with the type byte.
    pub fn encoded_2718(&self, signature: &Signature) -> (encoding: Vec<u8>)
        ensures
            encoding@ == OpTypedTransactionView::Eip7702(self@).encoding(*signature),
            encoding@.len() > 0 && encoding@[0] == EIP7702_TX_TYPE_ID,
    {
        encode_eip7702(
            self.chain_id,
            self.nonce,
            self.gas_limit,
            self.max_fee_per_gas,
            self.max_priority_fee_per_gas,
            self.to,
            self.value,
            &self.access_list,
            &self.authorization_list,
            &self.input,
            signature,
        )
    }
}

/// A signed transaction of any type, with its hash.
#[derive(Debug, PartialEq, Eq)]
pub struct OpTransactionSigned {
    pub hash: B256,
    pub signature: Signature,
    pub transaction: OpTypedTransaction,
}

/// The mathematical counterpart of [`OpTransactionSigned`].
pub struct OpTransactionSignedView {
    pub hash: B256,
    pub signature: Signature,
    pub transaction: OpTypedTransactionView,
}

impl OpTransactionSignedView {
    /// The EIP-2718 encoding.
    pub open spec fn encoding(self) -> Seq<u8> {
        self.transaction.encoding(self.signature)
    }
}

impl View for OpTransactionSigned {
    type V = OpTransactionSignedView;

    open spec fn view(&self) -> OpTransactionSignedView {
        OpTransactionSignedView {
            hash: self.hash,
            signature: self.signature,
            transaction: self.transaction@,
        }
    }
}

impl Clone for OpTransactionSigned {
    fn clone(&self) -> (copy: Self)
        ensures
            copy@ == self@,
    {
        OpTransactionSigned {
            hash: self.hash,
            signature: self.signature,
            transaction: self.transaction.clone(),
        }
    }
}

impl OpTransactionSigned {
    /// A signed transaction of the given parts. The hash is taken as it is.
    pub fn new(transaction: OpTypedTransaction, signature: Signature, hash: B256) -> (tx: Self)
        ensures
            tx == (OpTransactionSigned { hash, signature, transaction }),
    {
        OpTransactionSigned { hash, signature, transaction }
    }

    /// A signed transaction of the given parts, with the Keccak-256 digest of its encoding for a
    /// hash.
    pub fn new_unhashed(transaction: OpTypedTransaction, signature: Signature) -> (tx: Self)
        ensures
            tx.transaction == transaction,
            tx.signature == signature,
            tx.hash@ == keccak256_digest(transaction@.encoding(signature)),
    {
        let hash = B256 { bytes: [0; 32] };
        let unhashed = OpTransactionSigned { hash, signature, transaction };
        let hash = keccak256(unhashed.encoded_2718().as_slice());
        OpTransactionSigned { hash, ..unhashed }
    }

    /// The EIP-2718 encoding. That of a typed transaction starts with the type byte.
    pub fn encoded_2718(&self) -> (encoding: Vec<u8>)
        ensures
            encoding@ == self@.encoding(),
            self@.transaction.tx_type() != LEGACY_TX_TYPE_ID ==> encoding@.len() > 0
                && encoding@[0] == self@.transaction.tx_type(),
    {
        match &self.transaction {
            OpTypedTransaction::Legacy(tx) => tx.encoded_2718(&self.signature),
            OpTypedTransaction::Eip2930(tx) => tx.encoded_2718(&self.signature),
            OpTypedTransaction::Eip1559(tx) => tx.encoded_2718(&self.signature),
            OpTypedTransaction::Eip7702(tx) => tx.encoded_2718(&self.signature),
            OpTypedTransaction::Deposit(tx) => encode_deposit(
                tx.source_hash,
                tx.from,
                tx.to,
                tx.mint,
                tx.value,
                tx.gas_limit,
                tx.is_system_transaction,
                &tx.input,
            ),
        }
    }

    /// The length of the EIP-2718 encoding.
    pub fn encode_2718_len(&self) -> (length: usize)
        ensures
            length == self@.encoding().len(),
    {
        self.encoded_2718().len()
    }
}

/// A tip is paid if and only if the fee cap reaches the base fee. It and the base fee stay within
/// the fee cap together, and it stays within the priority fee where there is one.
pub proof fn tip_stays_within_caps(tx: OpTypedTransactionView, base_fee: u64)
    ensures
        tx.effective_tip_per_gas(base_fee) is Some == (base_fee <= tx.max_fee_per_gas()),
        tx.effective_tip_per_gas(base_fee) matches Some(tip) ==> {
            &&& tip + base_fee <= tx.max_fee_per_gas()
            &&& tx.max_priority_fee_per_gas() matches Some(priority_fee) ==> tip <= priority_fee
        },
{
}

/// A transaction together with the account that signed it.
#[derive(Debug)]
pub struct Recovered<T> {
    pub transaction: T,
    pub signer: Address,
}

impl<T> Recovered<T> {
    /// Pairs a transaction with its signer, which is not checked.
    pub fn new_unchecked(transaction: T, signer: Address) -> (r: Self)
        ensures
            r == (Recovered { transaction, signer }),
    {
        Recovered { transaction, signer }
    }

    /// The transaction and its signer.
    pub fn into_parts(self) -> (parts: (T, Address))
        ensures
            parts == (self.transaction, self.signer),
    {
        (self.transaction, self.signer)
    }
}

} // verus!
