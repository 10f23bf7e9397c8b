//! What this library takes from the crates that define Ethereum and OP stack transactions.
//!
//! The contracts in this file are believed, not proved. Each says of one function of another crate
//! what the rest of the library relies on.
use crate::primitives::{Address, Signature, TxKind, B256};
use crate::u256::U256;
use alloy_consensus::transaction::RlpEcdsaTx;
use alloy_eips::eip2718::Encodable2718;
use alloy_eips::eip2930::AccessList;
use alloy_eips::eip7702::SignedAuthorization;
use alloy_primitives::PrimitiveSignature;
use alloy_primitives::TxKind as Kind;
use alloy_primitives::U256 as Uint;
use revm::L1BlockInfo;
use vstd::prelude::*;

verus! {

/// The EIP-2930 access list of `alloy_eips`, carried through without being looked into.
#[verifier::external_type_specification]
#[verifier::external_body]
pub struct ExAccessList(alloy_eips::eip2930::AccessList);

/// One item of an [`AccessList`].
#[verifier::external_type_specification]
#[verifier::external_body]
pub struct ExAccessListItem(alloy_eips::eip2930::AccessListItem);

/// The signed EIP-7702 authorization of `alloy_eips`, carried through without being looked into.
#[verifier::external_type_specification]
#[verifier::external_body]
pub struct ExSignedAuthorization(alloy_eips::eip7702::SignedAuthorization);

/// The blob sidecar of `alloy_eips`, carried through without being looked into.
#[verifier::external_type_specification]
#[verifier::external_body]
pub struct ExBlobTransactionSidecar(alloy_eips::eip4844::BlobTransactionSidecar);

/// The L1 block info of `revm`: the fee parameters of L1 that the system transaction of an L2 block
/// brings. The library keeps it and hands it on.
#[verifier::external_type_specification]
#[verifier::external_body]
pub struct ExL1BlockInfo(revm::L1BlockInfo);

/// The fields of an L1 block info.
pub struct L1BlockInfoFields {
    pub l1_base_fee: nat,
    pub l1_fee_overhead: Option<nat>,
    pub l1_base_fee_scalar: nat,
    pub l1_blob_base_fee: Option<nat>,
    pub l1_blob_base_fee_scalar: Option<nat>,
    pub operator_fee_scalar: Option<nat>,
    pub operator_fee_constant: Option<nat>,
    pub empty_ecotone_scalars: bool,
    pub tx_l1_cost: Option<nat>,
}

impl L1BlockInfoFields {
    /// Before any block was seen: no fee, and nothing known that an upgrade brought.
    pub open spec fn empty() -> L1BlockInfoFields {
        L1BlockInfoFields {
            l1_base_fee: 0,
            l1_fee_overhead: None,
            l1_base_fee_scalar: 0,
            l1_blob_base_fee: None,
            l1_blob_base_fee_scalar: None,
            operator_fee_scalar: None,
            operator_fee_constant: None,
            empty_ecotone_scalars: false,
            tx_l1_cost: None,
        }
    }
}

/// What the fields of an L1 block info hold. It has no others.
pub uninterp spec fn l1_block_info_fields(info: L1BlockInfo) -> L1BlockInfoFields;

/// Calls `L1BlockInfo::default`, which `revm` derives: integers are zero, options are `None` and
/// the `bool` is `false`. These are all its fields, so another value that holds the same is the
/// same.
#[verifier::external_body]
pub(crate) fn default_l1_block_info() -> (info: L1BlockInfo)
    ensures
        l1_block_info_fields(info) == L1BlockInfoFields::empty(),
        forall|other: L1BlockInfo| #[trigger]
            l1_block_info_fields(other) == L1BlockInfoFields::empty() ==> other == info,
{
    L1BlockInfo::default()
}

/// Calls `L1BlockInfo::clone`, which `revm` derives. Every field is an integer, a `bool` or an
/// option of an integer, so the copy is the same value.
#[verifier::external_body]
pub(crate) fn clone_l1_block_info(info: &L1BlockInfo) -> (copy: L1BlockInfo)
    ensures
        copy == *info,
{
    info.clone()
}

/// What an access list holds: each address with its storage keys, in order.
pub uninterp spec fn access_list_items(list: AccessList) -> Seq<(Seq<u8>, Seq<Seq<u8>>)>;

/// What an authorization list holds, in order: the chain id, the address and the nonce of each
/// authorization, then its parity, `r` and `s`.
pub uninterp spec fn authorization_items(list: Vec<SignedAuthorization>) -> Seq<
    (nat, Seq<u8>, u64, u8, nat, nat),
>;

/// Calls `AccessList::clone`: the copy holds the same items.
#[verifier::external_body]
pub(crate) fn clone_access_list(list: &AccessList) -> (copy: AccessList)
    ensures
        access_list_items(copy) == access_list_items(*list),
{
    list.clone()
}

/// Calls `clone` on a list of `SignedAuthorization`: the copy has the same length and holds the
/// same items.
#[verifier::external_body]
pub(crate) fn clone_authorization_list(list: &Vec<SignedAuthorization>) -> (copy: Vec<
    SignedAuthorization,
>)
    ensures
        copy@.len() == list@.len(),
        authorization_items(copy) == authorization_items(*list),
{
    list.clone()
}

/// The EIP-2718 encoding of a legacy transaction with its signature.
pub uninterp spec fn legacy_encoding(
    chain_id: Option<u64>,
    nonce: u64,
    gas_price: u128,
    gas_limit: u64,
    to: Option<Seq<u8>>,
    value: nat,
    input: Seq<u8>,
    r: nat,
    s: nat,
    odd_y_parity: bool,
) -> Seq<u8>;

/// Calls `TxLegacy::eip2718_encode` of `alloy_consensus`. What it writes depends on the
/// transaction's fields and the signature alone.
#[verifier::external_body]
pub(crate) fn encode_legacy(
    chain_id: Option<u64>,
    nonce: u64,
    gas_price: u128,
    gas_limit: u64,
    to: TxKind,
    value: U256,
    input: &Vec<u8>,
    signature: &Signature,
) -> (encoding: Vec<u8>)
    ensures
        encoding@ == legacy_encoding(
            chain_id,
            nonce,
            gas_price,
            gas_limit,
            to@,
            value@,
            input@,
            signature.r@,
            signature.s@,
            signature.odd_y_parity,
        ),
{
    let to = match to {
        TxKind::Create => Kind::Create,
        TxKind::Call(a) => Kind::Call(a.bytes.into()),
    };
    let value = Uint::from_limbs(value.limbs);
    let tx = alloy_consensus::TxLegacy {
        chain_id, nonce, gas_price, gas_limit, to, value, input: input.clone().into(),
    };
    let (r, s) = (signature.r.limbs, signature.s.limbs);
    let (r, s) = (Uint::from_limbs(r), Uint::from_limbs(s));
    let mut out = Vec::new();
    tx.eip2718_encode(&PrimitiveSignature::new(r, s, signature.odd_y_parity), &mut out);
    out
}

/// The EIP-2718 encoding of an EIP-2930 transaction with its signature.
pub uninterp spec fn eip2930_encoding(
    chain_id: u64,
    nonce: u64,
    gas_price: u128,
    gas_limit: u64,
    to: Option<Seq<u8>>,
    value: nat,
    access_list: Seq<(Seq<u8>, Seq<Seq<u8>>)>,
    input: Seq<u8>,
    r: nat,
    s: nat,
    odd_y_parity: bool,
) -> Seq<u8>;

/// Calls `TxEip2930::eip2718_encode` of `alloy_consensus`. What it writes depends on the
/// transaction's fields and the signature alone, and starts with the type byte.
#[verifier::external_body]
pub(crate) fn encode_eip2930(
    chain_id: u64,
    nonce: u64,
    gas_price: u128,
    gas_limit: u64,
    to: TxKind,
    value: U256,
    access_list: &AccessList,
    input: &Vec<u8>,
    signature: &Signature,
) -> (encoding: Vec<u8>)
    ensures
        encoding@ == eip2930_encoding(
            chain_id,
            nonce,
            gas_price,
            gas_limit,
            to@,
            value@,
            access_list_items(*access_list),
            input@,
            signature.r@,
            signature.s@,
            signature.odd_y_parity,
        ),
        encoding@.len() > 0 && encoding@[0] == 0x01,
{
    let to = match to {
        TxKind::Create => Kind::Create,
        TxKind::Call(a) => Kind::Call(a.bytes.into()),
    };
    let value = Uint::from_limbs(value.limbs);
    let tx = alloy_consensus::TxEip2930 {
        chain_id, nonce, gas_price, gas_limit, to, value, access_list: access_list.clone(),
        input: input.clone().into(),
    };
    let (r, s) = (signature.r.limbs, signature.s.limbs);
    let (r, s) = (Uint::from_limbs(r), Uint::from_limbs(s));
    let mut out = Vec::new();
    tx.eip2718_encode(&PrimitiveSignature::new(r, s, signature.odd_y_parity), &mut out);
    out
}

/// The EIP-2718 encoding of an EIP-1559 transaction with its signature.
pub uninterp spec fn eip1559_encoding(
    chain_id: u64,
    nonce: u64,
    gas_limit: u64,
    max_fee_per_gas: u128,
    max_priority_fee_per_gas: u128,
    to: Option<Seq<u8>>,
    value: nat,
    access_list: Seq<(Seq<u8>, Seq<Seq<u8>>)>,
    input: Seq<u8>,
    r: nat,
    s: nat,
    odd_y_parity: bool,
) -> Seq<u8>;

/// Calls `TxEip1559::eip2718_encode` of `alloy_consensus`. What it writes depends on the
/// transaction's fields and the signature alone, and starts with the type byte.
#[verifier::external_body]
pub(crate) fn encode_eip1559(
    chain_id: u64,
    nonce: u64,
    gas_limit: u64,
    max_fee_per_gas: u128,
    max_priority_fee_per_gas: u128,
    to: TxKind,
    value: U256,
    access_list: &AccessList,
    input: &Vec<u8>,
    signature: &Signature,
) -> (encoding: Vec<u8>)
    ensures
        encoding@ == eip1559_encoding(
            chain_id,
            nonce,
            gas_limit,
            max_fee_per_gas,
            max_priority_fee_per_gas,
            to@,
            value@,
            access_list_items(*access_list),
            input@,
            signature.r@,
            signature.s@,
            signature.odd_y_parity,
        ),
        encoding@.len() > 0 && encoding@[0] == 0x02,
{
    let to = match to {
        TxKind::Create => Kind::Create,
        TxKind::Call(a) => Kind::Call(a.bytes.into()),
    };
    let value = Uint::from_limbs(value.limbs);
    let tx = alloy_consensus::TxEip1559 {
        chain_id, nonce, gas_limit, max_fee_per_gas, max_priority_fee_per_gas, to, value,
        access_list: access_list.clone(), input: input.clone().into(),
    };
    let (r, s) = (signature.r.limbs, signature.s.limbs);
    let (r, s) = (Uint::from_limbs(r), Uint::from_limbs(s));
    let mut out = Vec::new();
    tx.eip2718_encode(&PrimitiveSignature::new(r, s, signature.odd_y_parity), &mut out);
    out
}

/// The EIP-2718 encoding of an EIP-7702 transaction with its signature.
pub uninterp spec fn eip7702_encoding(
    chain_id: u64,
    nonce: u64,
    gas_limit: u64,
    max_fee_per_gas: u128,
    max_priority_fee_per_gas: u128,
    to: Seq<u8>,
    value: nat,
    access_list: Seq<(Seq<u8>, Seq<Seq<u8>>)>,
    authorization_list: Seq<(nat, Seq<u8>, u64, u8, nat, nat)>,
    input: Seq<u8>,
    r: nat,
    s: nat,
    odd_y_parity: bool,
) -> Seq<u8>;

/// Calls `TxEip7702::eip2718_encode` of `alloy_consensus`. What it writes depends on the
/// transaction's fields and the signature alone, and starts with the type byte.
#[verifier::external_body]
pub(crate) fn encode_eip7702(
    chain_id: u64,
    nonce: u64,
    gas_limit: u64,
    max_fee_per_gas: u128,
    max_priority_fee_per_gas: u128,
    to: Address,
    value: U256,
    access_list: &AccessList,
    authorization_list: &Vec<SignedAuthorization>,
    input: &Vec<u8>,
    signature: &Signature,
) -> (encoding: Vec<u8>)
    ensures
        encoding@ == eip7702_encoding(
            chain_id,
            nonce,
            gas_limit,
            max_fee_per_gas,
            max_priority_fee_per_gas,
            to@,
            value@,
            access_list_items(*access_list),
            authorization_items(*authorization_list),
            input@,
            signature.r@,
            signature.s@,
            signature.odd_y_parity,
        ),
        encoding@.len() > 0 && encoding@[0] == 0x04,
{
    let value = Uint::from_limbs(value.limbs);
    let tx = alloy_consensus::TxEip7702 {
        chain_id, nonce, gas_limit, max_fee_per_gas, max_priority_fee_per_gas,
        to: to.bytes.into(), value, access_list: access_list.clone(),
        authorization_list: authorization_list.clone(), input: input.clone().into(),
    };
    let (r, s) = (signature.r.limbs, signature.s.limbs);
    let (r, s) = (Uint::from_limbs(r), Uint::from_limbs(s));
    let mut out = Vec::new();
    tx.eip2718_encode(&PrimitiveSignature::new(r, s, signature.odd_y_parity), &mut out);
    out
}

/// The EIP-2718 encoding of a deposit transaction, which carries no signature.
pub uninterp spec fn deposit_encoding(
    source_hash: Seq<u8>,
    from: Seq<u8>,
    to: Option<Seq<u8>>,
    mint: Option<u128>,
    value: nat,
    gas_limit: u64,
    is_system_transaction: bool,
    input: Seq<u8>,
) -> Seq<u8>;

/// Calls `TxDeposit::encode_2718` of `op_alloy_consensus`. What it writes depends on the
/// transaction's fields alone, and starts with the type byte.
#[verifier::external_body]
pub(crate) fn encode_deposit(
    source_hash: B256,
    from: Address,
    to: TxKind,
    mint: Option<u128>,
    value: U256,
    gas_limit: u64,
    is_system_transaction: bool,
    input: &Vec<u8>,
) -> (encoding: Vec<u8>)
    ensures
        encoding@ == deposit_encoding(
            source_hash@,
            from@,
            to@,
            mint,
            value@,
            gas_limit,
            is_system_transaction,
            input@,
        ),
        encoding@.len() > 0 && encoding@[0] == 0x7e,
{
    let to = match to {
        TxKind::Create => Kind::Create,
        TxKind::Call(a) => Kind::Call(a.bytes.into()),
    };
    let value = Uint::from_limbs(value.limbs);
    let tx = op_alloy_consensus::TxDeposit {
        source_hash: source_hash.bytes.into(), from: from.bytes.into(), to, mint, value,
        gas_limit, is_system_transaction, input: input.clone().into(),
    };
    let mut out = Vec::new();
    tx.encode_2718(&mut out);
    out
}

/// The Keccak-256 digest of a byte string.
pub uninterp spec fn keccak256_digest(bytes: Seq<u8>) -> Seq<u8>;

/// Calls `keccak256` of `alloy_primitives`. The digest depends on the bytes alone.
#[verifier::external_body]
pub(crate) fn keccak256(bytes: &[u8]) -> (digest: B256)
    ensures
        digest@ == keccak256_digest(bytes@),
{
    B256 { bytes: alloy_primitives::keccak256(bytes).0 }
}

/// The length in bytes of a FastLZ compression of the input.
pub uninterp spec fn fastlz_size(input: Seq<u8>) -> u32;

/// The longest input whose compressed size is estimated. Of an input that it cannot compress FastLZ
/// makes 33 bytes for every 32, and one more than are left over for the rest. The estimate counts
/// them in 32 bits, and for this length the count is the largest 32-bit number.
pub const MAX_ESTIMATED_INPUT: usize = 4_164_816_770;

/// What a compressed byte counts for in the size estimate, scaled by 1e6.
pub const L1_COST_FASTLZ_COEF: u64 = 836_500;

/// What is taken off in the size estimate, scaled by 1e6.
pub const L1_COST_INTERCEPT: u64 = 42_585_600;

/// The least estimated size of a transaction, scaled by 1e6.
pub const MIN_TX_SIZE_SCALED: u64 = 100_000_000;

/// The estimated compressed size of a transaction, scaled by 1e6, whose FastLZ size is `size`.
pub open spec fn estimated_size(size: u32) -> int {
    let linear = size * L1_COST_FASTLZ_COEF - L1_COST_INTERCEPT;
    if linear < MIN_TX_SIZE_SCALED {
        MIN_TX_SIZE_SCALED as int
    } else {
        linear
    }
}

/// Calls `tx_estimated_size_fjord` of `op_alloy_flz`: a line through the FastLZ size of the input,
/// with a floor. The FastLZ size, `flz_compress_len` of the same crate, depends on the input alone.
#[verifier::external_body]
pub(crate) fn tx_estimated_size_fjord(input: &[u8]) -> (size: u64)
    requires
        input@.len() <= MAX_ESTIMATED_INPUT,
    ensures
        size == estimated_size(fastlz_size(input@)),
{
    op_alloy_flz::tx_estimated_size_fjord(input)
}

} // verus!
