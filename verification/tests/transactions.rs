use alloy_consensus::SignableTransaction;
use alloy_eips::eip2718::Encodable2718;
use alloy_eips::eip2930::{AccessList, AccessListItem};
use alloy_eips::eip7702::{Authorization, SignedAuthorization};
use alloy_primitives::{PrimitiveSignature, U256 as Uint};
use op_txpool::outside::MAX_ESTIMATED_INPUT;
use op_txpool::pool::{
    BlobTransactionValidationError, EthBlobTransactionSidecar, EthPoolTransaction,
    OpPooledTransaction, PoolTransaction,
};
use op_txpool::pooled::{OpPooledEnvelope, TransactionConversionError};
use op_txpool::primitives::{Address, Signature, TxKind, B256};
use op_txpool::transaction::{
    OpTransactionSigned, OpTypedTransaction, Recovered, TxDeposit, TxEip1559, TxEip2930, TxEip7702,
    TxLegacy,
};
use op_txpool::u256::U256;
use std::sync::Arc;

const TO: [u8; 20] = [7; 20];
const SIGNER: Address = Address { bytes: [9; 20] };

fn outside_signature() -> PrimitiveSignature {
    PrimitiveSignature::new(Uint::from(11), Uint::MAX - Uint::from(5), true)
}

fn signature() -> Signature {
    let signature = outside_signature();
    Signature {
        r: U256::from_limbs(*signature.r().as_limbs()),
        s: U256::from_limbs(*signature.s().as_limbs()),
        odd_y_parity: signature.v(),
    }
}

fn access_list() -> AccessList {
    AccessList(vec![AccessListItem {
        address: [3; 20].into(),
        storage_keys: vec![[4; 32].into(), [5; 32].into()],
    }])
}

fn authorizations() -> Vec<SignedAuthorization> {
    (0..3)
        .map(|nonce| {
            let inner =
                Authorization { chain_id: Uint::from(10), address: [6; 20].into(), nonce };
            SignedAuthorization::new_unchecked(inner, 1, Uint::from(12), Uint::from(13))
        })
        .collect()
}

fn legacy(to: TxKind) -> OpTypedTransaction {
    OpTypedTransaction::Legacy(TxLegacy {
        chain_id: Some(10),
        nonce: 1,
        gas_price: 20,
        gas_limit: 30,
        to,
        value: U256::from_limbs([1, 2, 3, 4]),
        input: vec![1, 2, 3],
    })
}

fn eip2930() -> OpTypedTransaction {
    OpTypedTransaction::Eip2930(TxEip2930 {
        chain_id: 10,
        nonce: 2,
        gas_price: 21,
        gas_limit: 31,
        to: TxKind::Create,
        value: U256::from_u128(41),
        access_list: access_list(),
        input: vec![4, 5],
    })
}

fn eip1559(input: Vec<u8>) -> OpTypedTransaction {
    OpTypedTransaction::Eip1559(TxEip1559 {
        chain_id: 10,
        nonce: 3,
        gas_limit: 32,
        max_fee_per_gas: 22,
        max_priority_fee_per_gas: 5,
        to: TxKind::Call(Address { bytes: TO }),
        value: U256::from_u128(42),
        access_list: access_list(),
        input,
    })
}

fn eip7702() -> OpTypedTransaction {
    OpTypedTransaction::Eip7702(TxEip7702 {
        chain_id: 10,
        nonce: 4,
        gas_limit: 33,
        max_fee_per_gas: 23,
        max_priority_fee_per_gas: 6,
        to: Address { bytes: TO },
        value: U256::from_u128(43),
        access_list: access_list(),
        authorization_list: authorizations(),
        input: vec![6],
    })
}

fn deposit() -> OpTypedTransaction {
    OpTypedTransaction::Deposit(TxDeposit {
        source_hash: B256 { bytes: [8; 32] },
        from: SIGNER,
        to: TxKind::Call(Address { bytes: TO }),
        mint: Some(77),
        value: U256::from_u128(44),
        gas_limit: 34,
        is_system_transaction: true,
        input: vec![7, 8, 9],
    })
}

fn sign(tx: OpTypedTransaction) -> Recovered<OpTransactionSigned> {
    Recovered::new_unchecked(OpTransactionSigned::new_unhashed(tx, signature()), SIGNER)
}

fn pool(tx: OpTypedTransaction) -> OpPooledTransaction {
    let tx = sign(tx);
    let length = tx.transaction.encode_2718_len();
    OpPooledTransaction::new(tx, length)
}

/// Checks encoding and hash against those of an envelope.
fn assert_encodes_as(tx: OpTypedTransaction, envelope: op_alloy_consensus::OpTxEnvelope) {
    let encoded = envelope.encoded_2718();
    let signed = sign(tx).transaction;
    assert_eq!(signed.encoded_2718(), encoded);
    assert_eq!(signed.encode_2718_len(), envelope.encode_2718_len());
    assert_eq!(signed.hash.bytes, envelope.trie_hash().0);
    assert_eq!(signed.transaction.tx_type(), envelope.tx_type() as u8);
    if signed.transaction.tx_type() != 0 {
        assert_eq!(encoded[0], signed.transaction.tx_type());
    }
}

#[test]
fn legacy_encoding_is_that_of_the_envelope() {
    for (kind, to) in [
        (TxKind::Create, alloy_primitives::TxKind::Create),
        (TxKind::Call(Address { bytes: TO }), alloy_primitives::TxKind::Call(TO.into())),
    ] {
        let tx = alloy_consensus::TxLegacy {
            chain_id: Some(10),
            nonce: 1,
            gas_price: 20,
            gas_limit: 30,
            to,
            value: Uint::from_limbs([1, 2, 3, 4]),
            input: vec![1, 2, 3].into(),
        };
        assert_encodes_as(legacy(kind), tx.into_signed(outside_signature()).into());
    }
}

#[test]
fn eip2930_encoding_is_that_of_the_envelope() {
    let tx = alloy_consensus::TxEip2930 {
        chain_id: 10,
        nonce: 2,
        gas_price: 21,
        gas_limit: 31,
        to: alloy_primitives::TxKind::Create,
        value: Uint::from(41),
        access_list: access_list(),
        input: vec![4, 5].into(),
    };
    assert_encodes_as(eip2930(), tx.into_signed(outside_signature()).into());
}

#[test]
fn eip1559_encoding_is_that_of_the_envelope() {
    let tx = alloy_consensus::TxEip1559 {
        chain_id: 10,
        nonce: 3,
        gas_limit: 32,
        max_fee_per_gas: 22,
        max_priority_fee_per_gas: 5,
        to: alloy_primitives::TxKind::Call(TO.into()),
        value: Uint::from(42),
        access_list: access_list(),
        input: vec![1].into(),
    };
    assert_encodes_as(eip1559(vec![1]), tx.into_signed(outside_signature()).into());
}

#[test]
fn eip7702_encoding_is_that_of_the_envelope() {
    let tx = alloy_consensus::TxEip7702 {
        chain_id: 10,
        nonce: 4,
        gas_limit: 33,
        max_fee_per_gas: 23,
        max_priority_fee_per_gas: 6,
        to: TO.into(),
        value: Uint::from(43),
        access_list: access_list(),
        authorization_list: authorizations(),
        input: vec![6].into(),
    };
    assert_encodes_as(eip7702(), tx.into_signed(outside_signature()).into());
}

#[test]
fn deposit_encoding_is_that_of_the_envelope() {
    let tx = op_alloy_consensus::TxDeposit {
        source_hash: [8; 32].into(),
        from: SIGNER.bytes.into(),
        to: alloy_primitives::TxKind::Call(TO.into()),
        mint: Some(77),
        value: Uint::from(44),
        gas_limit: 34,
        is_system_transaction: true,
        input: vec![7, 8, 9].into(),
    };
    assert_encodes_as(deposit(), tx.into());
}

#[test]
fn clones_keep_everything() {
    for tx in [legacy(TxKind::Create), eip2930(), eip1559(vec![1]), eip7702(), deposit()] {
        let tx = pool(tx);
        let copy = tx.clone();
        assert_eq!(copy.clone_into_consensus().transaction, tx.clone_into_consensus().transaction);
        assert_eq!(copy.sender(), SIGNER);
        assert_eq!(copy.authorization_count(), tx.authorization_count());
        assert_eq!(PoolTransaction::encoded_length(&copy), PoolTransaction::encoded_length(&tx));
    }
}

#[test]
fn fields_of_a_fee_cap_transaction() {
    let tx = pool(eip1559(vec![1, 2]));
    assert_eq!(tx.sender(), SIGNER);
    assert_eq!(*tx.sender_ref(), SIGNER);
    assert_eq!(tx.nonce(), 3);
    assert_eq!(tx.gas_limit(), 32);
    assert_eq!(tx.max_fee_per_gas(), 22);
    assert_eq!(tx.max_priority_fee_per_gas(), Some(5));
    assert_eq!(tx.priority_fee_or_price(), 5);
    assert_eq!(tx.max_fee_per_blob_gas(), None);
    assert_eq!(tx.access_list(), Some(&access_list()));
    assert_eq!(tx.kind(), TxKind::Call(Address { bytes: TO }));
    assert!(!tx.is_create());
    assert_eq!(tx.input(), &[1, 2]);
    assert_eq!(tx.size(), 2);
    assert_eq!(tx.tx_type(), 2);
    assert!(!tx.is_eip4844());
    assert_eq!(tx.chain_id(), Some(10));
    assert_eq!(PoolTransaction::cost(&tx), &U256::from_u128(32 * 22 + 42));
    assert_eq!(tx.cost, U256::from_u128(32 * 22 + 42));
    assert_eq!(tx.encoded_length, tx.transaction.transaction.encode_2718_len());
}

#[test]
fn fields_of_a_priced_transaction() {
    let tx = pool(eip2930());
    assert_eq!(tx.max_fee_per_gas(), 21);
    assert_eq!(tx.max_priority_fee_per_gas(), None);
    assert_eq!(tx.priority_fee_or_price(), 21);
    assert_eq!(tx.kind(), TxKind::Create);
    assert!(tx.is_create());
    assert_eq!(pool(legacy(TxKind::Create)).access_list(), None);
    assert_eq!(pool(eip7702()).kind(), TxKind::Call(Address { bytes: TO }));
}

#[test]
fn fields_of_a_deposit() {
    let tx = pool(deposit());
    assert_eq!(tx.nonce(), 0);
    assert_eq!(tx.gas_limit(), 34);
    assert_eq!(tx.max_fee_per_gas(), 0);
    assert_eq!(tx.priority_fee_or_price(), 0);
    assert_eq!(tx.chain_id(), None);
    assert_eq!(tx.access_list(), None);
    assert_eq!(PoolTransaction::cost(&tx), &U256::from_u128(44));
}

#[test]
fn tip_is_capped_by_priority_fee_and_by_fee_cap() {
    let tx = pool(eip1559(vec![]));
    assert_eq!(tx.effective_tip_per_gas(10), Some(5));
    assert_eq!(tx.effective_tip_per_gas(20), Some(2));
    assert_eq!(tx.effective_tip_per_gas(22), Some(0));
    assert_eq!(tx.effective_tip_per_gas(23), None);
    assert_eq!(pool(eip2930()).effective_tip_per_gas(10), Some(11));
}

#[test]
fn cost_saturates() {
    let tx = pool(OpTypedTransaction::Legacy(TxLegacy {
        chain_id: None,
        nonce: 0,
        gas_price: u128::MAX,
        gas_limit: u64::MAX,
        to: TxKind::Create,
        value: U256::max_value(),
        input: vec![],
    }));
    assert_eq!(PoolTransaction::cost(&tx), &U256::max_value());
}

#[test]
fn arithmetic_is_that_of_256_bits() {
    let a = Uint::from(u128::MAX) * Uint::from(u64::MAX);
    assert_eq!(U256::wide_product(u128::MAX, u64::MAX).into_limbs(), *a.as_limbs());
    let b = Uint::from_limbs([u64::MAX, u64::MAX, 5, 6]);
    let sum = U256::from_limbs(*a.as_limbs()).saturating_add(U256::from_limbs(*b.as_limbs()));
    assert_eq!(sum.into_limbs(), *(a + b).as_limbs());
    assert!(U256::from_limbs([0, 0, 0, 1]).exceeds(&U256::from_limbs([9, 9, 9, 0])));
    assert!(!U256::from_limbs([1, 1, 1, 1]).exceeds(&U256::from_limbs([1, 1, 1, 1])));
}

#[test]
fn estimate_has_a_floor() {
    let mut tx = pool(eip1559(vec![0; 1000]));
    assert_eq!(tx.estimated_compressed_size(), 100_000_000);
    assert_eq!(tx.estimated_compressed_size(), 100_000_000);
}

#[test]
fn estimate_is_a_line_through_the_compressed_length() {
    let input = (0..2000u32).map(|i| (i * i / 7) as u8).collect::<Vec<_>>();
    let mut tx = pool(eip1559(input));
    let encoded = tx.clone_into_consensus().transaction.encoded_2718();
    assert!(encoded.len() <= MAX_ESTIMATED_INPUT);
    let length = op_alloy_flz::flz_compress_len(&encoded) as u64;
    let expected = length * 836_500 - 42_585_600;
    assert!(expected > 100_000_000);
    assert_eq!(tx.try_estimated_compressed_size(), Some(expected));
    assert_eq!(tx.clone().estimated_compressed_size(), expected);
}

#[test]
fn estimate_depends_on_the_encoding_alone() {
    let input = (0..2000u32).map(|i| (i * i / 7) as u8).collect::<Vec<_>>();
    let mut p = OpPooledTransaction::new(sign(eip1559(input.clone())), 1);
    let mut q = OpPooledTransaction::new(sign(eip1559(input.clone())), 2);
    let mut r = OpPooledTransaction::try_from(sign(eip1559(input))).unwrap();
    let size = p.estimated_compressed_size();
    assert_eq!(q.estimated_compressed_size(), size);
    assert_eq!(r.estimated_compressed_size(), size);
}

#[test]
fn cached_size_is_never_seen() {
    let mut tx = pool(eip1559(vec![1, 2, 3]));
    let before = tx.clone();
    let size = tx.estimated_compressed_size();
    assert_eq!(tx.estimated_compressed_size(), size);
    assert_eq!(tx.clone().estimated_compressed_size(), size);
    assert_eq!(before.clone().estimated_compressed_size(), size);
    assert_eq!(PoolTransaction::hash(&tx), PoolTransaction::hash(&before));
    assert_eq!(PoolTransaction::cost(&tx), PoolTransaction::cost(&before));
    assert_eq!(PoolTransaction::encoded_length(&tx), PoolTransaction::encoded_length(&before));
    assert_eq!(tx.clone_into_consensus().transaction, before.clone_into_consensus().transaction);
}

#[test]
fn pool_gives_back_what_it_took() {
    for tx in [legacy(TxKind::Create), eip2930(), eip1559(vec![1]), eip7702()] {
        let expected = sign(tx.clone()).transaction;
        let pooled = OpPooledTransaction::try_from(sign(tx)).unwrap();
        assert_eq!(PoolTransaction::encoded_length(&pooled), expected.encode_2718_len());
        let back = Recovered::<OpTransactionSigned>::from(pooled);
        assert_eq!(back.transaction, expected);
        assert_eq!(back.signer, SIGNER);
    }
}

#[test]
fn deposit_is_not_gossiped() {
    assert_eq!(
        OpPooledTransaction::try_from(sign(deposit())).err(),
        Some(TransactionConversionError::UnsupportedForP2P)
    );
    assert_eq!(
        OpPooledTransaction::try_consensus_into_pooled(sign(deposit())).err(),
        Some(TransactionConversionError::UnsupportedForP2P)
    );
}

#[test]
fn gossiped_form_comes_back() {
    for tx in [legacy(TxKind::Create), eip2930(), eip1559(vec![1]), eip7702()] {
        let signed = sign(tx.clone()).transaction;
        let pooled = OpPooledTransaction::try_consensus_into_pooled(sign(tx)).unwrap();
        assert_eq!(pooled.signer, SIGNER);
        assert_eq!(pooled.transaction.encoded_2718(), signed.encoded_2718());
        let length = pooled.transaction.encode_2718_len();
        let again = OpPooledTransaction::from(pooled);
        assert_eq!(PoolTransaction::encoded_length(&again), length);
        let back = OpPooledEnvelope::try_from(again.clone_into_consensus().transaction).unwrap();
        assert_eq!(OpTransactionSigned::from(back), signed);
    }
}

#[test]
fn there_are_no_blobs() {
    let sidecar = || alloy_eips::eip4844::BlobTransactionSidecar::new(vec![], vec![], vec![]);
    let mut tx = pool(eip7702());
    assert!(matches!(tx.take_blob(), EthBlobTransactionSidecar::NoBlobs));
    assert_eq!(tx.blob_count(), 0);
    assert_eq!(
        tx.validate_blob(&sidecar(), &()),
        Err(BlobTransactionValidationError::NotBlobTransaction(4))
    );
    assert!(OpPooledTransaction::try_from_eip4844(sign(eip2930()), sidecar()).is_none());
    assert!(tx.try_into_pooled_eip4844(Arc::new(sidecar())).is_none());
}

#[test]
fn authorizations_are_counted() {
    assert_eq!(pool(eip7702()).authorization_count(), 3);
    assert_eq!(pool(eip1559(vec![])).authorization_count(), 0);
}
