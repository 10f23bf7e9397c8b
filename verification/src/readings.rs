//! What each type of transaction answers when it is read, field by field.
use crate::outside::{
    access_list_items, authorization_items, deposit_encoding, eip1559_encoding, eip2930_encoding,
    eip7702_encoding, legacy_encoding,
};
use crate::pooled::{OpPooledEnvelope, OpPooledTypedTransaction, TransactionConversionError};
use crate::primitives::{Address, Signature, TxKind, B256};
use crate::transaction::{
    OpTransactionSigned, OpTypedTransaction, OpTypedTransactionView, TxDeposit, TxEip1559,
    TxEip2930, TxEip7702, TxLegacy,
};
use vstd::prelude::*;

verus! {

/// What is read off a legacy transaction.
pub proof fn legacy_is_read_by_its_fields(tx: TxLegacy, signature: Signature)
    ensures
        ({
            let read = OpTypedTransaction::Legacy(tx)@;
            &&& read.tx_type() == 0x00
            &&& read.chain_id() == tx.chain_id
            &&& read.nonce() == tx.nonce
            &&& read.gas_limit() == tx.gas_limit
            &&& read.max_fee_per_gas() == tx.gas_price
            &&& read.max_priority_fee_per_gas() == None::<u128>
            &&& read.max_fee_per_blob_gas() is None
            &&& read.priority_fee_or_price() == tx.gas_price
            &&& read.kind() == tx.to
            &&& read.value() == tx.value
            &&& read.input() == tx.input@
            &&& read.access_list() is None
            &&& read.authorization_count() == 0
            &&& read.encoding(signature) == legacy_encoding(
                tx.chain_id,
                tx.nonce,
                tx.gas_price,
                tx.gas_limit,
                tx.to@,
                tx.value@,
                tx.input@,
                signature.r@,
                signature.s@,
                signature.odd_y_parity,
            )
        }),
{
}

/// The cost of a legacy transaction: the gas limit at the fee cap and the amount transferred, and at
/// most the largest 256-bit number. It covers the amount transferred.
pub proof fn legacy_costs_gas_and_value(tx: TxLegacy)
    ensures
        ({
            let cost = OpTypedTransaction::Legacy(tx)@.max_cost();
            let due = tx.gas_price * tx.gas_limit + tx.value@;
            let most = 0xffff_ffff_ffff_ffff_ffff_ffff_ffff_ffff_ffff_ffff_ffff_ffff_ffff_ffff_ffff_ffffint;
            &&& due <= most ==> cost == due
            &&& due > most ==> cost == most
            &&& cost >= tx.value@
        }),
{
    assert(tx.gas_price * tx.gas_limit >= 0) by (nonlinear_arith);
}

/// What is read off an EIP-2930 transaction.
pub proof fn eip2930_is_read_by_its_fields(tx: TxEip2930, signature: Signature)
    ensures
        ({
            let read = OpTypedTransaction::Eip2930(tx)@;
            &&& read.tx_type() == 0x01
            &&& read.chain_id() == Some(tx.chain_id)
            &&& read.nonce() == tx.nonce
            &&& read.gas_limit() == tx.gas_limit
            &&& read.max_fee_per_gas() == tx.gas_price
            &&& read.max_priority_fee_per_gas() == None::<u128>
            &&& read.max_fee_per_blob_gas() is None
            &&& read.priority_fee_or_price() == tx.gas_price
            &&& read.kind() == tx.to
            &&& read.value() == tx.value
            &&& read.input() == tx.input@
            &&& read.access_list() == Some(access_list_items(tx.access_list))
            &&& read.authorization_count() == 0
            &&& read.encoding(signature) == eip2930_encoding(
                tx.chain_id,
                tx.nonce,
                tx.gas_price,
                tx.gas_limit,
                tx.to@,
                tx.value@,
                access_list_items(tx.access_list),
                tx.input@,
                signature.r@,
                signature.s@,
                signature.odd_y_parity,
            )
        }),
{
}

/// The cost of an EIP-2930 transaction: the gas limit at the fee cap and the amount transferred, and at
/// most the largest 256-bit number. It covers the amount transferred.
pub proof fn eip2930_costs_gas_and_value(tx: TxEip2930)
    ensures
        ({
            let cost = OpTypedTransaction::Eip2930(tx)@.max_cost();
            let due = tx.gas_price * tx.gas_limit + tx.value@;
            let most = 0xffff_ffff_ffff_ffff_ffff_ffff_ffff_ffff_ffff_ffff_ffff_ffff_ffff_ffff_ffff_ffffint;
            &&& due <= most ==> cost == due
            &&& due > most ==> cost == most
            &&& cost >= tx.value@
        }),
{
    assert(tx.gas_price * tx.gas_limit >= 0) by (nonlinear_arith);
}

/// What is read off an EIP-1559 transaction.
pub proof fn eip1559_is_read_by_its_fields(tx: TxEip1559, signature: Signature)
    ensures
        ({
            let read = OpTypedTransaction::Eip1559(tx)@;
            &&& read.tx_type() == 0x02
            &&& read.chain_id() == Some(tx.chain_id)
            &&& read.nonce() == tx.nonce
            &&& read.gas_limit() == tx.gas_limit
            &&& read.max_fee_per_gas() == tx.max_fee_per_gas
            &&& read.max_priority_fee_per_gas() == Some(tx.max_priority_fee_per_gas)
            &&& read.max_fee_per_blob_gas() is None
            &&& read.priority_fee_or_price() == tx.max_priority_fee_per_gas
            &&& read.kind() == tx.to
            &&& read.value() == tx.value
            &&& read.input() == tx.input@
            &&& read.access_list() == Some(access_list_items(tx.access_list))
            &&& read.authorization_count() == 0
            &&& read.encoding(signature) == eip1559_encoding(
                tx.chain_id,
                tx.nonce,
                tx.gas_limit,
                tx.max_fee_per_gas,
                tx.max_priority_fee_per_gas,
                tx.to@,
                tx.value@,
                access_list_items(tx.access_list),
                tx.input@,
                signature.r@,
                signature.s@,
                signature.odd_y_parity,
            )
        }),
{
}

/// The cost of an EIP-1559 transaction: the gas limit at the fee cap and the amount transferred, and at
/// most the largest 256-bit number. It covers the amount transferred.
pub proof fn eip1559_costs_gas_and_value(tx: TxEip1559)
    ensures
        ({
            let cost = OpTypedTransaction::Eip1559(tx)@.max_cost();
            let due = tx.max_fee_per_gas * tx.gas_limit + tx.value@;
            let most = 0xffff_ffff_ffff_ffff_ffff_ffff_ffff_ffff_ffff_ffff_ffff_ffff_ffff_ffff_ffff_ffffint;
            &&& due <= most ==> cost == due
            &&& due > most ==> cost == most
            &&& cost >= tx.value@
        }),
{
    assert(tx.max_fee_per_gas * tx.gas_limit >= 0) by (nonlinear_arith);
}

/// What is read off an EIP-7702 transaction.
pub proof fn eip7702_is_read_by_its_fields(tx: TxEip7702, signature: Signature)
    ensures
        ({
            let read = OpTypedTransaction::Eip7702(tx)@;
            &&& read.tx_type() == 0x04
            &&& read.chain_id() == Some(tx.chain_id)
            &&& read.nonce() == tx.nonce
            &&& read.gas_limit() == tx.gas_limit
            &&& read.max_fee_per_gas() == tx.max_fee_per_gas
            &&& read.max_priority_fee_per_gas() == Some(tx.max_priority_fee_per_gas)
            &&& read.max_fee_per_blob_gas() is None
            &&& read.priority_fee_or_price() == tx.max_priority_fee_per_gas
            &&& read.kind() == TxKind::Call(tx.to)
            &&& read.value() == tx.value
            &&& read.input() == tx.input@
            &&& read.access_list() == Some(access_list_items(tx.access_list))
            &&& read.authorization_count() == tx.authorization_list@.len()
            &&& read.encoding(signature) == eip7702_encoding(
                tx.chain_id,
                tx.nonce,
                tx.gas_limit,
                tx.max_fee_per_gas,
                tx.max_priority_fee_per_gas,
                tx.to@,
                tx.value@,
                access_list_items(tx.access_list),
                authorization_items(tx.authorization_list),
                tx.input@,
                signature.r@,
                signature.s@,
                signature.odd_y_parity,
            )
        }),
{
}

/// The cost of an EIP-7702 transaction: the gas limit at the fee cap and the amount transferred, and at
/// most the largest 256-bit number. It covers the amount transferred.
pub proof fn eip7702_costs_gas_and_value(tx: TxEip7702)
    ensures
        ({
            let cost = OpTypedTransaction::Eip7702(tx)@.max_cost();
            let due = tx.max_fee_per_gas * tx.gas_limit + tx.value@;
            let most = 0xffff_ffff_ffff_ffff_ffff_ffff_ffff_ffff_ffff_ffff_ffff_ffff_ffff_ffff_ffff_ffffint;
            &&& due <= most ==> cost == due
            &&& due > most ==> cost == most
            &&& cost >= tx.value@
        }),
{
    assert(tx.max_fee_per_gas * tx.gas_limit >= 0) by (nonlinear_arith);
}

/// What is read off a deposit.
pub proof fn deposit_is_read_by_its_fields(tx: TxDeposit, signature: Signature)
    ensures
        ({
            let read = OpTypedTransaction::Deposit(tx)@;
            &&& read.tx_type() == 0x7e
            &&& read.chain_id() == None::<u64>
            &&& read.nonce() == 0
            &&& read.gas_limit() == tx.gas_limit
            &&& read.max_fee_per_gas() == 0
            &&& read.max_priority_fee_per_gas() == None::<u128>
            &&& read.max_fee_per_blob_gas() is None
            &&& read.priority_fee_or_price() == 0
            &&& read.kind() == tx.to
            &&& read.value() == tx.value
            &&& read.input() == tx.input@
            &&& read.access_list() is None
            &&& read.authorization_count() == 0
            &&& read.encoding(signature) == deposit_encoding(
                tx.source_hash@,
                tx.from@,
                tx.to@,
                tx.mint,
                tx.value@,
                tx.gas_limit,
                tx.is_system_transaction,
                tx.input@,
            )
        }),
{
}

/// The cost of a deposit: the amount transferred alone, and at
/// most the largest 256-bit number. It covers the amount transferred.
pub proof fn deposit_costs_gas_and_value(tx: TxDeposit)
    ensures
        ({
            let cost = OpTypedTransaction::Deposit(tx)@.max_cost();
            let due = 0 + tx.value@;
            let most = 0xffff_ffff_ffff_ffff_ffff_ffff_ffff_ffff_ffff_ffff_ffff_ffff_ffff_ffff_ffff_ffffint;
            &&& due <= most ==> cost == due
            &&& due > most ==> cost == most
            &&& cost >= tx.value@
        }),
{
    assert(0 * tx.gas_limit == 0) by (nonlinear_arith);
}

/// Of two transactions of any types that bid the same for the same gas, the one that transfers more
/// costs more by just that much, where nothing passes the largest 256-bit number.
pub proof fn cost_grows_with_value(a: OpTypedTransactionView, b: OpTypedTransactionView)
    requires
        a.max_fee_per_gas() == b.max_fee_per_gas(),
        a.gas_limit() == b.gas_limit(),
        a.max_fee_per_gas() * a.gas_limit() + a.value()@ <= 0xffff_ffff_ffff_ffff_ffff_ffff_ffff_ffff_ffff_ffff_ffff_ffff_ffff_ffff_ffff_ffff,
        b.max_fee_per_gas() * b.gas_limit() + b.value()@ <= 0xffff_ffff_ffff_ffff_ffff_ffff_ffff_ffff_ffff_ffff_ffff_ffff_ffff_ffff_ffff_ffff,
    ensures
        b.max_cost() - a.max_cost() == b.value()@ - a.value()@,
{
    assert(a.max_fee_per_gas() * a.gas_limit() >= 0) by (nonlinear_arith);
    assert(a.max_fee_per_gas() * a.gas_limit() == b.max_fee_per_gas() * b.gas_limit());
}

/// A tip is the most that both caps allow: all that the fee cap leaves above the base fee, or all of
/// the priority fee.
pub proof fn tip_reaches_a_cap(tx: OpTypedTransactionView, base_fee: u64)
    requires
        base_fee <= tx.max_fee_per_gas(),
    ensures
        tx.effective_tip_per_gas(base_fee) is Some,
        ({
            let tip = tx.effective_tip_per_gas(base_fee)->0;
            let left = tx.max_fee_per_gas() - base_fee;
            match tx.max_priority_fee_per_gas() {
                Some(priority_fee) => {
                    &&& tip <= left
                    &&& tip <= priority_fee
                    &&& tip == left || tip == priority_fee
                },
                None => tip == left,
            }
        }),
{
}

/// No tip is paid where the fee cap is below the base fee.
pub proof fn no_tip_below_base_fee(tx: OpTypedTransactionView, base_fee: u64)
    requires
        tx.max_fee_per_gas() < base_fee,
    ensures
        tx.effective_tip_per_gas(base_fee) is None,
{
}

/// A signed transaction is read by its parts, and its encoding is that of its transaction with its
/// signature.
pub proof fn signed_transaction_is_read_by_its_parts(tx: OpTransactionSigned)
    ensures
        tx@.hash == tx.hash,
        tx@.signature == tx.signature,
        tx@.transaction == tx.transaction@,
        tx@.encoding() == tx.transaction@.encoding(tx.signature),
{
}

/// Addresses and hashes are their bytes, and a call is the address called.
pub proof fn bytes_are_read_as_they_are(address: Address, hash: B256)
    ensures
        address@ == address.bytes@,
        hash@ == hash.bytes@,
        TxKind::Create@ is None,
        TxKind::Call(address)@ == Some(address.bytes@),
{
}

/// The gossiped form of a transaction and the signed transaction that it stands for have the same
/// hash, signature and fields, and are of the same type.
pub proof fn gossiped_form_keeps_every_part(tx: OpPooledEnvelope)
    ensures
        tx.consensus().hash == tx.hash,
        tx.consensus().signature == tx.signature,
        match tx.transaction {
            OpPooledTypedTransaction::Legacy(of) => tx.consensus().transaction
                == OpTypedTransaction::Legacy(of),
            OpPooledTypedTransaction::Eip2930(of) => tx.consensus().transaction
                == OpTypedTransaction::Eip2930(of),
            OpPooledTypedTransaction::Eip1559(of) => tx.consensus().transaction
                == OpTypedTransaction::Eip1559(of),
            OpPooledTypedTransaction::Eip7702(of) => tx.consensus().transaction
                == OpTypedTransaction::Eip7702(of),
        },
{
}

/// A signed transaction keeps its hash, its signature and its fields in its gossiped form. A deposit
/// has none.
pub proof fn signed_transaction_keeps_every_part(tx: OpTransactionSigned)
    ensures
        OpPooledEnvelope::of_consensus(tx) matches Ok(pooled) ==> {
            &&& pooled.hash == tx.hash
            &&& pooled.signature == tx.signature
        },
        match tx.transaction {
            OpTypedTransaction::Legacy(of) => OpPooledEnvelope::of_consensus(tx)->Ok_0.transaction
                == OpPooledTypedTransaction::Legacy(of),
            OpTypedTransaction::Eip2930(of) => OpPooledEnvelope::of_consensus(
                tx,
            )->Ok_0.transaction == OpPooledTypedTransaction::Eip2930(of),
            OpTypedTransaction::Eip1559(of) => OpPooledEnvelope::of_consensus(
                tx,
            )->Ok_0.transaction == OpPooledTypedTransaction::Eip1559(of),
            OpTypedTransaction::Eip7702(of) => OpPooledEnvelope::of_consensus(
                tx,
            )->Ok_0.transaction == OpPooledTypedTransaction::Eip7702(of),
            OpTypedTransaction::Deposit(_) => OpPooledEnvelope::of_consensus(tx) == Err::<
                OpPooledEnvelope,
                _,
            >(TransactionConversionError::UnsupportedForP2P),
        },
        OpPooledEnvelope::of_consensus(tx) is Ok == !(tx.transaction is Deposit),
{
}

} // verus!
