//! What holds of validation as a whole, whatever the Ethereum validation and the L1 data fee are.
use crate::pool::PoolTransaction;
use crate::transaction::EIP4844_TX_TYPE_ID;
use crate::u256::{saturating_sum, value_has_integer, U256};
use crate::validate::{
    charged, GotExpected, InvalidPoolTransactionError, InvalidTransactionError,
    OpTransactionValidator, TransactionOrigin, TransactionValidationOutcome, ValidTransaction,
};
use revm::L1BlockInfo;
use vstd::prelude::*;

verus! {

/// No transaction is admitted that the Ethereum validation does not admit, and one that is admitted
/// is admitted with the balance, the nonce, the blobs and the propagation that it said.
pub proof fn only_ethereum_valid_is_admitted<Client, ChainSpec, Tx: PoolTransaction, E, V, L>(
    validator: OpTransactionValidator<Client, ChainSpec>,
    origin: TransactionOrigin,
    transaction: Tx,
    validate: V,
    l1_tx_data_fee: L,
    outcome: TransactionValidationOutcome<Tx, E>,
) where
    V: Fn(TransactionOrigin, Tx) -> TransactionValidationOutcome<Tx, E>,
    L: Fn(L1BlockInfo, &ChainSpec, u64, &[u8], bool) -> Result<U256, E>,

    requires
        validator.validates(origin, transaction, validate, l1_tx_data_fee, outcome),
        outcome is Valid,
    ensures
        call_ensures(validate, (origin, transaction), outcome),
{
}

/// Where the L1 data fee is required, the sender of an admitted transaction can pay its cost and
/// the fee worked out for its encoding from the tracked block.
pub proof fn admitted_sender_can_pay_l1_fee<Client, ChainSpec, Tx: PoolTransaction, E, V, L>(
    validator: OpTransactionValidator<Client, ChainSpec>,
    origin: TransactionOrigin,
    transaction: Tx,
    validate: V,
    l1_tx_data_fee: L,
    outcome: TransactionValidationOutcome<Tx, E>,
) where
    V: Fn(TransactionOrigin, Tx) -> TransactionValidationOutcome<Tx, E>,
    L: Fn(L1BlockInfo, &ChainSpec, u64, &[u8], bool) -> Result<U256, E>,

    requires
        validator.validates(origin, transaction, validate, l1_tx_data_fee, outcome),
        validator.require_l1_data_gas_fee,
        outcome is Valid,
    ensures
        ({
            let tx = outcome->transaction.spec_transaction();
            exists|encoded: &[u8], fee: U256|
                {
                    &&& encoded@ == tx.signed().encoding()
                    &&& #[trigger] call_ensures(
                        l1_tx_data_fee,
                        (
                            validator.block_info.l1_block_info,
                            &validator.inner.chain_spec,
                            validator.block_info.timestamp,
                            encoded,
                            false,
                        ),
                        Ok::<U256, E>(fee),
                    )
                    &&& saturating_sum(tx.max_cost(), fee@) <= outcome->balance@
                }
        }),
{
    let inner = choose|inner: TransactionValidationOutcome<Tx, E>|
        {
            &&& #[trigger] call_ensures(validate, (origin, transaction), inner)
            &&& validator.finishes(inner, l1_tx_data_fee, outcome)
        };
    let tx = inner->transaction.spec_transaction();
    let (encoded, fee) = choose|encoded: &[u8], fee: Result<U256, E>|
        {
            &&& encoded@ == tx.signed().encoding()
            &&& #[trigger] call_ensures(
                l1_tx_data_fee,
                (
                    validator.block_info.l1_block_info,
                    &validator.inner.chain_spec,
                    validator.block_info.timestamp,
                    encoded,
                    false,
                ),
                fee,
            )
            &&& outcome == charged(
                inner->balance,
                inner->state_nonce,
                inner->transaction,
                inner->propagate,
                fee,
            )
        };
    assert(fee == Ok::<U256, E>(fee->Ok_0));
}

/// Where the L1 data fee is not required, validation of a transaction that is no blob transaction
/// is the Ethereum validation.
pub proof fn without_l1_fee_ethereum_decides<Client, ChainSpec, Tx: PoolTransaction, E, V, L>(
    validator: OpTransactionValidator<Client, ChainSpec>,
    origin: TransactionOrigin,
    transaction: Tx,
    validate: V,
    l1_tx_data_fee: L,
    outcome: TransactionValidationOutcome<Tx, E>,
) where
    V: Fn(TransactionOrigin, Tx) -> TransactionValidationOutcome<Tx, E>,
    L: Fn(L1BlockInfo, &ChainSpec, u64, &[u8], bool) -> Result<U256, E>,

    requires
        !validator.require_l1_data_gas_fee,
        transaction.type_byte() != EIP4844_TX_TYPE_ID,
    ensures
        validator.validates(origin, transaction, validate, l1_tx_data_fee, outcome)
            == call_ensures(validate, (origin, transaction), outcome),
{
    if call_ensures(validate, (origin, transaction), outcome) {
        assert(validator.finishes(outcome, l1_tx_data_fee, outcome));
    }
}

/// Validation can be done in two steps: first by a validator that does not require the L1 data fee,
/// whatever block it tracks, then by charging the fee with the block that is tracked by then.
pub proof fn two_steps_make_a_validation<Client, ChainSpec, Tx: PoolTransaction, E, V, L>(
    first: OpTransactionValidator<Client, ChainSpec>,
    second: OpTransactionValidator<Client, ChainSpec>,
    origin: TransactionOrigin,
    transaction: Tx,
    validate: V,
    l1_tx_data_fee: L,
    between: TransactionValidationOutcome<Tx, E>,
    outcome: TransactionValidationOutcome<Tx, E>,
) where
    V: Fn(TransactionOrigin, Tx) -> TransactionValidationOutcome<Tx, E>,
    L: Fn(L1BlockInfo, &ChainSpec, u64, &[u8], bool) -> Result<U256, E>,

    requires
        !first.require_l1_data_gas_fee,
        first.validates(origin, transaction, validate, l1_tx_data_fee, between),
        second.finishes(between, l1_tx_data_fee, outcome),
    ensures
        second.validates(origin, transaction, validate, l1_tx_data_fee, outcome),
{
    if transaction.type_byte() != EIP4844_TX_TYPE_ID {
        without_l1_fee_ethereum_decides(
            first,
            origin,
            transaction,
            validate,
            l1_tx_data_fee,
            between,
        );
    }
}

/// A refusal or an error of the Ethereum validation stands as it is, and so does what it says of a
/// transaction in every case but an admission.
pub proof fn ethereum_refusal_stands<Client, ChainSpec, Tx: PoolTransaction, E, L>(
    validator: OpTransactionValidator<Client, ChainSpec>,
    inner: TransactionValidationOutcome<Tx, E>,
    l1_tx_data_fee: L,
    outcome: TransactionValidationOutcome<Tx, E>,
) where L: Fn(L1BlockInfo, &ChainSpec, u64, &[u8], bool) -> Result<U256, E>
    requires
        !(inner is Valid),
    ensures
        validator.finishes(inner, l1_tx_data_fee, outcome) == (outcome == inner),
{
}

/// A blob transaction is refused for its type, whatever the Ethereum validation would say, and
/// comes back with the refusal.
pub proof fn blob_transaction_is_refused<Client, ChainSpec, Tx: PoolTransaction, E, V, L>(
    validator: OpTransactionValidator<Client, ChainSpec>,
    origin: TransactionOrigin,
    transaction: Tx,
    validate: V,
    l1_tx_data_fee: L,
    outcome: TransactionValidationOutcome<Tx, E>,
) where
    V: Fn(TransactionOrigin, Tx) -> TransactionValidationOutcome<Tx, E>,
    L: Fn(L1BlockInfo, &ChainSpec, u64, &[u8], bool) -> Result<U256, E>,

    requires
        transaction.type_byte() == EIP4844_TX_TYPE_ID,
    ensures
        validator.validates(origin, transaction, validate, l1_tx_data_fee, outcome) == (outcome
            == TransactionValidationOutcome::<Tx, E>::Invalid(
            transaction,
            InvalidPoolTransactionError::Consensus(InvalidTransactionError::TxTypeNotSupported),
        )),
{
}

/// Whether the Ethereum validation gives one answer on a transaction.
pub open spec fn one_answer<Tx, E, V>(
    origin: TransactionOrigin,
    transaction: Tx,
    validate: V,
) -> bool where
    V: Fn(TransactionOrigin, Tx) -> TransactionValidationOutcome<Tx, E>,
 {
    forall|a: TransactionValidationOutcome<Tx, E>, b: TransactionValidationOutcome<Tx, E>|
        #[trigger] call_ensures(validate, (origin, transaction), a) && #[trigger] call_ensures(
            validate,
            (origin, transaction),
            b,
        ) ==> a == b
}

/// Whether the L1 data fee depends on the bytes of an encoding alone, for the block that the
/// validator tracks.
pub open spec fn one_fee<Client, ChainSpec, E, L>(
    validator: OpTransactionValidator<Client, ChainSpec>,
    l1_tx_data_fee: L,
) -> bool where L: Fn(L1BlockInfo, &ChainSpec, u64, &[u8], bool) -> Result<U256, E> {
    let info = validator.block_info.l1_block_info;
    let spec_ref = &validator.inner.chain_spec;
    let timestamp = validator.block_info.timestamp;
    forall|x: &[u8], y: &[u8], a: Result<U256, E>, b: Result<U256, E>|
        x@ == y@ && #[trigger] call_ensures(
            l1_tx_data_fee,
            (info, spec_ref, timestamp, x, false),
            a,
        ) && #[trigger] call_ensures(l1_tx_data_fee, (info, spec_ref, timestamp, y, false), b)
            ==> a == b
}

/// Where the Ethereum validation gives one answer on a transaction, and the L1 data fee depends on
/// the bytes of its encoding alone, the transaction has one outcome. Nothing is carried over from
/// one validation to another.
pub proof fn one_answer_makes_one_outcome<Client, ChainSpec, Tx: PoolTransaction, E, V, L>(
    validator: OpTransactionValidator<Client, ChainSpec>,
    origin: TransactionOrigin,
    transaction: Tx,
    validate: V,
    l1_tx_data_fee: L,
    a: TransactionValidationOutcome<Tx, E>,
    b: TransactionValidationOutcome<Tx, E>,
) where
    V: Fn(TransactionOrigin, Tx) -> TransactionValidationOutcome<Tx, E>,
    L: Fn(L1BlockInfo, &ChainSpec, u64, &[u8], bool) -> Result<U256, E>,

    requires
        one_answer(origin, transaction, validate),
        one_fee(validator, l1_tx_data_fee),
        validator.validates(origin, transaction, validate, l1_tx_data_fee, a),
        validator.validates(origin, transaction, validate, l1_tx_data_fee, b),
    ensures
        a == b,
{
}

/// A batch that is cut in two has the outcomes of the whole: those of the first part, then those of
/// the second.
pub proof fn batch_can_be_cut<Client, ChainSpec, Tx: PoolTransaction, E, V, L>(
    validator: OpTransactionValidator<Client, ChainSpec>,
    first: Seq<(TransactionOrigin, Tx)>,
    second: Seq<(TransactionOrigin, Tx)>,
    validate: V,
    l1_tx_data_fee: L,
    of_first: Seq<TransactionValidationOutcome<Tx, E>>,
    of_second: Seq<TransactionValidationOutcome<Tx, E>>,
    of_whole: Seq<TransactionValidationOutcome<Tx, E>>,
) where
    V: Fn(TransactionOrigin, Tx) -> TransactionValidationOutcome<Tx, E>,
    L: Fn(L1BlockInfo, &ChainSpec, u64, &[u8], bool) -> Result<U256, E>,

    requires
        forall|origin: TransactionOrigin, tx: Tx| #[trigger] one_answer(origin, tx, validate),
        one_fee(validator, l1_tx_data_fee),
        validator.validates_all(first, validate, l1_tx_data_fee, of_first),
        validator.validates_all(second, validate, l1_tx_data_fee, of_second),
        validator.validates_all(first + second, validate, l1_tx_data_fee, of_whole),
    ensures
        of_whole == of_first + of_second,
{
    let whole = first + second;
    let parts = of_first + of_second;
    assert forall|i: int| 0 <= i < whole.len() implies of_whole[i] == #[trigger] parts[i] by {
        assert(one_answer(whole[i].0, whole[i].1, validate));
        if i < first.len() {
            assert(whole[i] == first[i]);
            assert(parts[i] == of_first[i]);
        } else {
            assert(whole[i] == second[i - first.len()]);
            assert(parts[i] == of_second[i - first.len()]);
        }
        one_answer_makes_one_outcome(
            validator,
            whole[i].0,
            whole[i].1,
            validate,
            l1_tx_data_fee,
            of_whole[i],
            parts[i],
        );
    }
    assert(of_whole =~= parts);
}

/// A transaction that a balance carries at some L1 data fee is carried by no lower a balance at no
/// higher a fee.
pub proof fn lower_fee_and_higher_balance_admit<Tx: PoolTransaction, E>(
    balance: U256,
    more: U256,
    state_nonce: u64,
    transaction: ValidTransaction<Tx>,
    propagate: bool,
    fee: U256,
    less: U256,
)
    requires
        balance@ <= more@,
        less@ <= fee@,
        charged(balance, state_nonce, transaction, propagate, Ok::<_, E>(fee)) is Valid,
    ensures
        charged(more, state_nonce, transaction, propagate, Ok::<_, E>(less)) is Valid,
{
}

/// A fee of zero, as before the first block that brings L1 block info, takes nothing from what the
/// cost alone asks of the balance.
pub proof fn zero_fee_asks_for_the_cost_alone<Tx: PoolTransaction, E>(
    balance: U256,
    state_nonce: u64,
    transaction: ValidTransaction<Tx>,
    propagate: bool,
    fee: U256,
)
    requires
        fee@ == 0,
        transaction.spec_transaction().max_cost() <= balance@,
    ensures
        charged(balance, state_nonce, transaction, propagate, Ok::<_, E>(fee)) == (
        TransactionValidationOutcome::<Tx, E>::Valid {
            balance,
            state_nonce,
            transaction,
            propagate,
        }),
{
}

/// A transaction refused for its L1 data fee comes back with a refusal that names the balance and
/// the cost with the fee, which is more.
pub proof fn refusal_names_balance_and_cost<Tx: PoolTransaction, E>(
    balance: U256,
    state_nonce: u64,
    transaction: ValidTransaction<Tx>,
    propagate: bool,
    fee: U256,
)
    requires
        saturating_sum(transaction.spec_transaction().max_cost(), fee@) > balance@,
    ensures
        ({
            let tx = transaction.spec_transaction();
            let cost = U256::of(saturating_sum(tx.max_cost(), fee@));
            &&& charged(balance, state_nonce, transaction, propagate, Ok::<_, E>(fee))
                == TransactionValidationOutcome::<Tx, E>::Invalid(
                tx,
                InvalidPoolTransactionError::Consensus(
                    InvalidTransactionError::InsufficientFunds(
                        GotExpected { got: balance, expected: cost },
                    ),
                ),
            )
            &&& cost@ == saturating_sum(tx.max_cost(), fee@)
            &&& cost@ > balance@
        }),
{
    value_has_integer(saturating_sum(transaction.spec_transaction().max_cost(), fee@));
}

/// A transaction whose cost and L1 data fee come to no more than the balance is admitted as it is,
/// whatever the fee, and so is any with the largest balance.
pub proof fn covered_cost_and_fee_are_admitted<Tx: PoolTransaction, E>(
    balance: U256,
    state_nonce: u64,
    transaction: ValidTransaction<Tx>,
    propagate: bool,
    fee: U256,
)
    requires
        transaction.spec_transaction().max_cost() + fee@ <= balance@ || balance@
            == 0xffff_ffff_ffff_ffff_ffff_ffff_ffff_ffff_ffff_ffff_ffff_ffff_ffff_ffff_ffff_ffff,
    ensures
        charged(balance, state_nonce, transaction, propagate, Ok::<_, E>(fee)) == (
        TransactionValidationOutcome::<Tx, E>::Valid {
            balance,
            state_nonce,
            transaction,
            propagate,
        }),
{
}

/// A transaction whose cost and L1 data fee come to more than a balance that is not the largest is
/// refused and comes back, with the balance for what was got, and for what was expected the cost and
/// the fee once each, or the largest 256-bit number where they pass it.
pub proof fn uncovered_cost_and_fee_are_refused<Tx: PoolTransaction, E>(
    balance: U256,
    state_nonce: u64,
    transaction: ValidTransaction<Tx>,
    propagate: bool,
    fee: U256,
)
    requires
        transaction.spec_transaction().max_cost() + fee@ > balance@,
        balance@ < 0xffff_ffff_ffff_ffff_ffff_ffff_ffff_ffff_ffff_ffff_ffff_ffff_ffff_ffff_ffff_ffff,
    ensures
        ({
            let outcome = charged(balance, state_nonce, transaction, propagate, Ok::<_, E>(fee));
            let due = transaction.spec_transaction().max_cost() + fee@;
            let most = 0xffff_ffff_ffff_ffff_ffff_ffff_ffff_ffff_ffff_ffff_ffff_ffff_ffff_ffff_ffff_ffffnat;
            &&& outcome is Invalid
            &&& outcome->Invalid_0 == transaction.spec_transaction()
            &&& outcome->Invalid_1 is Consensus
            &&& outcome->Invalid_1->Consensus_0 is InsufficientFunds
            &&& outcome->Invalid_1->Consensus_0->InsufficientFunds_0.got == balance
            &&& outcome->Invalid_1->Consensus_0->InsufficientFunds_0.expected@ == if due > most {
                most
            } else {
                due
            }
        }),
{
    value_has_integer(saturating_sum(transaction.spec_transaction().max_cost(), fee@));
}

/// Where the L1 data fee cannot be worked out, the outcome is that error and the hash of the
/// transaction, whatever the balance.
pub proof fn fee_error_is_passed_on<Tx: PoolTransaction, E>(
    balance: U256,
    state_nonce: u64,
    transaction: ValidTransaction<Tx>,
    propagate: bool,
    error: E,
)
    ensures
        charged(balance, state_nonce, transaction, propagate, Err::<U256, E>(error))
            == TransactionValidationOutcome::<Tx, E>::Error(
            transaction.spec_transaction().signed().hash,
            error,
        ),
{
}

/// A valid transaction is the same transaction with its blobs or without.
pub proof fn blobs_do_not_change_the_transaction<Tx>(
    tx: Tx,
    sidecar: alloy_eips::eip4844::BlobTransactionSidecar,
)
    ensures
        ValidTransaction::Valid(tx).spec_transaction() == tx,
        (ValidTransaction::ValidWithSidecar { transaction: tx, sidecar }).spec_transaction() == tx,
{
}

/// Where the fee is required, an admission of the Ethereum validation is decided by the fee that is
/// worked out for the transaction's own encoding from the tracked block, as of no deposit: an error
/// is passed on, a balance that covers cost and fee leaves the admission as it is, and any other
/// refuses the transaction.
pub proof fn fee_decides_on_an_admission<Client, ChainSpec, Tx: PoolTransaction, E, L>(
    validator: OpTransactionValidator<Client, ChainSpec>,
    inner: TransactionValidationOutcome<Tx, E>,
    l1_tx_data_fee: L,
    outcome: TransactionValidationOutcome<Tx, E>,
) where L: Fn(L1BlockInfo, &ChainSpec, u64, &[u8], bool) -> Result<U256, E>
    requires
        validator.require_l1_data_gas_fee,
        inner is Valid,
        validator.finishes(inner, l1_tx_data_fee, outcome),
    ensures
        exists|encoded: &[u8], fee: Result<U256, E>|
            {
                let tx = inner->transaction.spec_transaction();
                &&& encoded@ == tx.signed().encoding()
                &&& #[trigger] call_ensures(
                    l1_tx_data_fee,
                    (
                        validator.block_info.l1_block_info,
                        &validator.inner.chain_spec,
                        validator.block_info.timestamp,
                        encoded,
                        false,
                    ),
                    fee,
                )
                &&& fee matches Err(error) ==> outcome == TransactionValidationOutcome::<
                    Tx,
                    E,
                >::Error(tx.signed().hash, error)
                &&& fee matches Ok(fee) ==> {
                    let due = tx.max_cost() + fee@;
                    let most = 0xffff_ffff_ffff_ffff_ffff_ffff_ffff_ffff_ffff_ffff_ffff_ffff_ffff_ffff_ffff_ffffnat;
                    let got = inner->balance;
                    &&& due <= got@ || got@ == most ==> outcome == inner
                    &&& due > got@ && got@ < most ==> {
                        &&& outcome is Invalid
                        &&& outcome->Invalid_0 == tx
                        &&& outcome->Invalid_1 is Consensus
                        &&& outcome->Invalid_1->Consensus_0 is InsufficientFunds
                        &&& outcome->Invalid_1->Consensus_0->InsufficientFunds_0.got == got
                        &&& outcome->Invalid_1->Consensus_0->InsufficientFunds_0.expected@
                            == if due > most {
                            most
                        } else {
                            due
                        }
                    }
                }
            },
{
    let tx = inner->transaction.spec_transaction();
    let (encoded, fee) = choose|encoded: &[u8], fee: Result<U256, E>|
        {
            &&& encoded@ == tx.signed().encoding()
            &&& #[trigger] call_ensures(
                l1_tx_data_fee,
                (
                    validator.block_info.l1_block_info,
                    &validator.inner.chain_spec,
                    validator.block_info.timestamp,
                    encoded,
                    false,
                ),
                fee,
            )
            &&& outcome == charged(
                inner->balance,
                inner->state_nonce,
                inner->transaction,
                inner->propagate,
                fee,
            )
        };
    assert(call_ensures(
        l1_tx_data_fee,
        (
            validator.block_info.l1_block_info,
            &validator.inner.chain_spec,
            validator.block_info.timestamp,
            encoded,
            false,
        ),
        fee,
    ));
    if let Ok(fee) = fee {
        let due = tx.max_cost() + fee@;
        if due > inner->balance@ && inner->balance@
            < 0xffff_ffff_ffff_ffff_ffff_ffff_ffff_ffff_ffff_ffff_ffff_ffff_ffff_ffff_ffff_ffff {
            uncovered_cost_and_fee_are_refused::<Tx, E>(
                inner->balance,
                inner->state_nonce,
                inner->transaction,
                inner->propagate,
                fee,
            );
        }
    }
}

/// A transaction of any type but the blob type has an outcome that comes of an answer of the
/// Ethereum validation to that transaction and its origin, whatever the origin.
pub proof fn outcome_comes_of_an_ethereum_answer<Client, ChainSpec, Tx: PoolTransaction, E, V, L>(
    validator: OpTransactionValidator<Client, ChainSpec>,
    origin: TransactionOrigin,
    transaction: Tx,
    validate: V,
    l1_tx_data_fee: L,
    outcome: TransactionValidationOutcome<Tx, E>,
) where
    V: Fn(TransactionOrigin, Tx) -> TransactionValidationOutcome<Tx, E>,
    L: Fn(L1BlockInfo, &ChainSpec, u64, &[u8], bool) -> Result<U256, E>,

    requires
        validator.validates(origin, transaction, validate, l1_tx_data_fee, outcome),
        transaction.type_byte() != 0x03,
    ensures
        exists|inner: TransactionValidationOutcome<Tx, E>|
            {
                &&& #[trigger] call_ensures(validate, (origin, transaction), inner)
                &&& validator.finishes(inner, l1_tx_data_fee, outcome)
                &&& !(inner is Valid) || !validator.require_l1_data_gas_fee ==> outcome == inner
            },
{
    let inner = choose|inner: TransactionValidationOutcome<Tx, E>|
        {
            &&& #[trigger] call_ensures(validate, (origin, transaction), inner)
            &&& validator.finishes(inner, l1_tx_data_fee, outcome)
        };
    assert(call_ensures(validate, (origin, transaction), inner));
}

/// A sender whose balance covers the cost and every fee that may be worked out for the transaction
/// is not turned away: where the Ethereum validation can only admit it with that balance, it is
/// admitted.
pub proof fn covered_sender_is_never_turned_away<Client, ChainSpec, Tx: PoolTransaction, E, V, L>(
    validator: OpTransactionValidator<Client, ChainSpec>,
    origin: TransactionOrigin,
    transaction: Tx,
    validate: V,
    l1_tx_data_fee: L,
    outcome: TransactionValidationOutcome<Tx, E>,
) where
    V: Fn(TransactionOrigin, Tx) -> TransactionValidationOutcome<Tx, E>,
    L: Fn(L1BlockInfo, &ChainSpec, u64, &[u8], bool) -> Result<U256, E>,

    requires
        validator.validates(origin, transaction, validate, l1_tx_data_fee, outcome),
        transaction.type_byte() != 0x03,
        forall|inner: TransactionValidationOutcome<Tx, E>| #[trigger]
            call_ensures(validate, (origin, transaction), inner) ==> inner is Valid
                && inner->transaction.spec_transaction() == transaction,
        forall|
            inner: TransactionValidationOutcome<Tx, E>,
            info: L1BlockInfo,
            spec: &ChainSpec,
            timestamp: u64,
            encoded: &[u8],
            deposit: bool,
            fee: Result<U256, E>,
        |
            #[trigger] call_ensures(validate, (origin, transaction), inner)
                && #[trigger] call_ensures(
                l1_tx_data_fee,
                (info, spec, timestamp, encoded, deposit),
                fee,
            ) ==> fee is Ok && transaction.max_cost() + fee->Ok_0@ <= inner->balance@,
    ensures
        outcome is Valid,
        call_ensures(validate, (origin, transaction), outcome),
{
    let inner = choose|inner: TransactionValidationOutcome<Tx, E>|
        {
            &&& #[trigger] call_ensures(validate, (origin, transaction), inner)
            &&& validator.finishes(inner, l1_tx_data_fee, outcome)
        };
    assert(call_ensures(validate, (origin, transaction), inner));
    if validator.require_l1_data_gas_fee {
        fee_decides_on_an_admission(validator, inner, l1_tx_data_fee, outcome);
    }
}

/// A batch has one outcome for each transaction, in order, and each is one that the transaction may
/// have on its own, with its own origin.
pub proof fn batch_outcome_is_that_of_the_transaction_alone<
    Client,
    ChainSpec,
    Tx: PoolTransaction,
    E,
    V,
    L,
>(
    validator: OpTransactionValidator<Client, ChainSpec>,
    transactions: Seq<(TransactionOrigin, Tx)>,
    validate: V,
    l1_tx_data_fee: L,
    outcomes: Seq<TransactionValidationOutcome<Tx, E>>,
    i: int,
) where
    V: Fn(TransactionOrigin, Tx) -> TransactionValidationOutcome<Tx, E>,
    L: Fn(L1BlockInfo, &ChainSpec, u64, &[u8], bool) -> Result<U256, E>,

    requires
        validator.validates_all(transactions, validate, l1_tx_data_fee, outcomes),
        0 <= i < transactions.len(),
    ensures
        outcomes.len() == transactions.len(),
        validator.validates(
            transactions[i].0,
            transactions[i].1,
            validate,
            l1_tx_data_fee,
            outcomes[i],
        ),
{
}

/// Validating a batch of one transaction is validating that transaction.
pub proof fn batch_of_one_is_the_transaction_alone<Client, ChainSpec, Tx: PoolTransaction, E, V, L>(
    validator: OpTransactionValidator<Client, ChainSpec>,
    origin: TransactionOrigin,
    transaction: Tx,
    validate: V,
    l1_tx_data_fee: L,
    outcome: TransactionValidationOutcome<Tx, E>,
) where
    V: Fn(TransactionOrigin, Tx) -> TransactionValidationOutcome<Tx, E>,
    L: Fn(L1BlockInfo, &ChainSpec, u64, &[u8], bool) -> Result<U256, E>,

    ensures
        validator.validates_all(
            seq![(origin, transaction)],
            validate,
            l1_tx_data_fee,
            seq![outcome],
        ) == validator.validates(origin, transaction, validate, l1_tx_data_fee, outcome),
{
    let outcomes = seq![outcome];
    assert(outcomes[0] == outcome);
}

/// Where the fee is required, every admitted member of a batch, from whatever origin, can pay its
/// cost and the fee worked out for its encoding from the tracked block.
pub proof fn admitted_member_of_a_batch_can_pay<Client, ChainSpec, Tx: PoolTransaction, E, V, L>(
    validator: OpTransactionValidator<Client, ChainSpec>,
    transactions: Seq<(TransactionOrigin, Tx)>,
    validate: V,
    l1_tx_data_fee: L,
    outcomes: Seq<TransactionValidationOutcome<Tx, E>>,
    i: int,
) where
    V: Fn(TransactionOrigin, Tx) -> TransactionValidationOutcome<Tx, E>,
    L: Fn(L1BlockInfo, &ChainSpec, u64, &[u8], bool) -> Result<U256, E>,

    requires
        validator.validates_all(transactions, validate, l1_tx_data_fee, outcomes),
        0 <= i < transactions.len(),
        validator.require_l1_data_gas_fee,
        outcomes[i] is Valid,
    ensures
        ({
            let tx = outcomes[i]->transaction.spec_transaction();
            exists|encoded: &[u8], fee: U256|
                {
                    &&& encoded@ == tx.signed().encoding()
                    &&& #[trigger] call_ensures(
                        l1_tx_data_fee,
                        (
                            validator.block_info.l1_block_info,
                            &validator.inner.chain_spec,
                            validator.block_info.timestamp,
                            encoded,
                            false,
                        ),
                        Ok::<U256, E>(fee),
                    )
                    &&& tx.max_cost() + fee@ <= outcomes[i]->balance@ || outcomes[i]->balance@
                        == 0xffff_ffff_ffff_ffff_ffff_ffff_ffff_ffff_ffff_ffff_ffff_ffff_ffff_ffff_ffff_ffff
                }
        }),
{
    batch_outcome_is_that_of_the_transaction_alone(
        validator,
        transactions,
        validate,
        l1_tx_data_fee,
        outcomes,
        i,
    );
    admitted_sender_can_pay_l1_fee(
        validator,
        transactions[i].0,
        transactions[i].1,
        validate,
        l1_tx_data_fee,
        outcomes[i],
    );
    let tx = outcomes[i]->transaction.spec_transaction();
    let (encoded, fee) = choose|encoded: &[u8], fee: U256|
        {
            &&& encoded@ == tx.signed().encoding()
            &&& #[trigger] call_ensures(
                l1_tx_data_fee,
                (
                    validator.block_info.l1_block_info,
                    &validator.inner.chain_spec,
                    validator.block_info.timestamp,
                    encoded,
                    false,
                ),
                Ok::<U256, E>(fee),
            )
            &&& saturating_sum(tx.max_cost(), fee@) <= outcomes[i]->balance@
        };
    assert(tx.max_cost() + fee@ <= outcomes[i]->balance@ || outcomes[i]->balance@
        == 0xffff_ffff_ffff_ffff_ffff_ffff_ffff_ffff_ffff_ffff_ffff_ffff_ffff_ffff_ffff_ffff);
}

/// The type that is refused outright is type three, and it alone: such a transaction has that one
/// outcome.
pub proof fn type_three_is_refused_for_its_type<Client, ChainSpec, Tx: PoolTransaction, E, V, L>(
    validator: OpTransactionValidator<Client, ChainSpec>,
    origin: TransactionOrigin,
    transaction: Tx,
    validate: V,
    l1_tx_data_fee: L,
    outcome: TransactionValidationOutcome<Tx, E>,
) where
    V: Fn(TransactionOrigin, Tx) -> TransactionValidationOutcome<Tx, E>,
    L: Fn(L1BlockInfo, &ChainSpec, u64, &[u8], bool) -> Result<U256, E>,

    requires
        validator.validates(origin, transaction, validate, l1_tx_data_fee, outcome),
        transaction.type_byte() == 0x03,
    ensures
        outcome == TransactionValidationOutcome::<Tx, E>::Invalid(
            transaction,
            InvalidPoolTransactionError::Consensus(InvalidTransactionError::TxTypeNotSupported),
        ),
{
}

/// A fee function that may always be called may be handed to any validator, and one that does not
/// require the fee takes any.
pub proof fn total_fee_may_be_asked<Client, ChainSpec, E, L>(
    validator: OpTransactionValidator<Client, ChainSpec>,
    l1_tx_data_fee: L,
) where L: Fn(L1BlockInfo, &ChainSpec, u64, &[u8], bool) -> Result<U256, E>
    requires
        validator.require_l1_data_gas_fee ==> forall|
            info: L1BlockInfo,
            spec: &ChainSpec,
            timestamp: u64,
            encoded: &[u8],
        | #[trigger] call_requires(l1_tx_data_fee, (info, spec, timestamp, encoded, false)),
    ensures
        validator.may_ask_fee::<E, L>(l1_tx_data_fee),
{
}

} // verus!
