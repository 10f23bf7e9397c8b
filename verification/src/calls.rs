//! What a caller may rely on, stated of the calls themselves: how the result of each operation
//! relates to what it was given.
use crate::block::{
    block_leaves_what_its_first_transaction_brings, genesis_and_no_block_bring_no_l1_info,
    later_block_brings_its_first_transaction, Block, BlockNumberOrTag, Header, OpL1BlockInfo,
};
use crate::laws::{
    admitted_member_of_a_batch_can_pay, admitted_sender_can_pay_l1_fee,
    covered_sender_is_never_turned_away, fee_decides_on_an_admission,
    outcome_comes_of_an_ethereum_answer, uncovered_cost_and_fee_are_refused,
};
use crate::outside::{fastlz_size, keccak256_digest, l1_block_info_fields, L1BlockInfoFields};
use crate::pool::{EthPooledTransaction, OpPooledTransaction, PoolTransaction};
use crate::primitives::{Address, Signature, B256};
use crate::transaction::{OpTransactionSigned, OpTypedTransaction, Recovered};
use crate::u256::U256;
use crate::validate::{
    charge_l1_data_fee, EthTransactionValidator, InvalidPoolTransactionError,
    InvalidTransactionError, OpTransactionValidator, TransactionOrigin,
    TransactionValidationOutcome, ValidTransaction,
};
use revm::L1BlockInfo;
use vstd::prelude::*;

verus! {

/// A saturating sum of two integers is their sum, or the largest integer where they pass it.
pub proof fn adding_gives_the_sum_or_the_largest(a: U256, b: U256, sum: U256)
    requires
        call_ensures(U256::saturating_add, (a, b), sum),
    ensures
        a@ + b@ <= 0xffff_ffff_ffff_ffff_ffff_ffff_ffff_ffff_ffff_ffff_ffff_ffff_ffff_ffff_ffff_ffff ==> sum@ == a@ + b@,
        a@ + b@ > 0xffff_ffff_ffff_ffff_ffff_ffff_ffff_ffff_ffff_ffff_ffff_ffff_ffff_ffff_ffff_ffff ==> sum@
            == 0xffff_ffff_ffff_ffff_ffff_ffff_ffff_ffff_ffff_ffff_ffff_ffff_ffff_ffff_ffff_ffff,
{
}

/// The cost of a transaction is its gas limit at its fee cap and the amount transferred, and at
/// most the largest integer. It covers the amount transferred.
pub proof fn cost_is_gas_and_value(tx: &OpTypedTransaction, cost: U256)
    requires
        call_ensures(OpTypedTransaction::max_cost, (tx,), cost),
    ensures
        ({
            let due = tx@.max_fee_per_gas() * tx@.gas_limit() + tx@.value()@;
            &&& due <= 0xffff_ffff_ffff_ffff_ffff_ffff_ffff_ffff_ffff_ffff_ffff_ffff_ffff_ffff_ffff_ffff ==> cost@ == due
            &&& due > 0xffff_ffff_ffff_ffff_ffff_ffff_ffff_ffff_ffff_ffff_ffff_ffff_ffff_ffff_ffff_ffff ==> cost@
                == 0xffff_ffff_ffff_ffff_ffff_ffff_ffff_ffff_ffff_ffff_ffff_ffff_ffff_ffff_ffff_ffff
        }),
        cost@ >= tx@.value()@,
{
    assert(tx@.max_fee_per_gas() * tx@.gas_limit() >= 0) by (nonlinear_arith);
}

/// Two transactions that bid the same for the same gas cost amounts that are as far apart as what
/// they transfer, where nothing passes the largest integer.
pub proof fn costs_differ_as_values_do(
    a: &OpTypedTransaction,
    b: &OpTypedTransaction,
    cost_of_a: U256,
    cost_of_b: U256,
)
    requires
        call_ensures(OpTypedTransaction::max_cost, (a,), cost_of_a),
        call_ensures(OpTypedTransaction::max_cost, (b,), cost_of_b),
        a@.max_fee_per_gas() == b@.max_fee_per_gas(),
        a@.gas_limit() == b@.gas_limit(),
        cost_of_a@ < 0xffff_ffff_ffff_ffff_ffff_ffff_ffff_ffff_ffff_ffff_ffff_ffff_ffff_ffff_ffff_ffff,
        cost_of_b@ < 0xffff_ffff_ffff_ffff_ffff_ffff_ffff_ffff_ffff_ffff_ffff_ffff_ffff_ffff_ffff_ffff,
    ensures
        cost_of_b@ - cost_of_a@ == b@.value()@ - a@.value()@,
{
    cost_is_gas_and_value(a, cost_of_a);
    cost_is_gas_and_value(b, cost_of_b);
}

/// A pool transaction is made of what it is given, with the cost that the transaction has.
pub proof fn making_a_pool_transaction_keeps_its_parts(
    transaction: Recovered<OpTransactionSigned>,
    encoded_length: usize,
    inner: EthPooledTransaction,
    pooled: OpPooledTransaction,
)
    requires
        call_ensures(EthPooledTransaction::new, (transaction, encoded_length), inner),
        call_ensures(OpPooledTransaction::new, (transaction, encoded_length), pooled),
    ensures
        inner.transaction == transaction,
        inner.encoded_length == encoded_length,
        inner.cost@ >= transaction.transaction.transaction@.value()@,
        inner.cost@ == pooled.max_cost(),
        pooled.signed() == transaction.transaction@,
        pooled.signed_by() == transaction.signer,
        pooled.told_length() == encoded_length,
{
    let tx = transaction.transaction.transaction@;
    assert(tx.max_fee_per_gas() * tx.gas_limit() >= 0) by (nonlinear_arith);
}

/// The estimate is 0.8365 bytes for each byte that FastLZ makes of the encoding, less 42.5856
/// bytes, and at least 100 bytes, in millionths of a byte, whether it was cached or not. Asking for
/// it leaves the transaction, its signer and its length as they were.
pub proof fn asking_gives_the_larger_of_floor_and_line(
    pooled: &mut OpPooledTransaction,
    before: OpPooledTransaction,
    after: OpPooledTransaction,
    size: u64,
)
    requires
        call_ensures(OpPooledTransaction::estimated_compressed_size, (pooled,), size),
        before == *old(pooled),
        after == *final(pooled),
    ensures
        ({
            let line = fastlz_size(before.signed().encoding()) * 836_500 - 42_585_600;
            &&& line >= 100_000_000 ==> size == line
            &&& line < 100_000_000 ==> size == 100_000_000
        }),
        after.cached_size() == Some(size),
        after.signed() == before.signed(),
        after.signed_by() == before.signed_by(),
        after.told_length() == before.told_length(),
{
}

/// Two pool transactions of one encoding have one estimate.
pub proof fn one_encoding_has_one_estimate(
    a: &mut OpPooledTransaction,
    b: &mut OpPooledTransaction,
    size_of_a: u64,
    size_of_b: u64,
)
    requires
        call_ensures(OpPooledTransaction::estimated_compressed_size, (a,), size_of_a),
        call_ensures(OpPooledTransaction::estimated_compressed_size, (b,), size_of_b),
        old(a).signed().encoding() == old(b).signed().encoding(),
    ensures
        size_of_a == size_of_b,
{
}

/// Asking for the estimate with care gives what asking for it outright gives, wherever the encoding
/// is short enough to be estimated, and gives nothing only where it is not.
pub proof fn careful_asking_gives_the_same(
    careful: &mut OpPooledTransaction,
    outright: &mut OpPooledTransaction,
    maybe: Option<u64>,
    size: u64,
)
    requires
        call_ensures(OpPooledTransaction::try_estimated_compressed_size, (careful,), maybe),
        call_ensures(OpPooledTransaction::estimated_compressed_size, (outright,), size),
        *old(careful) == *old(outright),
    ensures
        old(careful).signed().encoding().len() <= 4_164_816_770 ==> maybe == Some(size),
        maybe matches Some(given) ==> given == size,
        maybe is None ==> old(careful).signed().encoding().len() > 4_164_816_770,
        final(careful).signed() == old(careful).signed(),
        final(careful).signed_by() == old(careful).signed_by(),
        final(careful).told_length() == old(careful).told_length(),
{
}

/// A transaction signed without a hash given has the Keccak-256 digest of its own encoding for one,
/// and one signed with a hash keeps that. Neither changes the transaction or the signature.
pub proof fn hash_is_given_or_of_the_encoding(
    transaction: OpTypedTransaction,
    signature: Signature,
    hash: B256,
    given: OpTransactionSigned,
    unhashed: OpTransactionSigned,
    encoding: Vec<u8>,
    length: usize,
)
    requires
        call_ensures(OpTransactionSigned::new, (transaction, signature, hash), given),
        call_ensures(OpTransactionSigned::new_unhashed, (transaction, signature), unhashed),
        call_ensures(OpTransactionSigned::encoded_2718, (&unhashed,), encoding),
        call_ensures(OpTransactionSigned::encode_2718_len, (&unhashed,), length),
    ensures
        given.hash == hash,
        given.transaction == transaction && given.signature == signature,
        unhashed.transaction == transaction && unhashed.signature == signature,
        encoding@ == transaction@.encoding(signature),
        length == encoding@.len(),
        unhashed.hash.bytes@ == keccak256_digest(encoding@),
{
}

/// What the pool reads off a transaction is what the signed transaction itself says.
pub proof fn pool_reads_what_the_transaction_says(
    pooled: &OpPooledTransaction,
    signed: Recovered<OpTransactionSigned>,
    hash: &B256,
    sender: Address,
    nonce: u64,
    cost: &U256,
    gas_limit: u64,
    input: &[u8],
    size: usize,
    tx_type: u8,
)
    requires
        signed == pooled.recovered(),
        call_ensures(<OpPooledTransaction as PoolTransaction>::hash, (pooled,), hash),
        call_ensures(<OpPooledTransaction as PoolTransaction>::sender, (pooled,), sender),
        call_ensures(<OpPooledTransaction as PoolTransaction>::nonce, (pooled,), nonce),
        call_ensures(<OpPooledTransaction as PoolTransaction>::cost, (pooled,), cost),
        call_ensures(<OpPooledTransaction as PoolTransaction>::gas_limit, (pooled,), gas_limit),
        call_ensures(<OpPooledTransaction as PoolTransaction>::input, (pooled,), input),
        call_ensures(<OpPooledTransaction as PoolTransaction>::size, (pooled,), size),
        call_ensures(<OpPooledTransaction as PoolTransaction>::tx_type, (pooled,), tx_type),
    ensures
        *hash == signed.transaction.hash,
        sender == signed.signer,
        nonce == signed.transaction.transaction@.nonce(),
        cost@ >= signed.transaction.transaction@.value()@,
        gas_limit == signed.transaction.transaction@.gas_limit(),
        input@ == signed.transaction.transaction@.input(),
        size == input@.len(),
        tx_type == signed.transaction.transaction@.tx_type(),
{
    let tx = signed.transaction.transaction@;
    assert(tx.max_fee_per_gas() * tx.gas_limit() >= 0) by (nonlinear_arith);
}

/// The first transaction is the one at the front, whatever the length of the block.
pub proof fn first_transaction_is_at_the_front<T>(block: &Block<T>, tx: Option<&T>)
    requires
        call_ensures(Block::<T>::first_transaction, (block,), tx),
    ensures
        block.transactions@.len() == 0 ==> tx is None,
        block.transactions@.len() > 0 ==> tx == Some(&block.transactions@[0]),
{
}

/// Two blocks that start with the same transaction have the same first transaction, whatever
/// follows.
pub proof fn blocks_with_one_front_have_one_first_transaction<T>(
    a: &Block<T>,
    b: &Block<T>,
    tx: T,
    rest: Seq<T>,
    first_of_a: Option<&T>,
    first_of_b: Option<&T>,
)
    requires
        call_ensures(Block::<T>::first_transaction, (a,), first_of_a),
        call_ensures(Block::<T>::first_transaction, (b,), first_of_b),
        a.transactions@ == seq![tx] + rest,
        b.transactions@ == seq![tx],
    ensures
        first_of_a == first_of_b,
        first_of_a == Some(&tx),
{
}

/// Taking in a new head hands the head to the Ethereum validator, and leaves the head's timestamp
/// and the L1 block info that reading its transaction at the front gave. Where there is none, or
/// reading failed, the L1 block info before it stays. The rest of the validator does not change.
pub proof fn new_head_brings_its_first_transaction<Client, ChainSpec, T, E, N, X>(
    validator: &mut OpTransactionValidator<Client, ChainSpec>,
    before: OpTransactionValidator<Client, ChainSpec>,
    after: OpTransactionValidator<Client, ChainSpec>,
    block: &Block<T>,
    notify: N,
    extract: X,
) where
    N: FnOnce(&OpTransactionValidator<Client, ChainSpec>, &Block<T>),
    X: Fn(&T) -> Result<L1BlockInfo, E>,

    requires
        call_ensures(
            OpTransactionValidator::<Client, ChainSpec>::on_new_head_block::<T, E, N, X>,
            (validator, block, notify, &extract),
            (),
        ),
        before == *old(validator),
        after == *final(validator),
    ensures
        call_ensures(notify, (&before, block), ()),
        after.inner == before.inner,
        after.require_l1_data_gas_fee == before.require_l1_data_gas_fee,
        after.block_info.timestamp == block.header.timestamp,
        block.transactions@.len() == 0 ==> after.block_info.l1_block_info
            == before.block_info.l1_block_info,
        block.transactions@.len() > 0 ==> exists|extracted: Result<L1BlockInfo, E>|
            {
                &&& #[trigger] call_ensures(extract, (&block.transactions@[0],), extracted)
                &&& extracted matches Ok(info) ==> after.block_info.l1_block_info == info
                &&& extracted is Err ==> after.block_info.l1_block_info
                    == before.block_info.l1_block_info
            },
{
    block_leaves_what_its_first_transaction_brings(
        *block,
        before.block_info,
        extract,
        after.block_info,
    );
}

/// Updating from a header and a transaction leaves the header's timestamp, and the L1 block info
/// that reading the transaction gave, if it gave any. The rest of the validator does not change.
pub proof fn update_brings_what_is_read_off_the_transaction<Client, ChainSpec, T, E, X>(
    validator: &mut OpTransactionValidator<Client, ChainSpec>,
    before: OpTransactionValidator<Client, ChainSpec>,
    after: OpTransactionValidator<Client, ChainSpec>,
    header: &Header,
    tx: Option<&T>,
    extract: X,
) where X: Fn(&T) -> Result<L1BlockInfo, E>
    requires
        call_ensures(
            OpTransactionValidator::<Client, ChainSpec>::update_l1_block_info::<T, E, X>,
            (validator, header, tx, &extract),
            (),
        ),
        before == *old(validator),
        after == *final(validator),
    ensures
        after.inner == before.inner,
        after.require_l1_data_gas_fee == before.require_l1_data_gas_fee,
        after.block_info.timestamp == header.timestamp,
        tx is None ==> after.block_info.l1_block_info == before.block_info.l1_block_info,
        tx matches Some(tx) ==> exists|extracted: Result<L1BlockInfo, E>|
            {
                &&& #[trigger] call_ensures(extract, (tx,), extracted)
                &&& extracted matches Ok(info) ==> after.block_info.l1_block_info == info
                &&& extracted is Err ==> after.block_info.l1_block_info
                    == before.block_info.l1_block_info
            },
{
    if let Some(tx) = tx {
        let extracted = choose|extracted: Result<L1BlockInfo, E>|
            {
                &&& #[trigger] call_ensures(extract, (tx,), extracted)
                &&& after.block_info == before.block_info.updated(
                    header.timestamp,
                    Some(extracted),
                )
            };
        assert(call_ensures(extract, (tx,), extracted));
    }
}

/// A new validator requires the L1 data fee and is set up with what it was given. It knows the
/// newest block: its timestamp, and the L1 block info read off its transaction at the front. Where
/// there is none, or reading failed, or the block is the first of the chain, no L1 block info is
/// known, and without a block no timestamp either.
pub proof fn new_validator_knows_the_newest_block<Client, ChainSpec, T, P, E, B, X>(
    inner: EthTransactionValidator<Client, ChainSpec>,
    blocks: B,
    extract: X,
    validator: OpTransactionValidator<Client, ChainSpec>,
) where
    B: Fn(&Client, BlockNumberOrTag) -> Result<Option<Block<T>>, P>,
    X: Fn(&T) -> Result<L1BlockInfo, E>,

    requires
        call_ensures(
            OpTransactionValidator::<Client, ChainSpec>::new::<T, P, E, B, X>,
            (inner, &blocks, &extract),
            validator,
        ),
    ensures
        validator.inner == inner,
        validator.require_l1_data_gas_fee,
        exists|latest: Result<Option<Block<T>>, P>|
            {
                &&& #[trigger] call_ensures(
                    blocks,
                    (&inner.client, BlockNumberOrTag::Latest),
                    latest,
                )
                &&& !(latest matches Ok(Some(_))) ==> {
                    &&& validator.block_info.timestamp == 0
                    &&& l1_block_info_fields(validator.block_info.l1_block_info)
                        == L1BlockInfoFields::empty()
                }
                &&& latest matches Ok(Some(block)) ==> {
                    &&& validator.block_info.timestamp == block.header.timestamp
                    &&& block.header.number == 0 || block.transactions@.len() == 0
                        ==> l1_block_info_fields(validator.block_info.l1_block_info)
                        == L1BlockInfoFields::empty()
                    &&& block.header.number != 0 && block.transactions@.len() > 0 ==> exists|
                        extracted: Result<L1BlockInfo, E>,
                    |
                        {
                            &&& #[trigger] call_ensures(
                                extract,
                                (&block.transactions@[0],),
                                extracted,
                            )
                            &&& extracted matches Ok(info) ==> validator.block_info.l1_block_info
                                == info
                            &&& extracted is Err ==> l1_block_info_fields(
                                validator.block_info.l1_block_info,
                            ) == L1BlockInfoFields::empty()
                        }
                }
            },
{
    let latest = choose|latest: Result<Option<Block<T>>, P>|
        {
            &&& #[trigger] call_ensures(blocks, (&inner.client, BlockNumberOrTag::Latest), latest)
            &&& OpL1BlockInfo::starts(latest, extract, validator.block_info)
        };
    assert(call_ensures(blocks, (&inner.client, BlockNumberOrTag::Latest), latest));
    if latest matches Ok(Some(block)) && block.header.number != 0 {
        later_block_brings_its_first_transaction::<T, P, E, X>(
            latest->Ok_0->Some_0,
            extract,
            validator.block_info,
        );
    } else {
        genesis_and_no_block_bring_no_l1_info(latest, extract, validator.block_info);
    }
}

/// Whether the L1 data fee is required is what was last said, and saying so changes nothing else.
pub proof fn requirement_is_what_was_said<Client, ChainSpec>(
    inner: EthTransactionValidator<Client, ChainSpec>,
    block_info: OpL1BlockInfo,
    validator: OpTransactionValidator<Client, ChainSpec>,
    required: bool,
    changed: OpTransactionValidator<Client, ChainSpec>,
    answer: bool,
)
    requires
        call_ensures(
            OpTransactionValidator::<Client, ChainSpec>::with_block_info,
            (inner, block_info),
            validator,
        ),
        call_ensures(
            OpTransactionValidator::<Client, ChainSpec>::require_l1_data_gas_fee,
            (validator, required),
            changed,
        ),
        call_ensures(
            OpTransactionValidator::<Client, ChainSpec>::requires_l1_data_gas_fee,
            (&changed,),
            answer,
        ),
    ensures
        validator.require_l1_data_gas_fee,
        answer == required,
        changed.inner == inner,
        changed.block_info == block_info,
{
}

/// Charging a fee that the balance covers on top of the cost admits the transaction as it is,
/// whatever the fee.
pub proof fn charging_admits_what_is_covered<Tx: PoolTransaction, E>(
    balance: U256,
    state_nonce: u64,
    transaction: ValidTransaction<Tx>,
    propagate: bool,
    fee: U256,
    outcome: TransactionValidationOutcome<Tx, E>,
)
    requires
        call_ensures(
            charge_l1_data_fee::<Tx, E>,
            (balance, state_nonce, transaction, propagate, Ok::<U256, E>(fee)),
            outcome,
        ),
        transaction.spec_transaction().max_cost() + fee@ <= balance@,
    ensures
        outcome == (TransactionValidationOutcome::<Tx, E>::Valid {
            balance,
            state_nonce,
            transaction,
            propagate,
        }),
{
}

/// Charging a fee that the balance does not cover on top of the cost refuses the transaction, and
/// says how much there was and how much was needed: the cost and the fee, once each.
pub proof fn charging_refuses_what_is_not_covered<Tx: PoolTransaction, E>(
    balance: U256,
    state_nonce: u64,
    transaction: ValidTransaction<Tx>,
    propagate: bool,
    fee: U256,
    outcome: TransactionValidationOutcome<Tx, E>,
)
    requires
        call_ensures(
            charge_l1_data_fee::<Tx, E>,
            (balance, state_nonce, transaction, propagate, Ok::<U256, E>(fee)),
            outcome,
        ),
        transaction.spec_transaction().max_cost() + fee@ > balance@,
        transaction.spec_transaction().max_cost() + fee@
            <= 0xffff_ffff_ffff_ffff_ffff_ffff_ffff_ffff_ffff_ffff_ffff_ffff_ffff_ffff_ffff_ffff,
    ensures
        outcome is Invalid,
        outcome->Invalid_0 == transaction.spec_transaction(),
        outcome->Invalid_1 is Consensus,
        outcome->Invalid_1->Consensus_0 is InsufficientFunds,
        ({
            let funds = outcome->Invalid_1->Consensus_0->InsufficientFunds_0;
            &&& funds.got == balance
            &&& funds.expected@ == transaction.spec_transaction().max_cost() + fee@
        }),
{
    uncovered_cost_and_fee_are_refused::<Tx, E>(balance, state_nonce, transaction, propagate, fee);
}

/// Validating refuses a blob transaction for its type and makes of any other what the Ethereum
/// validation said of it with its origin: that itself where it does not admit the transaction or
/// the L1 data fee is not required. An admission stands only for a balance that covers the cost and
/// the fee for the transaction's encoding.
pub proof fn validating_one_follows_the_rules<Client, ChainSpec, Tx: PoolTransaction, E, V, L>(
    validator: OpTransactionValidator<Client, ChainSpec>,
    origin: TransactionOrigin,
    transaction: Tx,
    validate: V,
    l1_tx_data_fee: L,
    outcome: TransactionValidationOutcome<Tx, E>,
) where
    V: Fn(TransactionOrigin, Tx) -> TransactionValidationOutcome<Tx, E>,
    L: Fn(L1BlockInfo, &ChainSpec, u64, &[u8], bool) -> Result<U256, E>,

    requires
        call_ensures(
            OpTransactionValidator::<Client, ChainSpec>::validate_one::<Tx, E, V, L>,
            (&validator, origin, transaction, &validate, &l1_tx_data_fee),
            outcome,
        ),
    ensures
        transaction.type_byte() == 0x03 ==> outcome == TransactionValidationOutcome::<
            Tx,
            E,
        >::Invalid(
            transaction,
            InvalidPoolTransactionError::Consensus(InvalidTransactionError::TxTypeNotSupported),
        ),
        transaction.type_byte() != 0x03 ==> exists|inner: TransactionValidationOutcome<Tx, E>|
            {
                &&& #[trigger] call_ensures(validate, (origin, transaction), inner)
                &&& !(inner is Valid) || !validator.require_l1_data_gas_fee ==> outcome == inner
            },
        outcome is Valid && validator.require_l1_data_gas_fee ==> exists|encoded: &[u8], fee: U256|
            {
                let tx = outcome->transaction.spec_transaction();
                &&& encoded@ == tx.signed().encoding()
                &&& #[trigger] call_ensures(
                    l1_tx_data_fee,
                    (
                        validator.block_info.l1_block_info,
                        &validator.inner.chain_spec,
                        validator.block_info.timestamp,
                        encoded,
                        false,
                    ),
                    Ok::<U256, E>(fee),
                )
                &&& tx.max_cost() + fee@ <= outcome->balance@ || outcome->balance@
                    == 0xffff_ffff_ffff_ffff_ffff_ffff_ffff_ffff_ffff_ffff_ffff_ffff_ffff_ffff_ffff_ffff
            },
{
    if transaction.type_byte() != 0x03 {
        outcome_comes_of_an_ethereum_answer(
            validator,
            origin,
            transaction,
            validate,
            l1_tx_data_fee,
            outcome,
        );
    }
    if outcome is Valid && validator.require_l1_data_gas_fee {
        admitted_sender_can_pay_l1_fee(
            validator,
            origin,
            transaction,
            validate,
            l1_tx_data_fee,
            outcome,
        );
    }
}

/// Finishing the validation of an admitted transaction, where the fee is required, works out the
/// fee for the transaction's own encoding and keeps the admission where the balance covers it and
/// the cost. All else is finished as it is.
pub proof fn finishing_keeps_what_is_covered<Client, ChainSpec, Tx: PoolTransaction, E, L>(
    validator: OpTransactionValidator<Client, ChainSpec>,
    inner: TransactionValidationOutcome<Tx, E>,
    l1_tx_data_fee: L,
    outcome: TransactionValidationOutcome<Tx, E>,
) where L: Fn(L1BlockInfo, &ChainSpec, u64, &[u8], bool) -> Result<U256, E>
    requires
        call_ensures(
            OpTransactionValidator::<Client, ChainSpec>::finish_validation::<Tx, E, L>,
            (&validator, inner, &l1_tx_data_fee),
            outcome,
        ),
    ensures
        !(inner is Valid) || !validator.require_l1_data_gas_fee ==> outcome == inner,
        inner is Valid && validator.require_l1_data_gas_fee ==> exists|
            encoded: &[u8],
            fee: Result<U256, E>,
        |
            {
                let tx = inner->transaction.spec_transaction();
                &&& encoded@ == tx.signed().encoding()
                &&& #[trigger] call_ensures(
                    l1_tx_data_fee,
                    (
                        validator.block_info.l1_block_info,
                        &validator.inner.chain_spec,
                        validator.block_info.timestamp,
                        encoded,
                        false,
                    ),
                    fee,
                )
                &&& fee matches Err(error) ==> outcome == TransactionValidationOutcome::<
                    Tx,
                    E,
                >::Error(tx.signed().hash, error)
                &&& fee matches Ok(fee) ==> {
                    &&& tx.max_cost() + fee@ <= inner->balance@ ==> outcome == inner
                    &&& tx.max_cost() + fee@ > inner->balance@ && inner->balance@
                        < 0xffff_ffff_ffff_ffff_ffff_ffff_ffff_ffff_ffff_ffff_ffff_ffff_ffff_ffff_ffff_ffff
                        ==> outcome is Invalid && outcome->Invalid_0 == tx
                }
            },
{
    if inner is Valid && validator.require_l1_data_gas_fee {
        fee_decides_on_an_admission(validator, inner, l1_tx_data_fee, outcome);
    }
}

/// A batch has one outcome for each transaction, in order. A blob transaction is refused for its
/// type, any other has an outcome made of what the Ethereum validation said of it with its own
/// origin, and an admitted one can pay its cost and its L1 data fee where that is required.
pub proof fn validating_all_is_validating_each<Client, ChainSpec, Tx: PoolTransaction, E, V, L>(
    validator: OpTransactionValidator<Client, ChainSpec>,
    transactions: Vec<(TransactionOrigin, Tx)>,
    validate: V,
    l1_tx_data_fee: L,
    outcomes: Vec<TransactionValidationOutcome<Tx, E>>,
    i: int,
) where
    V: Fn(TransactionOrigin, Tx) -> TransactionValidationOutcome<Tx, E>,
    L: Fn(L1BlockInfo, &ChainSpec, u64, &[u8], bool) -> Result<U256, E>,

    requires
        call_ensures(
            OpTransactionValidator::<Client, ChainSpec>::validate_all::<Tx, E, V, L>,
            (&validator, transactions, &validate, &l1_tx_data_fee),
            outcomes,
        ),
        0 <= i < transactions@.len(),
    ensures
        outcomes@.len() == transactions@.len(),
        transactions@[i].1.type_byte() == 0x03 ==> outcomes@[i]
            == TransactionValidationOutcome::<Tx, E>::Invalid(
            transactions@[i].1,
            InvalidPoolTransactionError::Consensus(InvalidTransactionError::TxTypeNotSupported),
        ),
        transactions@[i].1.type_byte() != 0x03 ==> exists|
            inner: TransactionValidationOutcome<Tx, E>,
        |
            {
                &&& #[trigger] call_ensures(
                    validate,
                    (transactions@[i].0, transactions@[i].1),
                    inner,
                )
                &&& !(inner is Valid) || !validator.require_l1_data_gas_fee ==> outcomes@[i]
                    == inner
            },
        outcomes@[i] is Valid && validator.require_l1_data_gas_fee ==> exists|
            encoded: &[u8],
            fee: U256,
        |
            {
                let tx = outcomes@[i]->transaction.spec_transaction();
                &&& encoded@ == tx.signed().encoding()
                &&& #[trigger] call_ensures(
                    l1_tx_data_fee,
                    (
                        validator.block_info.l1_block_info,
                        &validator.inner.chain_spec,
                        validator.block_info.timestamp,
                        encoded,
                        false,
                    ),
                    Ok::<U256, E>(fee),
                )
                &&& tx.max_cost() + fee@ <= outcomes@[i]->balance@ || outcomes@[i]->balance@
                    == 0xffff_ffff_ffff_ffff_ffff_ffff_ffff_ffff_ffff_ffff_ffff_ffff_ffff_ffff_ffff_ffff
            },
{
    let outcome = outcomes@[i];
    if transactions@[i].1.type_byte() != 0x03 {
        outcome_comes_of_an_ethereum_answer(
            validator,
            transactions@[i].0,
            transactions@[i].1,
            validate,
            l1_tx_data_fee,
            outcome,
        );
    }
    if outcome is Valid && validator.require_l1_data_gas_fee {
        admitted_member_of_a_batch_can_pay(
            validator,
            transactions@,
            validate,
            l1_tx_data_fee,
            outcomes@,
            i,
        );
    }
}

/// A member of a batch is not turned away where the Ethereum validation can only admit it, and
/// with a balance that covers its cost and every fee that may be worked out.
pub proof fn covered_member_of_a_batch_is_admitted<Client, ChainSpec, Tx: PoolTransaction, E, V, L>(
    validator: OpTransactionValidator<Client, ChainSpec>,
    transactions: Vec<(TransactionOrigin, Tx)>,
    validate: V,
    l1_tx_data_fee: L,
    outcomes: Vec<TransactionValidationOutcome<Tx, E>>,
    i: int,
) where
    V: Fn(TransactionOrigin, Tx) -> TransactionValidationOutcome<Tx, E>,
    L: Fn(L1BlockInfo, &ChainSpec, u64, &[u8], bool) -> Result<U256, E>,

    requires
        call_ensures(
            OpTransactionValidator::<Client, ChainSpec>::validate_all::<Tx, E, V, L>,
            (&validator, transactions, &validate, &l1_tx_data_fee),
            outcomes,
        ),
        0 <= i < transactions@.len(),
        transactions@[i].1.type_byte() != 0x03,
        forall|inner: TransactionValidationOutcome<Tx, E>| #[trigger]
            call_ensures(validate, (transactions@[i].0, transactions@[i].1), inner)
                ==> inner is Valid && inner->transaction.spec_transaction() == transactions@[i].1,
        forall|
            inner: TransactionValidationOutcome<Tx, E>,
            info: L1BlockInfo,
            spec: &ChainSpec,
            timestamp: u64,
            encoded: &[u8],
            deposit: bool,
            fee: Result<U256, E>,
        |
            #[trigger] call_ensures(validate, (transactions@[i].0, transactions@[i].1), inner)
                && #[trigger] call_ensures(
                l1_tx_data_fee,
                (info, spec, timestamp, encoded, deposit),
                fee,
            ) ==> fee is Ok && transactions@[i].1.max_cost() + fee->Ok_0@ <= inner->balance@,
    ensures
        outcomes@[i] is Valid,
        call_ensures(validate, (transactions@[i].0, transactions@[i].1), outcomes@[i]),
{
    covered_sender_is_never_turned_away(
        validator,
        transactions@[i].0,
        transactions@[i].1,
        validate,
        l1_tx_data_fee,
        outcomes@[i],
    );
}

} // verus!
