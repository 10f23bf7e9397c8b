//! The validator for Optimism transactions.
//!
//! The node around the library brings the parts that read chain state or parse L1 data, as
//! functions: the Ethereum validation of one transaction, the L1 data fee of an encoded
//! transaction, the L1 block info in a system transaction, and the block of a number or tag. The
//! contracts fix what each is handed and what is made of its answer, whatever that is.
use crate::block::{Block, BlockNumberOrTag, Header, OpL1BlockInfo};
use crate::pool::PoolTransaction;
use crate::primitives::B256;
use crate::transaction::EIP4844_TX_TYPE_ID;
use crate::u256::{saturating_sum, value_determines_limbs, U256};
use alloy_eips::eip4844::BlobTransactionSidecar;
use revm::L1BlockInfo;
use vstd::prelude::*;

verus! {

/// Where a transaction came from.
#[derive(Debug, Clone, Copy, PartialEq, Eq)]
pub enum TransactionOrigin {
    /// From this node.
    Local,
    /// From a peer.
    External,
    /// From this node, and not to be sent to peers.
    Private,
}

/// An amount and the amount that was needed.
#[derive(Debug, PartialEq, Eq)]
pub struct GotExpected<T> {
    pub got: T,
    pub expected: T,
}

/// A rule of consensus that a transaction breaks.
#[derive(Debug, PartialEq, Eq)]
pub enum InvalidTransactionError {
    /// The sender's balance does not cover the cost.
    InsufficientFunds(GotExpected<U256>),
    /// The chain has no transactions of this type.
    TxTypeNotSupported,
}

impl InvalidTransactionError {
    /// The rule in words.
    pub fn reason(&self) -> (words: &'static str)
        ensures
            words@ == (match *self {
                InvalidTransactionError::InsufficientFunds(_) =>
                    "sender does not have enough funds to cover transaction fees"@,
                InvalidTransactionError::TxTypeNotSupported => "transaction type not supported"@,
            }),
    {
        match self {
            InvalidTransactionError::InsufficientFunds(_) =>
                "sender does not have enough funds to cover transaction fees",
            InvalidTransactionError::TxTypeNotSupported => "transaction type not supported",
        }
    }
}

/// Why a transaction is not for the pool.
#[derive(Debug)]
pub enum InvalidPoolTransactionError<E> {
    /// It breaks a rule of consensus.
    Consensus(InvalidTransactionError),
    /// Another rule, which the Ethereum validation knows.
    Other(E),
}

/// A transaction that passed validation.
#[derive(Debug)]
pub enum ValidTransaction<Tx> {
    Valid(Tx),
    /// A blob transaction with its blobs, which are to be stored apart.
    ValidWithSidecar { transaction: Tx, sidecar: BlobTransactionSidecar },
}

impl<Tx> ValidTransaction<Tx> {
    /// The transaction.
    pub open spec fn spec_transaction(self) -> Tx {
        match self {
            ValidTransaction::Valid(transaction) => transaction,
            ValidTransaction::ValidWithSidecar { transaction, .. } => transaction,
        }
    }

    /// The transaction.
    pub fn transaction(&self) -> (tx: &Tx)
        ensures
            *tx == self.spec_transaction(),
    {
        match self {
            ValidTransaction::Valid(transaction) => transaction,
            ValidTransaction::ValidWithSidecar { transaction, .. } => transaction,
        }
    }

    /// The transaction, without its blobs.
    pub fn into_transaction(self) -> (tx: Tx)
        ensures
            tx == self.spec_transaction(),
    {
        match self {
            ValidTransaction::Valid(transaction) => transaction,
            ValidTransaction::ValidWithSidecar { transaction, .. } => transaction,
        }
    }
}

/// What validation says of a transaction.
#[derive(Debug)]
pub enum TransactionValidationOutcome<Tx, E> {
    /// It is for the pool.
    Valid {
        /// The sender's balance.
        balance: U256,
        /// The sender's nonce in the current state.
        state_nonce: u64,
        transaction: ValidTransaction<Tx>,
        /// Whether it may be sent to peers.
        propagate: bool,
    },
    /// It is not for the pool.
    Invalid(Tx, InvalidPoolTransactionError<E>),
    /// Validation of the transaction of this hash did not come to an end.
    Error(B256, E),
}

/// The outcome for a transaction that is valid but for its L1 data fee, where `fee` is what came of
/// working that out: an error is passed on, and the balance must cover the cost and the fee.
pub open spec fn charged<Tx: PoolTransaction, E>(
    balance: U256,
    state_nonce: u64,
    transaction: ValidTransaction<Tx>,
    propagate: bool,
    fee: Result<U256, E>,
) -> TransactionValidationOutcome<Tx, E> {
    let tx = transaction.spec_transaction();
    match fee {
        Err(error) => TransactionValidationOutcome::Error(tx.signed().hash, error),
        Ok(fee) => {
            let cost = saturating_sum(tx.max_cost(), fee@);
            if cost > balance@ {
                TransactionValidationOutcome::Invalid(
                    tx,
                    InvalidPoolTransactionError::Consensus(
                        InvalidTransactionError::InsufficientFunds(
                            GotExpected { got: balance, expected: U256::of(cost) },
                        ),
                    ),
                )
            } else {
                TransactionValidationOutcome::Valid { balance, state_nonce, transaction, propagate }
            }
        },
    }
}

/// Charges the L1 data fee to a transaction that is valid but for it: see [`charged`].
pub fn charge_l1_data_fee<Tx: PoolTransaction, E>(
    balance: U256,
    state_nonce: u64,
    transaction: ValidTransaction<Tx>,
    propagate: bool,
    fee: Result<U256, E>,
) -> (outcome: TransactionValidationOutcome<Tx, E>)
    ensures
        outcome == charged(balance, state_nonce, transaction, propagate, fee),
        fee is Err ==> outcome is Error,
        fee matches Ok(fee) ==> (outcome is Valid) == (transaction.spec_transaction().max_cost()
            + fee@ <= balance@ || balance@
            == 0xffff_ffff_ffff_ffff_ffff_ffff_ffff_ffff_ffff_ffff_ffff_ffff_ffff_ffff_ffff_ffff),
{
    let cost_addition = match fee {
        Ok(cost) => cost,
        Err(error) => {
            let hash = *transaction.transaction().hash();
            return TransactionValidationOutcome::Error(hash, error);
        },
    };
    let cost = transaction.transaction().cost().saturating_add(cost_addition);
    if cost.exceeds(&balance) {
        proof {
            value_determines_limbs(cost, U256::of(cost@));
        }
        return TransactionValidationOutcome::Invalid(
            transaction.into_transaction(),
            InvalidPoolTransactionError::Consensus(
                InvalidTransactionError::InsufficientFunds(
                    GotExpected { got: balance, expected: cost },
                ),
            ),
        );
    }
    TransactionValidationOutcome::Valid { balance, state_nonce, transaction, propagate }
}

/// What the node's Ethereum validator is set up with.
#[derive(Debug)]
pub struct EthTransactionValidator<Client, ChainSpec> {
    /// Gives access to the chain.
    pub client: Client,
    /// The rules of the chain.
    pub chain_spec: ChainSpec,
}

/// Validator for Optimism transactions.
#[derive(Debug)]
pub struct OpTransactionValidator<Client, ChainSpec> {
    /// The type that performs the actual validation.
    pub inner: EthTransactionValidator<Client, ChainSpec>,
    /// Additional block info required for validation.
    pub block_info: OpL1BlockInfo,
    /// If true, ensure that the transaction's sender has enough balance to cover the L1 gas fee
    /// derived from the tracked L1 block info that is extracted from the first transaction in the
    /// L2 block.
    pub require_l1_data_gas_fee: bool,
}

impl<Client, ChainSpec> OpTransactionValidator<Client, ChainSpec> {
    /// Whether the L1 data fee is not required or `l1_tx_data_fee` can work it out for every
    /// encoding, given the tracked L1 block info, the chain's rules and the tracked timestamp.
    pub open spec fn may_ask_fee<E, L>(&self, l1_tx_data_fee: L) -> bool where
        L: Fn(L1BlockInfo, &ChainSpec, u64, &[u8], bool) -> Result<U256, E>,
     {
        self.require_l1_data_gas_fee ==> forall|encoded: &[u8]| #[trigger]
            call_requires(
                l1_tx_data_fee,
                (
                    self.block_info.l1_block_info,
                    &self.inner.chain_spec,
                    self.block_info.timestamp,
                    encoded,
                    false,
                ),
            )
    }

    /// Whether `outcome` may come of a transaction for which the Ethereum validation said `inner`,
    /// with `l1_tx_data_fee` to work out the L1 data fee. It is `inner` itself unless that is
    /// `Valid` and the fee is required. Then the fee is worked out from the tracked L1 block info,
    /// the chain's rules, the tracked timestamp and the transaction's encoding, as of no deposit,
    /// and charged.
    pub open spec fn finishes<Tx: PoolTransaction, E, L>(
        &self,
        inner: TransactionValidationOutcome<Tx, E>,
        l1_tx_data_fee: L,
        outcome: TransactionValidationOutcome<Tx, E>,
    ) -> bool where L: Fn(L1BlockInfo, &ChainSpec, u64, &[u8], bool) -> Result<U256, E> {
        match inner {
            TransactionValidationOutcome::Valid {
                balance,
                state_nonce,
                transaction,
                propagate,
            } if self.require_l1_data_gas_fee => exists|encoded: &[u8], fee: Result<U256, E>|
                {
                    &&& encoded@ == transaction.spec_transaction().signed().encoding()
                    &&& #[trigger] call_ensures(
                        l1_tx_data_fee,
                        (
                            self.block_info.l1_block_info,
                            &self.inner.chain_spec,
                            self.block_info.timestamp,
                            encoded,
                            false,
                        ),
                        fee,
                    )
                    &&& outcome == charged(balance, state_nonce, transaction, propagate, fee)
                },
            _ => outcome == inner,
        }
    }

    /// Whether `outcome` may come of a transaction, with `validate` for the Ethereum validation and
    /// `l1_tx_data_fee` to work out the L1 data fee. A blob transaction is refused outright.
    pub open spec fn validates<Tx: PoolTransaction, E, V, L>(
        &self,
        origin: TransactionOrigin,
        transaction: Tx,
        validate: V,
        l1_tx_data_fee: L,
        outcome: TransactionValidationOutcome<Tx, E>,
    ) -> bool where
        V: Fn(TransactionOrigin, Tx) -> TransactionValidationOutcome<Tx, E>,
        L: Fn(L1BlockInfo, &ChainSpec, u64, &[u8], bool) -> Result<U256, E>,
     {
        if transaction.type_byte() == EIP4844_TX_TYPE_ID {
            outcome == TransactionValidationOutcome::<Tx, E>::Invalid(
                transaction,
                InvalidPoolTransactionError::Consensus(InvalidTransactionError::TxTypeNotSupported),
            )
        } else {
            exists|inner: TransactionValidationOutcome<Tx, E>|
                {
                    &&& #[trigger] call_ensures(validate, (origin, transaction), inner)
                    &&& self.finishes(inner, l1_tx_data_fee, outcome)
                }
        }
    }

    /// Whether `outcomes` may come of `transactions`, one for each and in the same order.
    pub open spec fn validates_all<Tx: PoolTransaction, E, V, L>(
        &self,
        transactions: Seq<(TransactionOrigin, Tx)>,
        validate: V,
        l1_tx_data_fee: L,
        outcomes: Seq<TransactionValidationOutcome<Tx, E>>,
    ) -> bool where
        V: Fn(TransactionOrigin, Tx) -> TransactionValidationOutcome<Tx, E>,
        L: Fn(L1BlockInfo, &ChainSpec, u64, &[u8], bool) -> Result<U256, E>,
     {
        &&& outcomes.len() == transactions.len()
        &&& forall|i: int|
            0 <= i < transactions.len() ==> self.validates(
                transactions[i].0,
                transactions[i].1,
                validate,
                l1_tx_data_fee,
                #[trigger] outcomes[i],
            )
    }

    /// Returns the configured chain spec
    pub fn chain_spec(&self) -> (spec: &ChainSpec)
        ensures
            *spec == self.inner.chain_spec,
    {
        &self.inner.chain_spec
    }

    /// Returns the configured client
    pub fn client(&self) -> (client: &Client)
        ensures
            *client == self.inner.client,
    {
        &self.inner.client
    }

    /// Returns the current block timestamp.
    pub fn block_timestamp(&self) -> (timestamp: u64)
        ensures
            timestamp == self.block_info.timestamp,
    {
        self.block_info.timestamp
    }

    /// Whether to ensure that the transaction's sender has enough balance to also cover the L1 gas
    /// fee.
    pub fn require_l1_data_gas_fee(self, require_l1_data_gas_fee: bool) -> (validator: Self)
        ensures
            validator == (OpTransactionValidator { require_l1_data_gas_fee, ..self }),
    {
        OpTransactionValidator { require_l1_data_gas_fee, ..self }
    }

    /// Returns whether this validator also requires the transaction's sender to have enough balance
    /// to cover the L1 gas fee.
    pub fn requires_l1_data_gas_fee(&self) -> (required: bool)
        ensures
            required == self.require_l1_data_gas_fee,
    {
        self.require_l1_data_gas_fee
    }

    /// Create a new [`OpTransactionValidator`] with the given [`OpL1BlockInfo`]. It requires the L1
    /// data fee.
    pub fn with_block_info(
        inner: EthTransactionValidator<Client, ChainSpec>,
        block_info: OpL1BlockInfo,
    ) -> (validator: Self)
        ensures
            validator == (OpTransactionValidator {
                inner,
                block_info,
                require_l1_data_gas_fee: true,
            }),
    {
        OpTransactionValidator { inner, block_info, require_l1_data_gas_fee: true }
    }

    /// Create a new [`OpTransactionValidator`], which requires the L1 data fee and knows the newest
    /// block of `block_by_number_or_tag`. `extract_l1_info_from_tx` reads the L1 block info off the
    /// first transaction of a block.
    pub fn new<T, P, E, B, X>(
        inner: EthTransactionValidator<Client, ChainSpec>,
        block_by_number_or_tag: &B,
        extract_l1_info_from_tx: &X,
    ) -> (validator: Self) where
        B: Fn(&Client, BlockNumberOrTag) -> Result<Option<Block<T>>, P>,
        X: Fn(&T) -> Result<L1BlockInfo, E>,

        requires
            call_requires(*block_by_number_or_tag, (&inner.client, BlockNumberOrTag::Latest)),
            forall|latest: Result<Option<Block<T>>, P>| #[trigger]
                call_ensures(
                    *block_by_number_or_tag,
                    (&inner.client, BlockNumberOrTag::Latest),
                    latest,
                ) ==> OpL1BlockInfo::may_read(
                    OpL1BlockInfo::read_at_start(&latest),
                    *extract_l1_info_from_tx,
                ),
        ensures
            validator.inner == inner,
            validator.require_l1_data_gas_fee,
            exists|latest: Result<Option<Block<T>>, P>|
                {
                    &&& #[trigger] call_ensures(
                        *block_by_number_or_tag,
                        (&inner.client, BlockNumberOrTag::Latest),
                        latest,
                    )
                    &&& OpL1BlockInfo::starts(
                        latest,
                        *extract_l1_info_from_tx,
                        validator.block_info,
                    )
                },
    {
        let latest = block_by_number_or_tag(&inner.client, BlockNumberOrTag::Latest);
        let block_info = OpL1BlockInfo::start(latest, extract_l1_info_from_tx);
        Self::with_block_info(inner, block_info)
    }

    /// Update the L1 block info for the given header and system transaction, if any.
    /// `extract_l1_info_from_tx` reads the L1 block info off the transaction.
    ///
    /// Note: this supports optional system transaction, in case this is used in a dev setup
    pub fn update_l1_block_info<T, E, X>(
        &mut self,
        header: &Header,
        tx: Option<&T>,
        extract_l1_info_from_tx: &X,
    ) where X: Fn(&T) -> Result<L1BlockInfo, E>
        requires
            OpL1BlockInfo::may_read(tx, *extract_l1_info_from_tx),
        ensures
            old(self).block_info.follows(
                header.timestamp,
                tx,
                *extract_l1_info_from_tx,
                final(self).block_info,
            ),
            final(self).inner == old(self).inner,
            final(self).require_l1_data_gas_fee == old(self).require_l1_data_gas_fee,
    {
        self.block_info.follow(header.timestamp, tx, extract_l1_info_from_tx);
    }

    /// Takes in a new head of the chain: hands it to the Ethereum validator through
    /// `on_new_head_block`, then updates the L1 block info from its first transaction.
    /// `on_new_head_block` can be called once only, and is called with this validator as it is
    /// before the update.
    pub fn on_new_head_block<T, E, N, X>(
        &mut self,
        new_tip_block: &Block<T>,
        on_new_head_block: N,
        extract_l1_info_from_tx: &X,
    ) where
        N: FnOnce(&OpTransactionValidator<Client, ChainSpec>, &Block<T>),
        X: Fn(&T) -> Result<L1BlockInfo, E>,

        requires
            call_requires(on_new_head_block, (&*old(self), new_tip_block)),
            OpL1BlockInfo::may_read(new_tip_block.first(), *extract_l1_info_from_tx),
        ensures
            call_ensures(on_new_head_block, (&*old(self), new_tip_block), ()),
            old(self).block_info.follows(
                new_tip_block.header.timestamp,
                new_tip_block.first(),
                *extract_l1_info_from_tx,
                final(self).block_info,
            ),
            final(self).block_info.timestamp == new_tip_block.header.timestamp,
            new_tip_block.transactions@.len() == 0 ==> final(self).block_info.l1_block_info == old(
                self,
            ).block_info.l1_block_info,
            final(self).inner == old(self).inner,
            final(self).require_l1_data_gas_fee == old(self).require_l1_data_gas_fee,
    {
        on_new_head_block(&*self, new_tip_block);
        self.update_l1_block_info(
            &new_tip_block.header,
            new_tip_block.first_transaction(),
            extract_l1_info_from_tx,
        );
    }

    /// Charges the L1 data fee where it is required: see [`Self::finishes`].
    pub fn finish_validation<Tx: PoolTransaction, E, L>(
        &self,
        inner: TransactionValidationOutcome<Tx, E>,
        l1_tx_data_fee: &L,
    ) -> (outcome: TransactionValidationOutcome<Tx, E>) where
        L: Fn(L1BlockInfo, &ChainSpec, u64, &[u8], bool) -> Result<U256, E>,

        requires
            inner is Valid ==> self.may_ask_fee::<E, L>(*l1_tx_data_fee),
        ensures
            self.finishes(inner, *l1_tx_data_fee, outcome),
    {
        if !self.requires_l1_data_gas_fee() {
            return inner;
        }
        match inner {
            TransactionValidationOutcome::Valid {
                balance,
                state_nonce,
                transaction,
                propagate,
            } => {
                let tx = transaction.transaction().clone_into_consensus();
                let encoded = tx.transaction.encoded_2718();
                let fee = l1_tx_data_fee(
                    self.block_info.l1_block_info(),
                    self.chain_spec(),
                    self.block_timestamp(),
                    encoded.as_slice(),
                    false,
                );
                charge_l1_data_fee(balance, state_nonce, transaction, propagate, fee)
            },
            other => other,
        }
    }

    /// Validates a single transaction.
    ///
    /// This behaves the same as the Ethereum validation, but in addition, ensures that the account
    /// has enough balance to cover the L1 gas cost.
    pub fn validate_one<Tx: PoolTransaction, E, V, L>(
        &self,
        origin: TransactionOrigin,
        transaction: Tx,
        validate: &V,
        l1_tx_data_fee: &L,
    ) -> (outcome: TransactionValidationOutcome<Tx, E>) where
        V: Fn(TransactionOrigin, Tx) -> TransactionValidationOutcome<Tx, E>,
        L: Fn(L1BlockInfo, &ChainSpec, u64, &[u8], bool) -> Result<U256, E>,

        requires
            transaction.type_byte() != EIP4844_TX_TYPE_ID ==> {
                &&& call_requires(*validate, (origin, transaction))
                &&& self.may_ask_fee::<E, L>(*l1_tx_data_fee)
            },
        ensures
            self.validates(origin, transaction, *validate, *l1_tx_data_fee, outcome),
    {
        if transaction.is_eip4844() {
            return TransactionValidationOutcome::Invalid(
                transaction,
                InvalidPoolTransactionError::Consensus(InvalidTransactionError::TxTypeNotSupported),
            );
        }
        let inner = validate(origin, transaction);
        self.finish_validation(inner, l1_tx_data_fee)
    }

    /// Validates all given transactions.
    ///
    /// Returns all outcomes for the given transactions in the same order.
    pub fn validate_all<Tx: PoolTransaction, E, V, L>(
        &self,
        transactions: Vec<(TransactionOrigin, Tx)>,
        validate: &V,
        l1_tx_data_fee: &L,
    ) -> (outcomes: Vec<TransactionValidationOutcome<Tx, E>>) where
        V: Fn(TransactionOrigin, Tx) -> TransactionValidationOutcome<Tx, E>,
        L: Fn(L1BlockInfo, &ChainSpec, u64, &[u8], bool) -> Result<U256, E>,

        requires
            forall|i: int|
                0 <= i < transactions@.len() && (#[trigger] transactions@[i]).1.type_byte()
                    != EIP4844_TX_TYPE_ID ==> {
                    &&& call_requires(*validate, (transactions@[i].0, transactions@[i].1))
                    &&& self.may_ask_fee::<E, L>(*l1_tx_data_fee)
                },
        ensures
            self.validates_all(transactions@, *validate, *l1_tx_data_fee, outcomes@),
            outcomes@.len() == transactions@.len(),
            forall|i: int|
                0 <= i < transactions@.len() ==> self.validates(
                    transactions@[i].0,
                    transactions@[i].1,
                    *validate,
                    *l1_tx_data_fee,
                    #[trigger] outcomes@[i],
                ),
    {
        let mut outcomes: Vec<TransactionValidationOutcome<Tx, E>> = Vec::new();
        for item in items: transactions
            invariant
                forall|i: int|
                    0 <= i < transactions@.len() && (#[trigger] transactions@[i]).1.type_byte()
                        != EIP4844_TX_TYPE_ID ==> {
                        &&& call_requires(*validate, (transactions@[i].0, transactions@[i].1))
                        &&& self.may_ask_fee::<E, L>(*l1_tx_data_fee)
                    },
                items.seq() == transactions@,
                outcomes@.len() == items.index(),
                forall|i: int|
                    0 <= i < outcomes@.len() ==> self.validates(
                        transactions@[i].0,
                        transactions@[i].1,
                        *validate,
                        *l1_tx_data_fee,
                        #[trigger] outcomes@[i],
                    ),
        {
            let (origin, tx) = item;
            let outcome = self.validate_one(origin, tx, validate, l1_tx_data_fee);
            outcomes.push(outcome);
        }
        outcomes
    }
}

} // verus!
