//! Transactions as the pool holds them.
use crate::outside::{
    access_list_items, estimated_size, fastlz_size, tx_estimated_size_fjord, L1_COST_FASTLZ_COEF,
    L1_COST_INTERCEPT, MAX_ESTIMATED_INPUT, MIN_TX_SIZE_SCALED,
};
use crate::pooled::{OpPooledEnvelope, TransactionConversionError};
use crate::primitives::{Address, TxKind, B256};
use crate::transaction::{
    OpTransactionSigned, OpTransactionSignedView, Recovered, EIP4844_TX_TYPE_ID,
};
use crate::u256::{value_determines_limbs, U256};
use alloy_eips::eip2930::AccessList;
use alloy_eips::eip4844::BlobTransactionSidecar;
use std::sync::Arc;
use vstd::prelude::*;
use vstd::std_specs::convert::{FromSpec, TryFromSpec};

verus! {

/// What the pool asks of a transaction it holds.
///
/// The spec functions are what the contracts of the others speak of. An implementation in code that
/// is not verified may leave them out.
pub trait PoolTransaction: Sized {
    /// The signed transaction.
    open spec fn signed(&self) -> OpTransactionSignedView {
        arbitrary()
    }

    /// The account that signed it.
    open spec fn signed_by(&self) -> Address {
        arbitrary()
    }

    /// The type byte.
    open spec fn type_byte(&self) -> u8 {
        self.signed().transaction.tx_type()
    }

    /// The most the sender pays in all for it, fees on L1 left aside.
    open spec fn max_cost(&self) -> nat {
        self.signed().transaction.max_cost()
    }

    /// The length of its encoding, as the pool was told it.
    open spec fn told_length(&self) -> usize {
        arbitrary()
    }

    /// A copy of the signed transaction, with its signer.
    fn clone_into_consensus(&self) -> (tx: Recovered<OpTransactionSigned>)
        ensures
            tx.transaction@ == self.signed(),
            tx.signer == self.signed_by(),
    ;

    /// The gossiped form of a signed transaction, for those that have one.
    fn try_consensus_into_pooled(tx: Recovered<OpTransactionSigned>) -> (pooled: Result<
        Recovered<OpPooledEnvelope>,
        TransactionConversionError,
    >);

    /// The hash of the transaction.
    fn hash(&self) -> (hash: &B256)
        ensures
            *hash == self.signed().hash,
    ;

    /// The account that signed the transaction.
    fn sender(&self) -> (sender: Address)
        ensures
            sender == self.signed_by(),
    ;

    /// The account that signed the transaction.
    fn sender_ref(&self) -> (sender: &Address)
        ensures
            *sender == self.signed_by(),
    ;

    /// The sender's transaction count.
    fn nonce(&self) -> (nonce: u64)
        ensures
            nonce == self.signed().transaction.nonce(),
    ;

    /// The most the sender pays in all, fees on L1 left aside.
    fn cost(&self) -> (cost: &U256)
        ensures
            cost@ == self.max_cost(),
    ;

    /// The most gas the transaction may use.
    fn gas_limit(&self) -> (limit: u64)
        ensures
            limit == self.signed().transaction.gas_limit(),
    ;

    /// The most the sender pays per gas.
    fn max_fee_per_gas(&self) -> (fee: u128)
        ensures
            fee == self.signed().transaction.max_fee_per_gas(),
    ;

    /// The access list, where the type has one.
    fn access_list(&self) -> (list: Option<&AccessList>)
        ensures
            list is Some == self.signed().transaction.access_list() is Some,
            list is Some ==> Some(access_list_items(*list->0))
                == self.signed().transaction.access_list(),
    ;

    /// The most the sender pays per gas to the block's author, where the type has such a field.
    fn max_priority_fee_per_gas(&self) -> (fee: Option<u128>)
        ensures
            fee == self.signed().transaction.max_priority_fee_per_gas(),
    ;

    /// The most the sender pays per blob gas, where the type has such a field.
    fn max_fee_per_blob_gas(&self) -> (fee: Option<u128>)
        ensures
            fee == self.signed().transaction.max_fee_per_blob_gas(),
    ;

    /// What the block's author earns per gas at the given base fee.
    fn effective_tip_per_gas(&self, base_fee: u64) -> (tip: Option<u128>)
        ensures
            tip == self.signed().transaction.effective_tip_per_gas(base_fee),
    ;

    /// The priority fee where the type has one, else the gas price.
    fn priority_fee_or_price(&self) -> (fee: u128)
        ensures
            fee == self.signed().transaction.priority_fee_or_price(),
    ;

    /// Whether the transaction creates a contract or calls an account.
    fn kind(&self) -> (kind: TxKind)
        ensures
            kind == self.signed().transaction.kind(),
    ;

    /// Whether the transaction creates a contract.
    fn is_create(&self) -> (create: bool)
        ensures
            create == (self.signed().transaction.kind()@ is None),
    ;

    /// The call data, or the code that initialises the contract created.
    fn input(&self) -> (input: &[u8])
        ensures
            input@ == self.signed().transaction.input(),
    ;

    /// The length of the input.
    fn size(&self) -> (size: usize)
        ensures
            size == self.signed().transaction.input().len(),
    ;

    /// The type byte of the transaction.
    fn tx_type(&self) -> (ty: u8)
        ensures
            ty == self.type_byte(),
    ;

    /// The length of the transaction's encoding, as the pool was told it.
    fn encoded_length(&self) -> (length: usize)
        ensures
            length == self.told_length(),
    ;

    /// The chain the transaction is bound to, if it is.
    fn chain_id(&self) -> (id: Option<u64>)
        ensures
            id == self.signed().transaction.chain_id(),
    ;

    /// Whether this is an EIP-4844 blob transaction.
    fn is_eip4844(&self) -> (blob: bool)
        ensures
            blob == (self.type_byte() == EIP4844_TX_TYPE_ID),
    {
        self.tx_type() == EIP4844_TX_TYPE_ID
    }
}

/// Where the blobs of a transaction are.
#[derive(Debug)]
pub enum EthBlobTransactionSidecar {
    /// The transaction has no blobs.
    NoBlobs,
    /// The transaction has blobs, which are not at hand.
    Missing,
    /// The transaction has these blobs.
    Present(BlobTransactionSidecar),
}

/// Why blobs do not belong to a transaction.
#[derive(Debug, Clone, Copy, PartialEq, Eq)]
pub enum BlobTransactionValidationError {
    /// The transaction, of the given type, has no blobs.
    NotBlobTransaction(u8),
}

/// What the pool asks of a transaction that may have blobs or authorizations.
pub trait EthPoolTransaction: PoolTransaction {
    /// Takes the blobs out.
    fn take_blob(&mut self) -> (blob: EthBlobTransactionSidecar);

    /// The number of blobs.
    fn blob_count(&self) -> (count: usize);

    /// The gossiped form with the given blobs, for those that have one.
    fn try_into_pooled_eip4844(self, sidecar: Arc<BlobTransactionSidecar>) -> (pooled: Option<
        Recovered<OpPooledEnvelope>,
    >);

    /// The pool transaction of a signed transaction and its blobs, for those that have one.
    fn try_from_eip4844(
        tx: Recovered<OpTransactionSigned>,
        sidecar: BlobTransactionSidecar,
    ) -> (pooled: Option<Self>);

    /// Whether the blobs belong to the transaction.
    fn validate_blob<Settings>(
        &self,
        sidecar: &BlobTransactionSidecar,
        settings: &Settings,
    ) -> (validity: Result<(), BlobTransactionValidationError>);

    /// The number of EIP-7702 authorizations the transaction carries.
    fn authorization_count(&self) -> (count: usize)
        ensures
            count == self.signed().transaction.authorization_count(),
    ;
}

/// A signed transaction with its cost and the length of its encoding.
#[derive(Debug)]
pub struct EthPooledTransaction {
    pub transaction: Recovered<OpTransactionSigned>,
    pub cost: U256,
    pub encoded_length: usize,
}

impl EthPooledTransaction {
    /// Works out the transaction's cost: its gas limit at its fee cap, and the amount transferred.
    pub fn new(transaction: Recovered<OpTransactionSigned>, encoded_length: usize) -> (tx: Self)
        ensures
            tx.transaction == transaction,
            tx.cost@ == transaction.transaction@.transaction.max_cost(),
            tx.encoded_length == encoded_length,
    {
        let cost = transaction.transaction.transaction.max_cost();
        EthPooledTransaction { transaction, cost, encoded_length }
    }
}

/// Pool transaction for OP.
///
/// Wraps the signed transaction and caches values that the pool uses often. The estimated
/// compressed size, which block building asks for, is worked out when it is first asked for.
#[derive(Debug)]
pub struct OpPooledTransaction {
    inner: EthPooledTransaction,
    estimated_tx_compressed_size: Option<u64>,
}

impl OpPooledTransaction {
    /// The cost belongs to the transaction, and a cached size is its estimated compressed size.
    #[verifier::type_invariant]
    spec fn cached_values_are_right(self) -> bool {
        let tx = self.inner.transaction.transaction@;
        &&& self.inner.cost@ == tx.transaction.max_cost()
        &&& self.estimated_tx_compressed_size matches Some(size) ==> size == estimated_size(
            fastlz_size(tx.encoding()),
        )
    }

    /// The signed transaction and its signer.
    pub closed spec fn recovered(self) -> Recovered<OpTransactionSigned> {
        self.inner.transaction
    }

    /// The length of the encoding, as the pool was told it.
    pub closed spec fn stored_length(self) -> usize {
        self.inner.encoded_length
    }

    /// The estimated compressed size, if it was asked for already.
    pub closed spec fn cached_size(self) -> Option<u64> {
        self.estimated_tx_compressed_size
    }

    /// The estimated compressed size in bytes of the transaction's encoding, scaled by 1e6.
    pub open spec fn compressed_size(self) -> int {
        estimated_size(fastlz_size(self.recovered().transaction@.encoding()))
    }

    /// Whether two pool transactions differ in nothing but whether a size was asked for.
    pub open spec fn same_but_for_cache(self, other: Self) -> bool {
        &&& self.recovered().transaction@ == other.recovered().transaction@
        &&& self.recovered().signer == other.recovered().signer
        &&& self.stored_length() == other.stored_length()
    }

    /// The pool transaction of the given parts of which no size was asked for yet.
    pub closed spec fn fresh(
        transaction: Recovered<OpTransactionSigned>,
        encoded_length: usize,
    ) -> Self {
        OpPooledTransaction {
            inner: EthPooledTransaction {
                transaction,
                cost: U256::of(transaction.transaction@.transaction.max_cost()),
                encoded_length,
            },
            estimated_tx_compressed_size: None,
        }
    }

    /// A pool transaction of which no size was asked for yet.
    pub fn new(transaction: Recovered<OpTransactionSigned>, encoded_length: usize) -> (tx: Self)
        ensures
            tx == OpPooledTransaction::fresh(transaction, encoded_length),
            tx.recovered() == transaction,
            tx.stored_length() == encoded_length,
            tx.cached_size() is None,
    {
        let inner = EthPooledTransaction::new(transaction, encoded_length);
        proof {
            value_determines_limbs(inner.cost, U256::of(inner.cost@));
        }
        OpPooledTransaction { inner, estimated_tx_compressed_size: None }
    }

    /// The estimated compressed size of the transaction in bytes, scaled by 1e6:
    /// `max(minTransactionSize, intercept + fastlzCoef*fastlzSize)`. It is worked out once and
    /// kept.
    pub fn estimated_compressed_size(&mut self) -> (size: u64)
        requires
            old(self).cached_size() is None ==> old(self).recovered().transaction@.encoding().len()
                <= MAX_ESTIMATED_INPUT,
        ensures
            size == old(self).compressed_size(),
            size >= MIN_TX_SIZE_SCALED,
            size == MIN_TX_SIZE_SCALED || size == fastlz_size(
                old(self).recovered().transaction@.encoding(),
            ) * L1_COST_FASTLZ_COEF - L1_COST_INTERCEPT,
            size >= fastlz_size(old(self).recovered().transaction@.encoding())
                * L1_COST_FASTLZ_COEF - L1_COST_INTERCEPT,
            final(self).cached_size() == Some(size),
            final(self).recovered() == old(self).recovered(),
            final(self).same_but_for_cache(*old(self)),
    {
        proof {
            use_type_invariant(&*self);
        }
        match self.estimated_tx_compressed_size {
            Some(size) => size,
            None => {
                let encoded = self.inner.transaction.transaction.encoded_2718();
                let size = tx_estimated_size_fjord(encoded.as_slice());
                self.estimated_tx_compressed_size = Some(size);
                size
            },
        }
    }

    /// The estimated compressed size, or `None` where it is not cached and the encoding is too long
    /// to be estimated.
    pub fn try_estimated_compressed_size(&mut self) -> (size: Option<u64>)
        ensures
            size is Some == (old(self).cached_size() is Some
                || old(self).recovered().transaction@.encoding().len() <= MAX_ESTIMATED_INPUT),
            size is Some ==> size->0 == old(self).compressed_size(),
            final(self).cached_size() == size,
            final(self).recovered() == old(self).recovered(),
            final(self).same_but_for_cache(*old(self)),
    {
        proof {
            use_type_invariant(&*self);
        }
        if self.estimated_tx_compressed_size.is_none() {
            let encoded = self.inner.transaction.transaction.encoded_2718();
            if encoded.len() > MAX_ESTIMATED_INPUT {
                return None;
            }
            self.estimated_tx_compressed_size = Some(tx_estimated_size_fjord(encoded.as_slice()));
        }
        Some(self.estimated_compressed_size())
    }
}

impl std::ops::Deref for OpPooledTransaction {
    type Target = EthPooledTransaction;

    fn deref(&self) -> (inner: &EthPooledTransaction)
        ensures
            inner.transaction == self.recovered(),
            inner.cost@ == self.recovered().transaction@.transaction.max_cost(),
            inner.encoded_length == self.stored_length(),
    {
        proof {
            use_type_invariant(self);
        }
        &self.inner
    }
}

impl Clone for OpPooledTransaction {
    fn clone(&self) -> (copy: Self)
        ensures
            copy.same_but_for_cache(*self),
            copy.cached_size() == self.cached_size(),
    {
        proof {
            use_type_invariant(self);
        }
        let inner = EthPooledTransaction {
            transaction: Recovered {
                transaction: self.inner.transaction.transaction.clone(),
                signer: self.inner.transaction.signer,
            },
            cost: self.inner.cost,
            encoded_length: self.inner.encoded_length,
        };
        OpPooledTransaction {
            inner,
            estimated_tx_compressed_size: self.estimated_tx_compressed_size,
        }
    }
}

impl From<Recovered<OpPooledEnvelope>> for OpPooledTransaction {
    /// The pool transaction of a gossiped one, with the length of its encoding.
    fn from(tx: Recovered<OpPooledEnvelope>) -> (pooled: Self)
        ensures
            pooled.recovered() == (Recovered {
                transaction: tx.transaction.consensus(),
                signer: tx.signer,
            }),
            pooled.stored_length() == tx.transaction.consensus()@.encoding().len(),
            pooled.cached_size() is None,
    {
        let encoded_length = tx.transaction.encode_2718_len();
        let (transaction, signer) = tx.into_parts();
        let transaction = Recovered::new_unchecked(OpTransactionSigned::from(transaction), signer);
        OpPooledTransaction::new(transaction, encoded_length)
    }
}

impl vstd::std_specs::convert::FromSpecImpl<Recovered<OpPooledEnvelope>> for OpPooledTransaction {
    open spec fn obeys_from_spec() -> bool {
        true
    }

    open spec fn from_spec(tx: Recovered<OpPooledEnvelope>) -> Self {
        let transaction = tx.transaction.consensus();
        OpPooledTransaction::fresh(
            Recovered { transaction, signer: tx.signer },
            transaction@.encoding().len() as usize,
        )
    }
}

impl TryFrom<Recovered<OpTransactionSigned>> for OpPooledTransaction {
    type Error = TransactionConversionError;

    /// The pool transaction of a signed one that has a gossiped form.
    fn try_from(value: Recovered<OpTransactionSigned>) -> (pooled: Result<Self, Self::Error>)
        ensures
            match OpPooledEnvelope::of_consensus(value.transaction) {
                Ok(_) => {
                    &&& pooled is Ok
                    &&& pooled->Ok_0.recovered() == value
                    &&& pooled->Ok_0.stored_length() == value.transaction@.encoding().len()
                    &&& pooled->Ok_0.cached_size() is None
                },
                Err(error) => pooled == Err::<Self, _>(error),
            },
    {
        let (transaction, signer) = value.into_parts();
        match OpPooledEnvelope::try_from(transaction) {
            Ok(transaction) => Ok(
                OpPooledTransaction::from(Recovered::new_unchecked(transaction, signer)),
            ),
            Err(error) => Err(error),
        }
    }
}

impl vstd::std_specs::convert::TryFromSpecImpl<Recovered<OpTransactionSigned>>
    for OpPooledTransaction {
    open spec fn obeys_try_from_spec() -> bool {
        true
    }

    open spec fn try_from_spec(value: Recovered<OpTransactionSigned>) -> Result<
        Self,
        Self::Error,
    > {
        match OpPooledEnvelope::of_consensus(value.transaction) {
            Ok(_) => Ok(
                OpPooledTransaction::fresh(
                    value,
                    value.transaction@.encoding().len() as usize,
                ),
            ),
            Err(error) => Err(error),
        }
    }
}

impl From<OpPooledTransaction> for Recovered<OpTransactionSigned> {
    /// The signed transaction and its signer.
    fn from(value: OpPooledTransaction) -> (tx: Self) {
        value.inner.transaction
    }
}

impl vstd::std_specs::convert::FromSpecImpl<OpPooledTransaction>
    for Recovered<OpTransactionSigned> {
    open spec fn obeys_from_spec() -> bool {
        true
    }

    open spec fn from_spec(value: OpPooledTransaction) -> Self {
        value.recovered()
    }
}

impl PoolTransaction for OpPooledTransaction {
    open spec fn signed(&self) -> OpTransactionSignedView {
        self.recovered().transaction@
    }

    open spec fn signed_by(&self) -> Address {
        self.recovered().signer
    }

    open spec fn type_byte(&self) -> u8 {
        self.signed().transaction.tx_type()
    }

    open spec fn max_cost(&self) -> nat {
        self.signed().transaction.max_cost()
    }

    open spec fn told_length(&self) -> usize {
        self.stored_length()
    }

    fn clone_into_consensus(&self) -> (tx: Recovered<OpTransactionSigned>) {
        Recovered::new_unchecked(
            self.inner.transaction.transaction.clone(),
            self.inner.transaction.signer,
        )
    }

    /// Fails for a deposit, which is not gossiped.
    fn try_consensus_into_pooled(tx: Recovered<OpTransactionSigned>) -> (pooled: Result<
        Recovered<OpPooledEnvelope>,
        TransactionConversionError,
    >)
        ensures
            match OpPooledEnvelope::of_consensus(tx.transaction) {
                Ok(transaction) => pooled == Ok::<_, TransactionConversionError>(
                    Recovered { transaction, signer: tx.signer },
                ),
                Err(error) => pooled == Err::<Recovered<OpPooledEnvelope>, _>(error),
            },
    {
        let (transaction, signer) = tx.into_parts();
        match OpPooledEnvelope::try_from(transaction) {
            Ok(transaction) => Ok(Recovered::new_unchecked(transaction, signer)),
            Err(error) => Err(error),
        }
    }

    fn hash(&self) -> (hash: &B256) {
        &self.inner.transaction.transaction.hash
    }

    fn sender(&self) -> (sender: Address) {
        self.inner.transaction.signer
    }

    fn sender_ref(&self) -> (sender: &Address) {
        &self.inner.transaction.signer
    }

    fn nonce(&self) -> (nonce: u64) {
        self.inner.transaction.transaction.transaction.nonce()
    }

    fn cost(&self) -> (cost: &U256) {
        proof {
            use_type_invariant(self);
        }
        &self.inner.cost
    }

    fn gas_limit(&self) -> (limit: u64) {
        self.inner.transaction.transaction.transaction.gas_limit()
    }

    fn max_fee_per_gas(&self) -> (fee: u128) {
        self.inner.transaction.transaction.transaction.max_fee_per_gas()
    }

    fn access_list(&self) -> (list: Option<&AccessList>) {
        self.inner.transaction.transaction.transaction.access_list()
    }

    fn max_priority_fee_per_gas(&self) -> (fee: Option<u128>) {
        self.inner.transaction.transaction.transaction.max_priority_fee_per_gas()
    }

    fn max_fee_per_blob_gas(&self) -> (fee: Option<u128>) {
        self.inner.transaction.transaction.transaction.max_fee_per_blob_gas()
    }

    fn effective_tip_per_gas(&self, base_fee: u64) -> (tip: Option<u128>) {
        self.inner.transaction.transaction.transaction.effective_tip_per_gas(base_fee)
    }

    fn priority_fee_or_price(&self) -> (fee: u128) {
        self.inner.transaction.transaction.transaction.priority_fee_or_price()
    }

    fn kind(&self) -> (kind: TxKind) {
        self.inner.transaction.transaction.transaction.kind()
    }

    fn is_create(&self) -> (create: bool) {
        self.inner.transaction.transaction.transaction.is_create()
    }

    fn input(&self) -> (input: &[u8]) {
        self.inner.transaction.transaction.transaction.input().as_slice()
    }

    fn size(&self) -> (size: usize) {
        self.inner.transaction.transaction.transaction.input().len()
    }

    fn tx_type(&self) -> (ty: u8) {
        self.inner.transaction.transaction.transaction.tx_type()
    }

    fn encoded_length(&self) -> (length: usize) {
        self.inner.encoded_length
    }

    fn chain_id(&self) -> (id: Option<u64>) {
        self.inner.transaction.transaction.transaction.chain_id()
    }
}

impl EthPoolTransaction for OpPooledTransaction {
    /// There are never any.
    fn take_blob(&mut self) -> (blob: EthBlobTransactionSidecar)
        ensures
            blob is NoBlobs,
            *final(self) == *old(self),
    {
        EthBlobTransactionSidecar::NoBlobs
    }

    /// There are never any.
    fn blob_count(&self) -> (count: usize)
        ensures
            count == 0,
    {
        0
    }

    /// There is none.
    fn try_into_pooled_eip4844(self, sidecar: Arc<BlobTransactionSidecar>) -> (pooled: Option<
        Recovered<OpPooledEnvelope>,
    >)
        ensures
            pooled is None,
    {
        None
    }

    /// There is none.
    fn try_from_eip4844(
        tx: Recovered<OpTransactionSigned>,
        sidecar: BlobTransactionSidecar,
    ) -> (pooled: Option<Self>)
        ensures
            pooled is None,
    {
        None
    }

    /// Refuses any blobs, naming the transaction's type.
    fn validate_blob<Settings>(
        &self,
        sidecar: &BlobTransactionSidecar,
        settings: &Settings,
    ) -> (validity: Result<(), BlobTransactionValidationError>)
        ensures
            validity == Err::<(), _>(
                BlobTransactionValidationError::NotBlobTransaction(self.type_byte()),
            ),
    {
        Err(BlobTransactionValidationError::NotBlobTransaction(self.tx_type()))
    }

    fn authorization_count(&self) -> (count: usize) {
        self.inner.transaction.transaction.transaction.authorization_count()
    }
}

/// What enters the pool leaves it unchanged: a signed transaction that is no deposit is accepted,
/// and the pool transaction made of it turns back into it. A deposit is refused.
pub proof fn pool_gives_back_what_it_took(value: Recovered<OpTransactionSigned>)
    ensures
        match <OpPooledTransaction as TryFromSpec<Recovered<OpTransactionSigned>>>::try_from_spec(
            value,
        ) {
            Ok(pooled) => {
                &&& !(value.transaction.transaction is Deposit)
                &&& <Recovered<OpTransactionSigned> as FromSpec<OpPooledTransaction>>::from_spec(
                    pooled,
                ) == value
            },
            Err(error) => {
                &&& value.transaction.transaction is Deposit
                &&& error == TransactionConversionError::UnsupportedForP2P
            },
        },
{
}

/// Taking a gossiped transaction into the pool is the same as taking in the signed transaction that
/// it stands for.
pub proof fn both_ways_into_the_pool_agree(tx: Recovered<OpPooledEnvelope>)
    ensures
        <OpPooledTransaction as TryFromSpec<Recovered<OpTransactionSigned>>>::try_from_spec(
            Recovered { transaction: tx.transaction.consensus(), signer: tx.signer },
        ) == Ok::<_, TransactionConversionError>(
            <OpPooledTransaction as FromSpec<Recovered<OpPooledEnvelope>>>::from_spec(tx),
        ),
{
}

/// The cached size is never seen. Along any chain of pool transactions, each of which is left by
/// asking the one before for its size or is a clone of it, every estimate is the same, and so is
/// all else that the pool asks: the signed transaction with its hash, the signer, the cost, the
/// type and the encoded length.
pub proof fn cached_size_is_never_seen(chain: Seq<OpPooledTransaction>, i: int)
    requires
        0 <= i < chain.len(),
        forall|k: int|
            0 < k < chain.len() ==> (#[trigger] chain[k]).same_but_for_cache(chain[k - 1]),
    ensures
        chain[i].compressed_size() == chain[0].compressed_size(),
        chain[i].signed() == chain[0].signed(),
        chain[i].signed_by() == chain[0].signed_by(),
        chain[i].max_cost() == chain[0].max_cost(),
        chain[i].type_byte() == chain[0].type_byte(),
        chain[i].told_length() == chain[0].told_length(),
    decreases i,
{
    if i > 0 {
        cached_size_is_never_seen(chain, i - 1);
        assert(chain[i].same_but_for_cache(chain[i - 1]));
    }
}

/// The estimate depends on the transaction's encoding alone: not on the encoded length that the
/// pool was told, nor on which way the transaction came into the pool.
pub proof fn estimate_depends_on_the_encoding_alone(
    a: Recovered<OpTransactionSigned>,
    b: Recovered<OpTransactionSigned>,
    a_length: usize,
    b_length: usize,
)
    requires
        a.transaction@.encoding() == b.transaction@.encoding(),
    ensures
        OpPooledTransaction::fresh(a, a_length).compressed_size() == OpPooledTransaction::fresh(
            b,
            b_length,
        ).compressed_size(),
        <OpPooledTransaction as TryFromSpec<Recovered<OpTransactionSigned>>>::try_from_spec(
            b,
        ) matches Ok(pooled) ==> pooled.compressed_size() == OpPooledTransaction::fresh(
            a,
            a_length,
        ).compressed_size(),
{
}

/// No transaction is estimated below the floor, and one that compresses to more bytes is not
/// estimated smaller.
pub proof fn estimate_has_floor_and_grows(smaller: u32, larger: u32)
    requires
        smaller <= larger,
    ensures
        MIN_TX_SIZE_SCALED <= estimated_size(smaller) <= estimated_size(larger) <= u64::MAX,
{
}

/// The estimate of every pool transaction: 0.8365 bytes for each byte that FastLZ makes of its
/// encoding, less 42.5856 bytes, and at least 100 bytes, in millionths of a byte.
pub proof fn estimate_is_the_larger_of_floor_and_line(tx: OpPooledTransaction)
    ensures
        ({
            let line = fastlz_size(tx.signed().encoding()) * 836_500 - 42_585_600;
            &&& line >= 100_000_000 ==> tx.compressed_size() == line
            &&& line < 100_000_000 ==> tx.compressed_size() == 100_000_000
        }),
{
}

/// Two pool transactions whose encodings FastLZ makes `more` bytes apart, both estimated above the
/// floor, are estimated 0.8365 bytes apart for each of them.
pub proof fn estimates_above_the_floor_lie_on_a_line(
    a: OpPooledTransaction,
    b: OpPooledTransaction,
    more: int,
)
    requires
        fastlz_size(b.signed().encoding()) - fastlz_size(a.signed().encoding()) == more,
        a.compressed_size() > 100_000_000,
        b.compressed_size() > 100_000_000,
    ensures
        b.compressed_size() - a.compressed_size() == 836_500 * more,
{
}

/// The longest input that is estimated is the longest for which 33 bytes for every 32, and one more
/// than are left over, fit in 32 bits.
pub proof fn longest_estimated_input_fills_32_bits()
    ensures
        33 * (MAX_ESTIMATED_INPUT / 32) + MAX_ESTIMATED_INPUT % 32 + 1 == 0xffff_ffffint,
        MAX_ESTIMATED_INPUT % 32 > 0,
{
}

/// A pool transaction shows the signed transaction that it holds, with its signer, its type and its
/// cost, and the encoded length that it was told.
pub proof fn pool_transaction_shows_what_it_holds(tx: OpPooledTransaction)
    ensures
        tx.signed() == tx.recovered().transaction@,
        tx.signed_by() == tx.recovered().signer,
        tx.type_byte() == tx.recovered().transaction.transaction@.tx_type(),
        tx.max_cost() == tx.recovered().transaction.transaction@.max_cost(),
        tx.told_length() == tx.stored_length(),
{
}

/// A new pool transaction holds what it was made of, and no size was asked for.
pub proof fn new_pool_transaction_holds_what_it_was_made_of(
    transaction: Recovered<OpTransactionSigned>,
    encoded_length: usize,
)
    ensures
        OpPooledTransaction::fresh(transaction, encoded_length).recovered() == transaction,
        OpPooledTransaction::fresh(transaction, encoded_length).stored_length() == encoded_length,
        OpPooledTransaction::fresh(transaction, encoded_length).cached_size() is None,
{
}

/// A transaction taken into the pool is held with its signer and the length of its encoding,
/// whether it came signed or gossiped.
pub proof fn pool_holds_signer_and_encoded_length(
    value: Recovered<OpTransactionSigned>,
    gossiped: Recovered<OpPooledEnvelope>,
)
    requires
        value.transaction@.encoding().len() <= usize::MAX,
        gossiped.transaction.consensus()@.encoding().len() <= usize::MAX,
    ensures
        <OpPooledTransaction as TryFromSpec<Recovered<OpTransactionSigned>>>::try_from_spec(
            value,
        ) matches Ok(pooled) ==> {
            &&& pooled.recovered() == value
            &&& pooled.stored_length() == value.transaction@.encoding().len()
        },
        ({
            let pooled =
                <OpPooledTransaction as FromSpec<Recovered<OpPooledEnvelope>>>::from_spec(gossiped);
            &&& pooled.recovered().transaction == gossiped.transaction.consensus()
            &&& pooled.recovered().signer == gossiped.signer
            &&& pooled.stored_length() == gossiped.transaction.consensus()@.encoding().len()
        }),
{
}

} // verus!
