//! Transactions in the form in which they are gossiped between nodes.
use crate::primitives::{Signature, B256};
use crate::transaction::{
    OpTransactionSigned, OpTypedTransaction, TxEip1559, TxEip2930, TxEip7702, TxLegacy,
};
use vstd::prelude::*;

verus! {

/// Why a transaction has no gossiped form.
#[derive(Debug, Clone, Copy, PartialEq, Eq)]
pub enum TransactionConversionError {
    /// Transactions of this type are not sent to peers.
    UnsupportedForP2P,
}

/// A transaction of a type that is gossiped: any but a deposit.
#[derive(Debug, PartialEq, Eq)]
pub enum OpPooledTypedTransaction {
    Legacy(TxLegacy),
    Eip2930(TxEip2930),
    Eip1559(TxEip1559),
    Eip7702(TxEip7702),
}

/// A signed transaction of a type that is gossiped, with its hash.
#[derive(Debug, PartialEq, Eq)]
pub struct OpPooledEnvelope {
    pub hash: B256,
    pub signature: Signature,
    pub transaction: OpPooledTypedTransaction,
}

impl OpPooledEnvelope {
    /// The same transaction among those of all types.
    pub open spec fn consensus(self) -> OpTransactionSigned {
        OpTransactionSigned {
            hash: self.hash,
            signature: self.signature,
            transaction: match self.transaction {
                OpPooledTypedTransaction::Legacy(tx) => OpTypedTransaction::Legacy(tx),
                OpPooledTypedTransaction::Eip2930(tx) => OpTypedTransaction::Eip2930(tx),
                OpPooledTypedTransaction::Eip1559(tx) => OpTypedTransaction::Eip1559(tx),
                OpPooledTypedTransaction::Eip7702(tx) => OpTypedTransaction::Eip7702(tx),
            },
        }
    }

    /// The gossiped form of a signed transaction, which a deposit does not have.
    pub open spec fn of_consensus(tx: OpTransactionSigned) -> Result<
        OpPooledEnvelope,
        TransactionConversionError,
    > {
        let hash = tx.hash;
        let signature = tx.signature;
        match tx.transaction {
            OpTypedTransaction::Legacy(tx) => Ok(
                OpPooledEnvelope {
                    hash,
                    signature,
                    transaction: OpPooledTypedTransaction::Legacy(tx),
                },
            ),
            OpTypedTransaction::Eip2930(tx) => Ok(
                OpPooledEnvelope {
                    hash,
                    signature,
                    transaction: OpPooledTypedTransaction::Eip2930(tx),
                },
            ),
            OpTypedTransaction::Eip1559(tx) => Ok(
                OpPooledEnvelope {
                    hash,
                    signature,
                    transaction: OpPooledTypedTransaction::Eip1559(tx),
                },
            ),
            OpTypedTransaction::Eip7702(tx) => Ok(
                OpPooledEnvelope {
                    hash,
                    signature,
                    transaction: OpPooledTypedTransaction::Eip7702(tx),
                },
            ),
            OpTypedTransaction::Deposit(_) => Err(TransactionConversionError::UnsupportedForP2P),
        }
    }

    /// The EIP-2718 encoding, which is that of the same transaction among those of all types.
    pub fn encoded_2718(&self) -> (encoding: Vec<u8>)
        ensures
            encoding@ == self.consensus()@.encoding(),
    {
        match &self.transaction {
            OpPooledTypedTransaction::Legacy(tx) => tx.encoded_2718(&self.signature),
            OpPooledTypedTransaction::Eip2930(tx) => tx.encoded_2718(&self.signature),
            OpPooledTypedTransaction::Eip1559(tx) => tx.encoded_2718(&self.signature),
            OpPooledTypedTransaction::Eip7702(tx) => tx.encoded_2718(&self.signature),
        }
    }

    /// The length of the EIP-2718 encoding.
    pub fn encode_2718_len(&self) -> (length: usize)
        ensures
            length == self.consensus()@.encoding().len(),
    {
        self.encoded_2718().len()
    }
}

impl From<OpPooledEnvelope> for OpTransactionSigned {
    fn from(tx: OpPooledEnvelope) -> (signed: Self) {
        OpTransactionSigned {
            hash: tx.hash,
            signature: tx.signature,
            transaction: match tx.transaction {
                OpPooledTypedTransaction::Legacy(tx) => OpTypedTransaction::Legacy(tx),
                OpPooledTypedTransaction::Eip2930(tx) => OpTypedTransaction::Eip2930(tx),
                OpPooledTypedTransaction::Eip1559(tx) => OpTypedTransaction::Eip1559(tx),
                OpPooledTypedTransaction::Eip7702(tx) => OpTypedTransaction::Eip7702(tx),
            },
        }
    }
}

impl vstd::std_specs::convert::FromSpecImpl<OpPooledEnvelope> for OpTransactionSigned {
    open spec fn obeys_from_spec() -> bool {
        true
    }

    open spec fn from_spec(tx: OpPooledEnvelope) -> Self {
        tx.consensus()
    }
}

impl TryFrom<OpTransactionSigned> for OpPooledEnvelope {
    type Error = TransactionConversionError;

    fn try_from(tx: OpTransactionSigned) -> (pooled: Result<Self, Self::Error>) {
        let (hash, signature) = (tx.hash, tx.signature);
        let transaction = match tx.transaction {
            OpTypedTransaction::Legacy(tx) => OpPooledTypedTransaction::Legacy(tx),
            OpTypedTransaction::Eip2930(tx) => OpPooledTypedTransaction::Eip2930(tx),
            OpTypedTransaction::Eip1559(tx) => OpPooledTypedTransaction::Eip1559(tx),
            OpTypedTransaction::Eip7702(tx) => OpPooledTypedTransaction::Eip7702(tx),
            OpTypedTransaction::Deposit(_) => {
                return Err(TransactionConversionError::UnsupportedForP2P);
            },
        };
        Ok(OpPooledEnvelope { hash, signature, transaction })
    }
}

impl vstd::std_specs::convert::TryFromSpecImpl<OpTransactionSigned> for OpPooledEnvelope {
    open spec fn obeys_try_from_spec() -> bool {
        true
    }

    open spec fn try_from_spec(tx: OpTransactionSigned) -> Result<Self, Self::Error> {
        OpPooledEnvelope::of_consensus(tx)
    }
}

/// A gossiped transaction comes back from the form it has among those of all types.
pub proof fn gossiped_form_comes_back(tx: OpPooledEnvelope)
    ensures
        OpPooledEnvelope::of_consensus(tx.consensus()) == Ok::<_, TransactionConversionError>(tx),
{
}

/// A signed transaction has a gossiped form unless it is a deposit, and comes back from it, hash,
/// signature and encoding included.
pub proof fn signed_transaction_comes_back(tx: OpTransactionSigned)
    ensures
        OpPooledEnvelope::of_consensus(tx) is Ok == !(tx.transaction is Deposit),
        OpPooledEnvelope::of_consensus(tx) matches Ok(pooled) ==> pooled.consensus() == tx,
{
}

} // verus!
