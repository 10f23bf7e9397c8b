//! What the validator knows of the current block.
use crate::outside::{
    clone_l1_block_info, default_l1_block_info, l1_block_info_fields, L1BlockInfoFields,
};
use revm::L1BlockInfo;
use vstd::prelude::*;

verus! {

/// What the validator reads of a block header.
#[derive(Debug, Clone, Copy, PartialEq, Eq)]
pub struct Header {
    pub number: u64,
    pub timestamp: u64,
}

/// A block: its header and its transactions.
#[derive(Debug)]
pub struct Block<T> {
    pub header: Header,
    pub transactions: Vec<T>,
}

impl<T> Block<T> {
    /// The first transaction, which brings the fee parameters of L1.
    pub open spec fn first(&self) -> Option<&T> {
        if self.transactions@.len() == 0 {
            None
        } else {
            Some(&self.transactions@[0])
        }
    }

    /// The first transaction, which brings the fee parameters of L1.
    pub fn first_transaction(&self) -> (tx: Option<&T>)
        ensures
            tx == self.first(),
            tx is Some == (self.transactions@.len() > 0),
            tx is Some ==> *tx->0 == self.transactions@[0],
    {
        if self.transactions.len() == 0 {
            None
        } else {
            Some(&self.transactions[0])
        }
    }
}

/// Which block is asked for.
#[derive(Debug, Clone, Copy, PartialEq, Eq)]
pub enum BlockNumberOrTag {
    /// The newest block.
    Latest,
    /// The newest block that is final.
    Finalized,
    /// The newest block that is safe.
    Safe,
    /// The first block.
    Earliest,
    /// The block being built.
    Pending,
    /// The block of this number.
    Number(u64),
}

/// Tracks additional infos for the current block.
#[derive(Debug)]
pub struct OpL1BlockInfo {
    /// The current L1 block info.
    pub l1_block_info: L1BlockInfo,
    /// Current block timestamp.
    pub timestamp: u64,
}

impl Default for OpL1BlockInfo {
    fn default() -> (info: Self)
        ensures
            info.is_empty(),
            forall|other: OpL1BlockInfo| #[trigger] other.is_empty() ==> other == info,
    {
        OpL1BlockInfo { l1_block_info: default_l1_block_info(), timestamp: 0 }
    }
}

impl OpL1BlockInfo {
    /// Nothing is known of L1 yet.
    pub open spec fn without_l1_info(self) -> bool {
        l1_block_info_fields(self.l1_block_info) == L1BlockInfoFields::empty()
    }

    /// No block was seen yet.
    pub open spec fn is_empty(self) -> bool {
        self.without_l1_info() && self.timestamp == 0
    }

    /// What is known after a block of the given timestamp, where `extracted` is what came of
    /// reading the L1 block info off its first transaction, and `None` stands for a block without
    /// transactions. Without new L1 block info the old stays.
    pub open spec fn updated<E>(
        self,
        timestamp: u64,
        extracted: Option<Result<L1BlockInfo, E>>,
    ) -> OpL1BlockInfo {
        OpL1BlockInfo {
            l1_block_info: match extracted {
                Some(Ok(info)) => info,
                _ => self.l1_block_info,
            },
            timestamp,
        }
    }

    /// Whether `after` may be known once a block of the given timestamp and first transaction was
    /// taken in, with `extract` to read the L1 block info off a transaction.
    pub open spec fn follows<T, E, X>(
        self,
        timestamp: u64,
        tx: Option<&T>,
        extract: X,
        after: OpL1BlockInfo,
    ) -> bool where X: Fn(&T) -> Result<L1BlockInfo, E> {
        match tx {
            None => after == self.updated::<E>(timestamp, None),
            Some(tx) => exists|extracted: Result<L1BlockInfo, E>|
                {
                    &&& #[trigger] call_ensures(extract, (tx,), extracted)
                    &&& after == self.updated(timestamp, Some(extracted))
                },
        }
    }

    /// Whether `after` may be known at the start, where `latest` is what came of asking for the
    /// newest block. The genesis block has no transactions to read L1 block info off, so only its
    /// timestamp counts. Without a block nothing is known.
    pub open spec fn starts<T, P, E, X>(
        latest: Result<Option<Block<T>>, P>,
        extract: X,
        after: OpL1BlockInfo,
    ) -> bool where X: Fn(&T) -> Result<L1BlockInfo, E> {
        match latest {
            Ok(Some(block)) => if block.header.number == 0 {
                after.without_l1_info() && after.timestamp == block.header.timestamp
            } else {
                exists|before: OpL1BlockInfo|
                    {
                        &&& #[trigger] before.is_empty()
                        &&& before.follows(
                            block.header.timestamp,
                            block.first(),
                            extract,
                            after,
                        )
                    }
            },
            _ => after.is_empty(),
        }
    }

    /// The transaction that L1 block info is read off at the start, where `latest` is what came of
    /// asking for the newest block: the first one of a block that is not the genesis block.
    pub open spec fn read_at_start<T, P>(latest: &Result<Option<Block<T>>, P>) -> Option<&T> {
        match latest {
            Ok(Some(block)) if block.header.number != 0 => block.first(),
            _ => None,
        }
    }

    /// Whether there is no transaction or `extract` can read it.
    pub open spec fn may_read<T, E, X>(tx: Option<&T>, extract: X) -> bool where
        X: Fn(&T) -> Result<L1BlockInfo, E>,
     {
        tx matches Some(tx) ==> call_requires(extract, (tx,))
    }

    /// What is known after blocks were taken in one after the other, each given by its timestamp
    /// and what came of reading its L1 block info.
    pub open spec fn after_all<E>(
        self,
        blocks: Seq<(u64, Option<Result<L1BlockInfo, E>>)>,
    ) -> OpL1BlockInfo
        decreases blocks.len(),
    {
        if blocks.len() == 0 {
            self
        } else {
            self.after_all(blocks.drop_last()).updated(blocks.last().0, blocks.last().1)
        }
    }

    /// Takes in what came of reading a block: see [`OpL1BlockInfo::updated`].
    pub fn update<E>(&mut self, timestamp: u64, extracted: Option<Result<L1BlockInfo, E>>)
        ensures
            *final(self) == old(self).updated(timestamp, extracted),
            final(self).timestamp == timestamp,
            final(self).l1_block_info == (match extracted {
                Some(Ok(info)) => info,
                _ => old(self).l1_block_info,
            }),
    {
        self.timestamp = timestamp;
        if let Some(Ok(info)) = extracted {
            self.l1_block_info = info;
        }
    }

    /// Takes in a block of the given timestamp and first transaction, with `extract` to read the L1
    /// block info off a transaction.
    pub fn follow<T, E, X>(&mut self, timestamp: u64, tx: Option<&T>, extract: &X) where
        X: Fn(&T) -> Result<L1BlockInfo, E>,

        requires
            OpL1BlockInfo::may_read(tx, *extract),
        ensures
            old(self).follows(timestamp, tx, *extract, *final(self)),
            final(self).timestamp == timestamp,
            tx is None ==> final(self).l1_block_info == old(self).l1_block_info,
    {
        match tx {
            Some(tx) => {
                let extracted = extract(tx);
                self.update(timestamp, Some(extracted));
            },
            None => self.update::<E>(timestamp, None),
        }
    }

    /// What is known at the start, where `latest` is what came of asking for the newest block: see
    /// [`OpL1BlockInfo::starts`].
    pub fn start<T, P, E, X>(latest: Result<Option<Block<T>>, P>, extract: &X) -> (info: Self) where
        X: Fn(&T) -> Result<L1BlockInfo, E>,

        requires
            OpL1BlockInfo::may_read(OpL1BlockInfo::read_at_start(&latest), *extract),
        ensures
            OpL1BlockInfo::starts(latest, *extract, info),
    {
        let mut info = OpL1BlockInfo::default();
        if let Ok(Some(block)) = latest {
            if block.header.number == 0 {
                info.timestamp = block.header.timestamp;
            } else {
                info.follow(block.header.timestamp, block.first_transaction(), extract);
            }
        }
        info
    }

    /// A copy of the current L1 block info.
    pub fn l1_block_info(&self) -> (info: L1BlockInfo)
        ensures
            info == self.l1_block_info,
    {
        clone_l1_block_info(&self.l1_block_info)
    }
}

/// Block info stays that of the newest block that brought some: a block that brings none changes
/// the timestamp alone.
pub proof fn l1_info_is_kept_without_news<E>(
    before: OpL1BlockInfo,
    timestamp: u64,
    extracted: Option<Result<L1BlockInfo, E>>,
)
    requires
        !(extracted matches Some(Ok(_))),
    ensures
        before.updated(timestamp, extracted).l1_block_info == before.l1_block_info,
        before.updated(timestamp, extracted).timestamp == timestamp,
{
}

/// A block that brings L1 block info leaves nothing of what was known before it.
pub proof fn l1_info_is_replaced_by_news<E>(
    before: OpL1BlockInfo,
    other: OpL1BlockInfo,
    timestamp: u64,
    info: L1BlockInfo,
)
    ensures
        before.updated(timestamp, Some(Ok::<_, E>(info))) == (OpL1BlockInfo {
            l1_block_info: info,
            timestamp,
        }),
        before.updated(timestamp, Some(Ok::<_, E>(info))) == other.updated(
            timestamp,
            Some(Ok::<_, E>(info)),
        ),
{
}

/// Taking in a block is an update with its timestamp and with some reading of its first
/// transaction.
pub proof fn following_a_block_updates<T, E, X>(
    before: OpL1BlockInfo,
    timestamp: u64,
    tx: Option<&T>,
    extract: X,
    after: OpL1BlockInfo,
) where X: Fn(&T) -> Result<L1BlockInfo, E>
    requires
        before.follows(timestamp, tx, extract, after),
    ensures
        after.timestamp == timestamp,
        exists|extracted: Option<Result<L1BlockInfo, E>>|
            after == #[trigger] before.updated(timestamp, extracted),
{
    if tx is None {
        assert(after == before.updated::<E>(timestamp, None));
    } else {
        let extracted = choose|extracted: Result<L1BlockInfo, E>|
            {
                &&& #[trigger] call_ensures(extract, (tx->0,), extracted)
                &&& after == before.updated(timestamp, Some(extracted))
            };
        assert(after == before.updated(timestamp, Some(extracted)));
    }
}

/// The timestamp is that of the last block taken in, and the one at construction where there was
/// none.
pub proof fn timestamp_is_that_of_the_last_block<E>(
    start: OpL1BlockInfo,
    blocks: Seq<(u64, Option<Result<L1BlockInfo, E>>)>,
)
    ensures
        start.after_all(blocks).timestamp == if blocks.len() == 0 {
            start.timestamp
        } else {
            blocks.last().0
        },
{
}

/// The L1 block info is that of the last block that brought some, and the one at construction where
/// none did.
pub proof fn l1_info_is_that_of_the_last_block_with_news<E>(
    start: OpL1BlockInfo,
    blocks: Seq<(u64, Option<Result<L1BlockInfo, E>>)>,
    last: int,
)
    requires
        -1 <= last < blocks.len(),
        last >= 0 ==> blocks[last].1 matches Some(Ok(_)),
        forall|i: int| last < i < blocks.len() ==> !((#[trigger] blocks[i]).1 matches Some(Ok(_))),
    ensures
        last >= 0 ==> Some(Ok::<_, E>(start.after_all(blocks).l1_block_info)) == blocks[last].1,
        last == -1 ==> start.after_all(blocks).l1_block_info == start.l1_block_info,
    decreases blocks.len(),
{
    if last + 1 < blocks.len() {
        assert(!(blocks[blocks.len() - 1].1 matches Some(Ok(_))));
        l1_info_is_that_of_the_last_block_with_news(start, blocks.drop_last(), last);
    }
}

/// The first transaction of a block is the one that its transactions start with, however many
/// follow.
pub proof fn first_transaction_starts_the_block<T>(block: Block<T>, tx: T, rest: Seq<T>)
    requires
        block.transactions@ == seq![tx] + rest,
    ensures
        block.first() == Some(&tx),
        block.header.number != 0 ==> OpL1BlockInfo::read_at_start(
            &Ok::<_, int>(Some(block)),
        ) == Some(&tx),
        block.header.number == 0 ==> OpL1BlockInfo::read_at_start(
            &Ok::<_, int>(Some(block)),
        ) is None,
{
}

/// A block without transactions has no first one.
pub proof fn empty_block_has_no_first_transaction<T>(block: Block<T>)
    requires
        block.transactions@.len() == 0,
    ensures
        block.first() is None,
{
}

/// What follows the first transaction of a block plays no part: a block leaves what a block of its
/// first transaction alone would leave.
pub proof fn only_the_first_transaction_counts<T, E, X>(
    block: Block<T>,
    short: Block<T>,
    tx: T,
    rest: Seq<T>,
    before: OpL1BlockInfo,
    extract: X,
    after: OpL1BlockInfo,
) where X: Fn(&T) -> Result<L1BlockInfo, E>
    requires
        block.transactions@ == seq![tx] + rest,
        short.transactions@ == seq![tx],
        block.header == short.header,
    ensures
        before.follows(block.header.timestamp, block.first(), extract, after) == before.follows(
            short.header.timestamp,
            short.first(),
            extract,
            after,
        ),
        OpL1BlockInfo::starts(Ok::<_, int>(Some(block)), extract, after) == OpL1BlockInfo::starts(
            Ok::<_, int>(Some(short)),
            extract,
            after,
        ),
{
    first_transaction_starts_the_block(block, tx, rest);
    assert(seq![tx] =~= seq![tx] + Seq::<T>::empty());
    first_transaction_starts_the_block(short, tx, Seq::<T>::empty());
}

/// Taking in a block whose first transaction is `tx` leaves its timestamp, and the L1 block info
/// that reading `tx` gave, or the one before where that failed.
pub proof fn block_leaves_what_its_first_transaction_brings<T, E, X>(
    block: Block<T>,
    before: OpL1BlockInfo,
    extract: X,
    after: OpL1BlockInfo,
) where X: Fn(&T) -> Result<L1BlockInfo, E>
    requires
        before.follows(block.header.timestamp, block.first(), extract, after),
    ensures
        after.timestamp == block.header.timestamp,
        block.transactions@.len() == 0 ==> after.l1_block_info == before.l1_block_info,
        block.transactions@.len() > 0 ==> exists|extracted: Result<L1BlockInfo, E>|
            {
                &&& #[trigger] call_ensures(extract, (&block.transactions@[0],), extracted)
                &&& extracted matches Ok(info) ==> after.l1_block_info == info
                &&& extracted is Err ==> after.l1_block_info == before.l1_block_info
            },
{
    if block.transactions@.len() > 0 {
        let extracted = choose|extracted: Result<L1BlockInfo, E>|
            {
                &&& #[trigger] call_ensures(extract, (&block.transactions@[0],), extracted)
                &&& after == before.updated(block.header.timestamp, Some(extracted))
            };
        assert(call_ensures(extract, (&block.transactions@[0],), extracted));
    }
}

/// Before any block nothing is known: no timestamp, no fee, and nothing that an upgrade brought.
pub proof fn empty_info_holds_nothing(info: OpL1BlockInfo)
    requires
        info.is_empty(),
    ensures
        info.timestamp == 0,
        ({
            let fields = l1_block_info_fields(info.l1_block_info);
            &&& fields.l1_base_fee == 0
            &&& fields.l1_fee_overhead is None
            &&& fields.l1_base_fee_scalar == 0
            &&& fields.l1_blob_base_fee is None
            &&& fields.l1_blob_base_fee_scalar is None
            &&& fields.operator_fee_scalar is None
            &&& fields.operator_fee_constant is None
            &&& !fields.empty_ecotone_scalars
            &&& fields.tx_l1_cost is None
        }),
{
}

/// At the start, a genesis block gives its timestamp and leaves the L1 block info empty, even if it
/// has transactions. Without a block nothing is known.
pub proof fn genesis_and_no_block_bring_no_l1_info<T, P, E, X>(
    latest: Result<Option<Block<T>>, P>,
    extract: X,
    after: OpL1BlockInfo,
) where X: Fn(&T) -> Result<L1BlockInfo, E>
    requires
        OpL1BlockInfo::starts(latest, extract, after),
        latest matches Ok(Some(block)) ==> block.header.number == 0,
    ensures
        l1_block_info_fields(after.l1_block_info).l1_base_fee == 0,
        l1_block_info_fields(after.l1_block_info) == L1BlockInfoFields::empty(),
        latest matches Ok(Some(block)) ==> after.timestamp == block.header.timestamp,
        !(latest matches Ok(Some(_))) ==> after.timestamp == 0,
{
}

/// At the start, a later block gives its timestamp, and the L1 block info that reading its first
/// transaction gave, or an empty one where it has none or the reading failed.
pub proof fn later_block_brings_its_first_transaction<T, P, E, X>(
    block: Block<T>,
    extract: X,
    after: OpL1BlockInfo,
) where X: Fn(&T) -> Result<L1BlockInfo, E>
    requires
        OpL1BlockInfo::starts(Ok::<_, P>(Some(block)), extract, after),
        block.header.number != 0,
    ensures
        after.timestamp == block.header.timestamp,
        block.transactions@.len() == 0 ==> l1_block_info_fields(after.l1_block_info)
            == L1BlockInfoFields::empty(),
        block.transactions@.len() > 0 ==> exists|extracted: Result<L1BlockInfo, E>|
            {
                &&& #[trigger] call_ensures(extract, (&block.transactions@[0],), extracted)
                &&& extracted matches Ok(info) ==> after.l1_block_info == info
                &&& extracted is Err ==> l1_block_info_fields(after.l1_block_info)
                    == L1BlockInfoFields::empty()
            },
{
    let before = choose|before: OpL1BlockInfo|
        {
            &&& #[trigger] before.is_empty()
            &&& before.follows(block.header.timestamp, block.first(), extract, after)
        };
    block_leaves_what_its_first_transaction_brings(block, before, extract, after);
}

/// A function that reads every transaction may be handed any, and none needs to be read where there
/// is none.
pub proof fn total_reader_may_read<T, E, X>(tx: Option<&T>, extract: X) where
    X: Fn(&T) -> Result<L1BlockInfo, E>,

    requires
        tx is None || forall|any: &T| #[trigger] call_requires(extract, (any,)),
    ensures
        OpL1BlockInfo::may_read(tx, extract),
{
}

} // verus!
