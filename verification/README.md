# op_txpool

The transaction pool rules of an OP stack node, verified with Verus.

A pool transaction wraps a signed transaction and caches what the pool asks of it often. The
validator admits what the node's Ethereum validation admits, less what the sender's balance cannot
carry once the fee for posting the transaction's data on L1 is added.

- `src/validate.rs`: the validator. The node brings the Ethereum validation, the L1 data fee, the
  L1 block info of a system transaction and the block lookup, as functions. The contracts say what
  each is handed and what is made of its answer.
- `src/laws.rs`: what holds of validation as a whole.
- `src/block.rs`: what is tracked of the current block.
- `src/pool.rs`: pool transactions.
- `src/pooled.rs`: the gossiped form of transactions.
- `src/transaction.rs`: signed transactions, and what is read off them.
- `src/primitives.rs`, `src/u256.rs`: addresses, hashes, signatures, 256-bit integers.
- `src/outside.rs`: what is taken from other crates. Its contracts are believed, not proved.
- `app/`: conversions from decoded transactions, and the parts that threads and tasks share.
