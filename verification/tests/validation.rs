use op_txpool::block::{Block, BlockNumberOrTag, Header, OpL1BlockInfo};
use op_txpool::pool::{OpPooledTransaction, PoolTransaction};
use op_txpool::pooled::{OpPooledEnvelope, TransactionConversionError};
use op_txpool::primitives::{Address, Signature, TxKind, B256};
use op_txpool::transaction::{
    OpTransactionSigned, OpTypedTransaction, Recovered, TxDeposit, TxEip1559, DEPOSIT_TX_TYPE_ID,
    EIP4844_TX_TYPE_ID,
};
use op_txpool::u256::U256;
use op_txpool::validate::{
    charge_l1_data_fee, EthTransactionValidator, GotExpected, InvalidPoolTransactionError,
    InvalidTransactionError, OpTransactionValidator, TransactionOrigin,
    TransactionValidationOutcome, ValidTransaction,
};
use revm::L1BlockInfo;
use std::cell::RefCell;

type Outcome<Tx> = TransactionValidationOutcome<Tx, String>;
type Validator = OpTransactionValidator<(), u64>;

fn wei(n: u128) -> U256 {
    U256::from_u128(n)
}

fn test_signature() -> Signature {
    let signature = alloy_primitives::PrimitiveSignature::test_signature();
    Signature {
        r: U256::from_limbs(*signature.r().as_limbs()),
        s: U256::from_limbs(*signature.s().as_limbs()),
        odd_y_parity: signature.v(),
    }
}

/// A transfer of 100 that may use 10 gas at up to 5 each: it costs 150.
fn transfer(nonce: u64) -> OpPooledTransaction {
    let tx = OpTypedTransaction::Eip1559(TxEip1559 {
        chain_id: 10,
        nonce,
        gas_limit: 10,
        max_fee_per_gas: 5,
        max_priority_fee_per_gas: 2,
        to: TxKind::Call(Address { bytes: [7; 20] }),
        value: wei(100),
        access_list: Default::default(),
        input: vec![1, 2, 3],
    });
    let signed = OpTransactionSigned::new_unhashed(tx, test_signature());
    let len = signed.encode_2718_len();
    OpPooledTransaction::new(Recovered::new_unchecked(signed, Address { bytes: [9; 20] }), len)
}

fn ethereum() -> EthTransactionValidator<(), u64> {
    EthTransactionValidator { client: (), chain_spec: 8453 }
}

fn l1_info(base_fee: u64) -> L1BlockInfo {
    let mut info = L1BlockInfo::default();
    info.l1_base_fee = alloy_primitives::U256::from(base_fee);
    info
}

fn validator() -> Validator {
    OpTransactionValidator::with_block_info(
        ethereum(),
        OpL1BlockInfo { l1_block_info: l1_info(77), timestamp: 1234 },
    )
}

fn admit_with(
    balance: u128,
) -> impl Fn(TransactionOrigin, OpPooledTransaction) -> Outcome<OpPooledTransaction> {
    move |origin, transaction| TransactionValidationOutcome::Valid {
        balance: wei(balance),
        state_nonce: 3,
        transaction: ValidTransaction::Valid(transaction),
        propagate: origin == TransactionOrigin::External,
    }
}

fn fee_of(fee: u128) -> impl Fn(L1BlockInfo, &u64, u64, &[u8], bool) -> Result<U256, String> {
    move |_, _, _, _, _| Ok(wei(fee))
}

#[test]
fn validate_optimism_transaction() {
    let validator: OpTransactionValidator<(), u64> = OpTransactionValidator::new(
        ethereum(),
        &|_: &(), _: BlockNumberOrTag| Ok::<Option<Block<OpTransactionSigned>>, String>(None),
        &|_: &OpTransactionSigned| Err::<L1BlockInfo, String>("no system transaction".into()),
    );

    let origin = TransactionOrigin::External;
    let signer = Address { bytes: [0; 20] };
    let deposit_tx = OpTypedTransaction::Deposit(TxDeposit {
        source_hash: B256 { bytes: [0; 32] },
        from: signer,
        to: TxKind::Create,
        mint: None,
        value: U256::zero(),
        gas_limit: 0,
        is_system_transaction: false,
        input: Default::default(),
    });
    let signature = test_signature();
    let signed_tx = OpTransactionSigned::new_unhashed(deposit_tx, signature);
    let signed_recovered = Recovered::new_unchecked(signed_tx, signer);
    let len = signed_recovered.transaction.encode_2718_len();
    let pooled_tx = OpPooledTransaction::new(signed_recovered, len);

    // the Ethereum validation knows the types up to 4 and no other
    let ethereum = |_: TransactionOrigin, tx: OpPooledTransaction| -> Outcome<OpPooledTransaction> {
        if tx.tx_type() > 4 {
            return TransactionValidationOutcome::Invalid(
                tx,
                InvalidPoolTransactionError::Consensus(InvalidTransactionError::TxTypeNotSupported),
            );
        }
        panic!("Expected a deposit")
    };
    let outcome = validator.validate_one(origin, pooled_tx, &ethereum, &fee_of(0));

    let err = match outcome {
        TransactionValidationOutcome::Invalid(_, InvalidPoolTransactionError::Consensus(err)) => err,
        _ => panic!("Expected invalid transaction"),
    };
    assert_eq!(err.reason().to_string(), "transaction type not supported");
}

#[test]
fn admitted_while_balance_covers_cost_and_fee() {
    let outcome = validator().validate_one(
        TransactionOrigin::External,
        transfer(3),
        &admit_with(175),
        &fee_of(25),
    );
    match outcome {
        TransactionValidationOutcome::Valid { balance, state_nonce, transaction, propagate } => {
            assert_eq!(balance, wei(175));
            assert_eq!(state_nonce, 3);
            assert_eq!(transaction.transaction().nonce(), 3);
            assert!(propagate);
        }
        other => panic!("Expected valid transaction: {other:?}"),
    }
}

#[test]
fn refused_where_fee_exceeds_balance() {
    let outcome = validator().validate_one(
        TransactionOrigin::Local,
        transfer(4),
        &admit_with(174),
        &fee_of(25),
    );
    match outcome {
        TransactionValidationOutcome::Invalid(
            tx,
            InvalidPoolTransactionError::Consensus(err),
        ) => {
            assert_eq!(tx.nonce(), 4);
            assert_eq!(
                err,
                InvalidTransactionError::InsufficientFunds(GotExpected {
                    got: wei(174),
                    expected: wei(175)
                })
            );
            assert_eq!(
                err.reason(),
                "sender does not have enough funds to cover transaction fees"
            );
        }
        other => panic!("Expected invalid transaction: {other:?}"),
    }
}

#[test]
fn huge_fee_saturates() {
    let outcome: Outcome<OpPooledTransaction> = charge_l1_data_fee(
        U256::max_value(),
        0,
        ValidTransaction::Valid(transfer(0)),
        false,
        Ok(U256::max_value()),
    );
    assert!(matches!(outcome, TransactionValidationOutcome::Valid { .. }));
}

#[test]
fn fee_error_names_the_transaction() {
    let tx = transfer(5);
    let hash = *tx.hash();
    let outcome = validator().validate_one(
        TransactionOrigin::Local,
        tx,
        &admit_with(1_000),
        &|_: L1BlockInfo, _: &u64, _: u64, _: &[u8], _: bool| Err::<U256, String>("no spec".into()),
    );
    match outcome {
        TransactionValidationOutcome::Error(of, err) => {
            assert_eq!(of, hash);
            assert_eq!(err, "no spec");
        }
        other => panic!("Expected error: {other:?}"),
    }
}

#[test]
fn fee_is_worked_out_from_the_tracked_block() {
    let seen = RefCell::new(Vec::new());
    let tx = transfer(6);
    let encoded = tx.clone_into_consensus().transaction.encoded_2718();
    validator().validate_one(
        TransactionOrigin::Local,
        tx,
        &admit_with(1_000),
        &|info: L1BlockInfo, spec: &u64, timestamp: u64, data: &[u8], deposit: bool| {
            seen.borrow_mut().push((info.l1_base_fee, *spec, timestamp, data.to_vec(), deposit));
            Ok::<U256, String>(wei(0))
        },
    );
    let expected = (alloy_primitives::U256::from(77), 8453, 1234, encoded, false);
    assert_eq!(seen.into_inner(), vec![expected]);
}

#[test]
fn fee_is_not_asked_for_unless_required() {
    let validator = validator().require_l1_data_gas_fee(false);
    assert!(!validator.requires_l1_data_gas_fee());
    let outcome = validator.validate_one(
        TransactionOrigin::Local,
        transfer(0),
        &admit_with(0),
        &|_: L1BlockInfo, _: &u64, _: u64, _: &[u8], _: bool| -> Result<U256, String> {
            panic!("asked for the fee")
        },
    );
    assert!(matches!(outcome, TransactionValidationOutcome::Valid { .. }));
    assert!(validator.require_l1_data_gas_fee(true).requires_l1_data_gas_fee());
}

#[test]
fn ethereum_refusal_is_passed_on() {
    let outcome = validator().validate_one(
        TransactionOrigin::Local,
        transfer(8),
        &|_: TransactionOrigin, tx: OpPooledTransaction| -> Outcome<OpPooledTransaction> {
            TransactionValidationOutcome::Invalid(
                tx,
                InvalidPoolTransactionError::Other("too cheap".into()),
            )
        },
        &fee_of(0),
    );
    match outcome {
        TransactionValidationOutcome::Invalid(tx, InvalidPoolTransactionError::Other(err)) => {
            assert_eq!(tx.nonce(), 8);
            assert_eq!(err, "too cheap");
        }
        other => panic!("Expected invalid transaction: {other:?}"),
    }
}

/// A transaction that says it is a blob transaction.
#[derive(Debug)]
struct BlobTransaction(OpPooledTransaction);

impl PoolTransaction for BlobTransaction {
    fn clone_into_consensus(&self) -> Recovered<OpTransactionSigned> {
        self.0.clone_into_consensus()
    }
    fn try_consensus_into_pooled(
        tx: Recovered<OpTransactionSigned>,
    ) -> Result<Recovered<OpPooledEnvelope>, TransactionConversionError> {
        OpPooledTransaction::try_consensus_into_pooled(tx)
    }
    fn hash(&self) -> &B256 {
        PoolTransaction::hash(&self.0)
    }
    fn sender(&self) -> Address {
        self.0.sender()
    }
    fn sender_ref(&self) -> &Address {
        self.0.sender_ref()
    }
    fn nonce(&self) -> u64 {
        self.0.nonce()
    }
    fn cost(&self) -> &U256 {
        self.0.cost()
    }
    fn gas_limit(&self) -> u64 {
        self.0.gas_limit()
    }
    fn max_fee_per_gas(&self) -> u128 {
        self.0.max_fee_per_gas()
    }
    fn access_list(&self) -> Option<&alloy_eips::eip2930::AccessList> {
        self.0.access_list()
    }
    fn max_priority_fee_per_gas(&self) -> Option<u128> {
        self.0.max_priority_fee_per_gas()
    }
    fn max_fee_per_blob_gas(&self) -> Option<u128> {
        self.0.max_fee_per_blob_gas()
    }
    fn effective_tip_per_gas(&self, base_fee: u64) -> Option<u128> {
        self.0.effective_tip_per_gas(base_fee)
    }
    fn priority_fee_or_price(&self) -> u128 {
        self.0.priority_fee_or_price()
    }
    fn kind(&self) -> TxKind {
        self.0.kind()
    }
    fn is_create(&self) -> bool {
        self.0.is_create()
    }
    fn input(&self) -> &[u8] {
        self.0.input()
    }
    fn size(&self) -> usize {
        self.0.size()
    }
    fn tx_type(&self) -> u8 {
        EIP4844_TX_TYPE_ID
    }
    fn encoded_length(&self) -> usize {
        PoolTransaction::encoded_length(&self.0)
    }
    fn chain_id(&self) -> Option<u64> {
        self.0.chain_id()
    }
}

#[test]
fn blob_transaction_is_refused_before_anything_else() {
    let outcome = validator().validate_one(
        TransactionOrigin::Local,
        BlobTransaction(transfer(2)),
        &|_: TransactionOrigin, _: BlobTransaction| -> Outcome<BlobTransaction> {
            panic!("asked the Ethereum validation")
        },
        &fee_of(0),
    );
    match outcome {
        TransactionValidationOutcome::Invalid(
            tx,
            InvalidPoolTransactionError::Consensus(err),
        ) => {
            assert_eq!(tx.0.nonce(), 2);
            assert_eq!(err, InvalidTransactionError::TxTypeNotSupported);
        }
        other => panic!("Expected invalid transaction: {other:?}"),
    }
}

#[test]
fn all_outcomes_come_in_order() {
    let transactions =
        (0..5).map(|nonce| (TransactionOrigin::Private, transfer(nonce))).collect::<Vec<_>>();
    // odd nonces have no funds
    let ethereum = |origin: TransactionOrigin, tx: OpPooledTransaction| {
        let balance: u128 = if tx.nonce() % 2 == 1 { 0 } else { 150 };
        admit_with(balance)(origin, tx)
    };
    let outcomes = validator().validate_all(transactions, &ethereum, &fee_of(0));
    assert_eq!(outcomes.len(), 5);
    for (nonce, outcome) in outcomes.into_iter().enumerate() {
        match outcome {
            TransactionValidationOutcome::Valid { transaction, .. } => {
                assert_eq!(nonce % 2, 0);
                assert_eq!(transaction.into_transaction().nonce(), nonce as u64);
            }
            TransactionValidationOutcome::Invalid(tx, _) => {
                assert_eq!(nonce % 2, 1);
                assert_eq!(tx.nonce(), nonce as u64);
            }
            other => panic!("Unexpected outcome: {other:?}"),
        }
    }
}

#[test]
fn batch_can_be_cut() {
    let batch = |nonces: std::ops::Range<u64>| {
        nonces.map(|nonce| (TransactionOrigin::Local, transfer(nonce))).collect::<Vec<_>>()
    };
    // the fee grows with the encoding
    let fee = |_: L1BlockInfo, _: &u64, _: u64, data: &[u8], _: bool| {
        Ok::<U256, String>(wei(data.len() as u128))
    };
    let ethereum = |origin: TransactionOrigin, tx: OpPooledTransaction| {
        let balance = 200 + 30 * (tx.nonce() % 3) as u128;
        admit_with(balance)(origin, tx)
    };
    let whole = validator().validate_all(batch(0..6), &ethereum, &fee);
    let mut parts = validator().validate_all(batch(0..2), &ethereum, &fee);
    parts.extend(validator().validate_all(batch(2..6), &ethereum, &fee));
    assert_eq!(format!("{parts:?}"), format!("{whole:?}"));
}

fn block(number: u64, timestamp: u64, fees: Vec<u64>) -> Block<u64> {
    Block { header: Header { number, timestamp }, transactions: fees }
}

fn extract(tx: &u64) -> Result<L1BlockInfo, String> {
    if *tx == 0 {
        Err("not a system transaction".into())
    } else {
        Ok(l1_info(*tx))
    }
}

fn started_at(latest: Result<Option<Block<u64>>, String>) -> Validator {
    let latest = RefCell::new(Some(latest));
    OpTransactionValidator::new(
        ethereum(),
        &|_: &(), id: BlockNumberOrTag| {
            assert_eq!(id, BlockNumberOrTag::Latest);
            latest.borrow_mut().take().unwrap()
        },
        &extract,
    )
}

fn base_fee(validator: &Validator) -> u64 {
    validator.block_info.l1_block_info.l1_base_fee.to::<u64>()
}

#[test]
fn new_reads_the_latest_block() {
    let validator = started_at(Ok(Some(block(5, 60, vec![42, 43]))));
    assert_eq!(base_fee(&validator), 42);
    assert_eq!(validator.block_timestamp(), 60);
    assert!(validator.requires_l1_data_gas_fee());
    assert_eq!(*validator.chain_spec(), 8453);
    assert_eq!(*validator.client(), ());
}

#[test]
fn new_takes_the_timestamp_alone_off_genesis() {
    let validator = started_at(Ok(Some(block(0, 60, vec![42]))));
    assert_eq!(base_fee(&validator), 0);
    assert_eq!(validator.block_info.l1_block_info.l1_fee_overhead, None);
    assert_eq!(validator.block_timestamp(), 60);
}

#[test]
fn new_without_a_block_knows_nothing() {
    for latest in [Ok(None), Err("gone".to_string())] {
        let validator = started_at(latest);
        assert_eq!(base_fee(&validator), 0);
        assert_eq!(validator.block_timestamp(), 0);
    }
}

#[test]
fn l1_block_info_is_kept_until_new_comes() {
    let mut validator = started_at(Ok(Some(block(5, 60, vec![42]))));
    validator.update_l1_block_info(&Header { number: 6, timestamp: 62 }, Some(&0), &extract);
    assert_eq!((base_fee(&validator), validator.block_timestamp()), (42, 62));
    validator.update_l1_block_info(&Header { number: 7, timestamp: 64 }, None, &extract);
    assert_eq!((base_fee(&validator), validator.block_timestamp()), (42, 64));
    validator.update_l1_block_info(&Header { number: 8, timestamp: 66 }, Some(&50), &extract);
    assert_eq!((base_fee(&validator), validator.block_timestamp()), (50, 66));
}

#[test]
fn charging_in_a_second_step_makes_no_difference() {
    for balance in [174, 175] {
        let whole = validator().validate_one(
            TransactionOrigin::Local,
            transfer(3),
            &admit_with(balance),
            &fee_of(25),
        );
        let between = started_at(Ok(None)).require_l1_data_gas_fee(false).validate_one(
            TransactionOrigin::Local,
            transfer(3),
            &admit_with(balance),
            &fee_of(25),
        );
        let outcome = validator().finish_validation(between, &fee_of(25));
        assert_eq!(format!("{outcome:?}"), format!("{whole:?}"));
    }
}

#[test]
fn new_head_reaches_the_ethereum_validator() {
    let mut validator = started_at(Ok(None));
    let seen = RefCell::new(Vec::new());
    validator.on_new_head_block(
        &block(9, 68, vec![51, 52]),
        |validator: &Validator, block: &Block<u64>| {
            seen.borrow_mut().push((block.header.number, validator.block_timestamp()))
        },
        &extract,
    );
    // once, and before the update
    assert_eq!(seen.into_inner(), vec![(9, 0)]);
    assert_eq!((base_fee(&validator), validator.block_timestamp()), (51, 68));
}

#[test]
fn sidecar_is_dropped_with_the_refusal_and_kept_with_the_admission() {
    let sidecar = || alloy_eips::eip4844::BlobTransactionSidecar::new(vec![], vec![], vec![]);
    let with_sidecar =
        || ValidTransaction::ValidWithSidecar { transaction: transfer(1), sidecar: sidecar() };
    let refused: Outcome<OpPooledTransaction> =
        charge_l1_data_fee(wei(150), 0, with_sidecar(), false, Ok(wei(1)));
    assert!(matches!(refused, TransactionValidationOutcome::Invalid(..)));
    let admitted: Outcome<OpPooledTransaction> =
        charge_l1_data_fee(wei(150), 0, with_sidecar(), false, Ok(wei(0)));
    assert!(matches!(
        admitted,
        TransactionValidationOutcome::Valid {
            transaction: ValidTransaction::ValidWithSidecar { .. },
            ..
        }
    ));
}

#[test]
fn deposit_type_byte_is_no_ethereum_type() {
    assert_eq!(DEPOSIT_TX_TYPE_ID, op_alloy_consensus::OpTxType::Deposit as u8);
}
