use alloy_consensus::Request;
use alloy_eips::eip6110::DepositRequest;
use alloy_primitives::{Address, B256, U256};
use block_execution::errors::{BlockExecutionError, BlockValidationError, ProviderError};
use block_execution::execution_types::{BlockExecutionInput, ExecutionOutcome};
use block_execution::node::{noop_builder, BuilderProvider, FullNodeTypes, FullNodeTypesAdapter};
use block_execution::primitives::{
    Block, BlockWithSenders, ChainSpec, Header, PruneMode, PruneModes, Receipt,
    TransactionSigned, TxType,
};
use revm::db::BundleState;
use std::marker::PhantomData;

fn receipt(cumulative_gas_used: u64) -> Receipt {
    Receipt { tx_type: TxType::Eip1559, success: true, cumulative_gas_used, logs: Vec::new() }
}

fn outcome_from(first_block: u64, blocks: usize) -> ExecutionOutcome {
    let mut receipts = Vec::new();
    let mut requests = Vec::new();
    for block in 0..blocks {
        receipts.push(vec![receipt(100 * (block as u64 + 1))]);
        requests.push(vec![Request::DepositRequest(DepositRequest::default())]);
    }
    ExecutionOutcome::new(BundleState::default(), receipts, first_block, requests)
}

#[test]
fn default_receipt_is_a_failed_legacy_transaction_without_gas() {
    let receipt = Receipt::default();
    assert_eq!(receipt.tx_type, TxType::Legacy);
    assert!(!receipt.success);
    assert_eq!(receipt.cumulative_gas_used, 0);
    assert!(receipt.logs.is_empty());
}

#[test]
fn block_and_senders_join_when_their_numbers_agree() {
    let transaction = TransactionSigned { hash: B256::ZERO, gas_limit: 21_000 };
    let block = Block { header: Header::default(), body: vec![transaction.clone()] };
    let joined = BlockWithSenders::new(block.clone(), vec![Address::ZERO]).unwrap();
    assert_eq!(joined.block, block);
    assert_eq!(joined.senders, vec![Address::ZERO]);
}

#[test]
fn block_and_senders_do_not_join_when_a_sender_is_missing() {
    let transaction = TransactionSigned { hash: B256::ZERO, gas_limit: 21_000 };
    let block = Block { header: Header::default(), body: vec![transaction.clone(), transaction] };
    assert_eq!(BlockWithSenders::new(block.clone(), vec![Address::ZERO]), None);
    assert_eq!(BlockWithSenders::new(block, vec![Address::ZERO; 3]), None);
}

#[test]
fn empty_block_joins_with_no_senders() {
    let joined = BlockWithSenders::new(Block::default(), Vec::new());
    assert_eq!(joined, Some(BlockWithSenders::default()));
}

#[test]
fn input_holds_the_block_and_the_difficulty() {
    let block = BlockWithSenders::default();
    let input = BlockExecutionInput::new(&block, U256::from(17u64));
    assert!(std::ptr::eq(input.block, &block));
    assert_eq!(input.total_difficulty, U256::from(17u64));
}

#[test]
fn error_in_words_keeps_the_words() {
    assert_eq!(
        BlockExecutionError::msg("unsupported fork"),
        BlockExecutionError::Other("unsupported fork".to_string())
    );
    assert_eq!(BlockExecutionError::msg(""), BlockExecutionError::Other(String::new()));
}

#[test]
fn validation_errors_are_wrapped_as_validation() {
    let error = BlockValidationError::BlockGasUsed { got: 5, expected: 7 };
    let wrapped = BlockExecutionError::from(error.clone());
    assert_eq!(wrapped, BlockExecutionError::Validation(error));
    assert!(wrapped.is_validation());
}

#[test]
fn storage_errors_are_wrapped_as_storage() {
    let error = ProviderError::StateForNumberNotFound(9);
    let wrapped = BlockExecutionError::from(error.clone());
    assert_eq!(wrapped, BlockExecutionError::Storage(error));
    assert!(!wrapped.is_validation());
    let database = BlockExecutionError::from(ProviderError::Database("closed".to_string()));
    assert_eq!(
        database,
        BlockExecutionError::Storage(ProviderError::Database("closed".to_string()))
    );
    assert!(!BlockExecutionError::msg("x").is_validation());
}

#[test]
fn each_validation_error_is_a_validation_error() {
    let errors = vec![
        BlockValidationError::Evm { hash: B256::ZERO },
        BlockValidationError::BlockGasUsed { got: 1, expected: 2 },
        BlockValidationError::ReceiptRootDiff { got: B256::ZERO, expected: B256::ZERO },
        BlockValidationError::MissingParentBeaconBlockRoot,
        BlockValidationError::DepositRequestDecode("short".to_string()),
    ];
    for error in errors {
        assert!(BlockExecutionError::from(error).is_validation());
    }
}

#[test]
fn outcome_keeps_its_parts() {
    let outcome = outcome_from(5, 3);
    assert_eq!(outcome.first_block(), 5);
    assert_eq!(outcome.len(), 3);
    assert!(!outcome.is_empty());
    assert_eq!(outcome.state(), &BundleState::default());
    assert_eq!(outcome.receipts().len(), 3);
    assert_eq!(outcome.requests().len(), 3);
    assert_eq!(outcome.receipts()[2], vec![receipt(300)]);
}

#[test]
fn outcome_without_blocks_is_empty() {
    let outcome = outcome_from(5, 0);
    assert!(outcome.is_empty());
    assert_eq!(outcome.len(), 0);
    assert_eq!(outcome.block_number_to_index(5), None);
    assert_eq!(outcome.receipts_by_block(5), None);
}

#[test]
fn blocks_are_found_by_their_number() {
    let outcome = outcome_from(5, 3);
    assert_eq!(outcome.block_number_to_index(4), None);
    assert_eq!(outcome.block_number_to_index(5), Some(0));
    assert_eq!(outcome.block_number_to_index(6), Some(1));
    assert_eq!(outcome.block_number_to_index(7), Some(2));
    assert_eq!(outcome.block_number_to_index(8), None);
    assert_eq!(outcome.block_number_to_index(0), None);
    assert_eq!(outcome.block_number_to_index(u64::MAX), None);
}

#[test]
fn receipts_are_found_by_the_number_of_their_block() {
    let outcome = outcome_from(5, 3);
    assert_eq!(outcome.receipts_by_block(4), None);
    assert_eq!(outcome.receipts_by_block(5), Some(&vec![receipt(100)]));
    assert_eq!(outcome.receipts_by_block(7), Some(&vec![receipt(300)]));
    assert_eq!(outcome.receipts_by_block(8), None);
}

#[test]
fn outcome_at_the_last_block_number_is_found() {
    let outcome = outcome_from(u64::MAX, 1);
    assert_eq!(outcome.block_number_to_index(u64::MAX), Some(0));
    assert_eq!(outcome.block_number_to_index(u64::MAX - 1), None);
}

#[test]
fn no_prune_modes_keep_everything() {
    let modes = PruneModes::none();
    assert_eq!(modes, PruneModes::default());
    assert_eq!(modes.receipts, None);
    assert_eq!(modes.sender_recovery, None);
    assert_eq!(modes.transaction_lookup, None);
    assert_eq!(modes.account_history, None);
    assert_eq!(modes.storage_history, None);
    let some = PruneModes { receipts: Some(PruneMode::Before(10)), ..PruneModes::none() };
    assert_ne!(some, modes);
}

#[test]
fn chain_parameters_default_to_chain_zero() {
    assert_eq!(ChainSpec::default(), ChainSpec { chain_id: 0 });
}

#[test]
fn nothing_is_built_from_nothing() {
    assert_eq!(noop_builder(()), ());
    assert_eq!(<() as BuilderProvider<u8>>::builder(()), ());
}

struct Built(u32);

impl BuilderProvider<u8> for Built {
    type Ctx<'a> = &'a u32;

    fn builder(ctx: Self::Ctx<'_>) -> Self {
        Built(*ctx + 1)
    }
}

#[test]
fn a_value_is_built_from_its_context() {
    let context = 41;
    assert_eq!(<Built as BuilderProvider<u8>>::builder(&context).0, 42);
}

fn provider_of<N: FullNodeTypes>(_node: &N) -> PhantomData<N::Provider> {
    PhantomData
}

#[test]
fn adapter_joins_types_and_provider() {
    let adapter: FullNodeTypesAdapter<u8, String> =
        FullNodeTypesAdapter { types: PhantomData, provider: PhantomData };
    let _provider: PhantomData<String> = provider_of(&adapter);
    assert_eq!(format!("{:?}", adapter).is_empty(), false);
}
