//! The errors of block execution.

use alloy_primitives::{BlockNumber, B256};
use vstd::prelude::*;
use vstd::std_specs::convert::FromSpecImpl;

verus! {

/// A failure to read the backing database.
#[derive(Clone, Debug, PartialEq, Eq)]
pub enum ProviderError {
    /// The database reported an error of its own.
    Database(String),
    /// No state is kept for this block.
    StateForNumberNotFound(BlockNumber),
}

/// An inconsistency found in a block while executing it. The block is
/// rejected; trying again would find the same.
#[derive(Clone, Debug, PartialEq, Eq)]
#[allow(inconsistent_fields)]
pub enum BlockValidationError {
    /// The transaction with this hash could not be executed.
    Evm { hash: B256 },
    /// The gas used by the transactions is not what the header declares.
    BlockGasUsed { got: u64, expected: u64 },
    /// The receipts do not match the commitment in the header.
    ReceiptRootDiff { got: B256, expected: B256 },
    /// A header field that the changes before execution need is missing.
    MissingParentBeaconBlockRoot,
    /// A protocol request found after execution could not be read.
    DepositRequestDecode(String),
}

/// Why a block could not be executed.
#[derive(Clone, Debug, PartialEq, Eq)]
pub enum BlockExecutionError {
    /// The block is inconsistent.
    Validation(BlockValidationError),
    /// The backing database could not be read.
    Storage(ProviderError),
    /// Anything else, told in words.
    Other(String),
}

impl BlockExecutionError {
    /// An error that is told in words only.
    pub fn msg(text: &str) -> (error: Self)
        ensures
            error matches BlockExecutionError::Other(told) && told@ == text@,
    {
        BlockExecutionError::Other(text.to_owned())
    }

    /// Whether the block itself is at fault.
    pub fn is_validation(&self) -> (validation: bool)
        ensures
            validation == (self is Validation),
    {
        match self {
            BlockExecutionError::Validation(_) => true,
            _ => false,
        }
    }
}

impl From<BlockValidationError> for BlockExecutionError {
    fn from(error: BlockValidationError) -> (wrapped: Self) {
        BlockExecutionError::Validation(error)
    }
}

impl FromSpecImpl<BlockValidationError> for BlockExecutionError {
    open spec fn obeys_from_spec() -> bool {
        true
    }

    open spec fn from_spec(error: BlockValidationError) -> Self {
        BlockExecutionError::Validation(error)
    }
}

impl From<ProviderError> for BlockExecutionError {
    fn from(error: ProviderError) -> (wrapped: Self) {
        BlockExecutionError::Storage(error)
    }
}

impl FromSpecImpl<ProviderError> for BlockExecutionError {
    open spec fn obeys_from_spec() -> bool {
        true
    }

    open spec fn from_spec(error: ProviderError) -> Self {
        BlockExecutionError::Storage(error)
    }
}

} // verus!
