//! What goes into the execution of a block and what comes out of it.

use crate::primitives::{views_of, Receipt, ReceiptView};
use alloy_consensus::Request;
use alloy_primitives::{BlockNumber, U256};
use revm::db::BundleState;
use vstd::prelude::*;

verus! {

/// What an executor is given: the block, and the total difficulty of the
/// chain up to it, which tells the rules before the merge from those after.
/// The block stays with the caller.
pub struct BlockExecutionInput<'a, Block> {
    /// The block to execute.
    pub block: &'a Block,
    /// Total difficulty of the chain up to and including the block.
    pub total_difficulty: U256,
}

impl<'a, Block> BlockExecutionInput<'a, Block> {
    /// An input for `block` at `total_difficulty`.
    pub fn new(block: &'a Block, total_difficulty: U256) -> (input: Self)
        ensures
            input.block == block,
            input.total_difficulty == total_difficulty,
    {
        BlockExecutionInput { block, total_difficulty }
    }
}

/// What executing one block produced. The state root is not part of it:
/// whoever receives the output checks the root against `state`.
#[derive(Debug, PartialEq, Eq)]
pub struct BlockExecutionOutput<T> {
    /// The state changes of the block.
    pub state: BundleState,
    /// One receipt for each transaction, in block order.
    pub receipts: Vec<T>,
    /// The protocol requests of the block, in order.
    pub requests: Vec<Request>,
    /// Gas used by the block.
    pub gas_used: u64,
}

/// A [`BlockExecutionOutput`] as plain sequences, each receipt by its view.
pub struct BlockOutput<T> {
    /// The state changes of the block.
    pub state: BundleState,
    /// One receipt for each transaction, in block order.
    pub receipts: Seq<T>,
    /// The protocol requests of the block, in order.
    pub requests: Seq<Request>,
    /// Gas used by the block.
    pub gas_used: u64,
}

impl<T: View> View for BlockExecutionOutput<T> {
    type V = BlockOutput<T::V>;

    open spec fn view(&self) -> BlockOutput<T::V> {
        BlockOutput {
            state: self.state,
            receipts: views_of(self.receipts@),
            requests: self.requests@,
            gas_used: self.gas_used,
        }
    }
}

/// What a batch of blocks produced: the merged state changes, and receipts
/// and requests block by block, from `first_block` on.
#[derive(Debug, PartialEq, Eq)]
pub struct ExecutionOutcome {
    /// The state changes of all blocks, merged.
    pub bundle: BundleState,
    /// Receipts of each block; the entry at `i` belongs to block
    /// `first_block + i`.
    pub receipts: Vec<Vec<Receipt>>,
    /// Number of the first block of the batch.
    pub first_block: BlockNumber,
    /// Requests of each block; the entry at `i` belongs to block
    /// `first_block + i`.
    pub requests: Vec<Vec<Request>>,
}

/// An [`ExecutionOutcome`] as plain sequences, each receipt by its view.
pub struct BatchOutcome {
    /// The state changes of all blocks, merged.
    pub bundle: BundleState,
    /// Receipts of each block.
    pub receipts: Seq<Seq<ReceiptView>>,
    /// Number of the first block of the batch.
    pub first_block: BlockNumber,
    /// Requests of each block.
    pub requests: Seq<Seq<Request>>,
}

impl BatchOutcome {
    /// The outcome with one more block: its receipts and its requests come
    /// after those of the blocks before, and its state changes are merged
    /// into theirs as `merge` says.
    pub open spec fn with_block(
        self,
        output: BlockOutput<ReceiptView>,
        merge: spec_fn(BundleState, BundleState) -> BundleState,
    ) -> BatchOutcome {
        BatchOutcome {
            bundle: merge(self.bundle, output.state),
            receipts: self.receipts.push(output.receipts),
            first_block: self.first_block,
            requests: self.requests.push(output.requests),
        }
    }

    /// The outcome with the blocks of `outputs`, one after another.
    pub open spec fn with_blocks(
        self,
        outputs: Seq<BlockOutput<ReceiptView>>,
        merge: spec_fn(BundleState, BundleState) -> BundleState,
    ) -> BatchOutcome
        decreases outputs.len(),
    {
        if outputs.len() == 0 {
            self
        } else {
            self.with_blocks(outputs.drop_last(), merge).with_block(outputs.last(), merge)
        }
    }
}

impl View for ExecutionOutcome {
    type V = BatchOutcome;

    open spec fn view(&self) -> BatchOutcome {
        BatchOutcome {
            bundle: self.bundle,
            receipts: Seq::new(self.receipts@.len(), |i: int| views_of(self.receipts@[i]@)),
            first_block: self.first_block,
            requests: Seq::new(self.requests@.len(), |i: int| self.requests@[i]@),
        }
    }
}

impl ExecutionOutcome {
    /// The place of `block_number` in the outcome, if the block is within
    /// it.
    pub open spec fn index_of(&self, block_number: BlockNumber) -> Option<int> {
        if self.first_block <= block_number && block_number - self.first_block
            < self.receipts@.len() {
            Some(block_number - self.first_block)
        } else {
            None
        }
    }

    /// An outcome of the given parts.
    pub fn new(
        bundle: BundleState,
        receipts: Vec<Vec<Receipt>>,
        first_block: BlockNumber,
        requests: Vec<Vec<Request>>,
    ) -> (outcome: Self)
        ensures
            outcome.bundle == bundle,
            outcome.receipts == receipts,
            outcome.first_block == first_block,
            outcome.requests == requests,
    {
        ExecutionOutcome { bundle, receipts, first_block, requests }
    }

    /// The merged state changes.
    pub fn state(&self) -> (bundle: &BundleState)
        ensures
            *bundle == self.bundle,
    {
        &self.bundle
    }

    /// The receipts, block by block.
    pub fn receipts(&self) -> (receipts: &Vec<Vec<Receipt>>)
        ensures
            *receipts == self.receipts,
    {
        &self.receipts
    }

    /// The requests, block by block.
    pub fn requests(&self) -> (requests: &Vec<Vec<Request>>)
        ensures
            *requests == self.requests,
    {
        &self.requests
    }

    /// Number of the first block.
    pub fn first_block(&self) -> (number: BlockNumber)
        ensures
            number == self.first_block,
    {
        self.first_block
    }

    /// Number of blocks in the outcome.
    pub fn len(&self) -> (blocks: usize)
        ensures
            blocks == self.receipts@.len(),
    {
        self.receipts.len()
    }

    /// Whether the outcome holds no block.
    pub fn is_empty(&self) -> (empty: bool)
        ensures
            empty == (self.receipts@.len() == 0),
    {
        self.receipts.len() == 0
    }

    /// The place of `block_number` among the blocks of the outcome; `None`
    /// where the block lies before the first or after the last.
    pub fn block_number_to_index(&self, block_number: BlockNumber) -> (index: Option<usize>)
        ensures
            match self.index_of(block_number) {
                Some(place) => index matches Some(found) && found == place,
                None => index is None,
            },
    {
        if self.first_block > block_number {
            return None;
        }
        let distance: u64 = block_number - self.first_block;
        let blocks: usize = self.receipts.len();
        if distance >= blocks as u64 {
            return None;
        }
        Some(distance as usize)
    }

    /// The receipts of the block `block_number`; `None` where the block is
    /// not in the outcome.
    pub fn receipts_by_block(&self, block_number: BlockNumber) -> (receipts: Option<&Vec<Receipt>>)
        ensures
            match self.index_of(block_number) {
                Some(place) => receipts == Some(&self.receipts@[place]),
                None => receipts is None,
            },
    {
        match self.block_number_to_index(block_number) {
            Some(index) => Some(&self.receipts[index]),
            None => None,
        }
    }
}

} // verus!
