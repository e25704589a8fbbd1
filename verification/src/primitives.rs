//! Chain data as the engine sees it: blocks with their recovered senders,
//! receipts, and the gas accounting that connects the two.

use alloy_primitives::{Address, BlockNumber, Log, B256};
use vstd::prelude::*;

verus! {

/// `alloy_primitives::Address`, a 20-byte account address. Carried, never
/// looked into.
#[verifier::external_type_specification]
#[verifier::external_body]
pub struct ExAddress(alloy_primitives::Address);

/// `alloy_primitives::FixedBytes`, a byte array of fixed length; with 32
/// bytes a hash. Carried, never looked into.
#[verifier::external_type_specification]
#[verifier::external_body]
pub struct ExFixedBytes<const N: usize>(alloy_primitives::FixedBytes<N>);

/// `Clone::clone` of `alloy_primitives::FixedBytes`. The type is `Copy` and
/// its `Clone` is derived, so the clone holds the same bytes.
pub assume_specification<const N: usize>[ <alloy_primitives::FixedBytes<N> as Clone>::clone ](
    bytes: &alloy_primitives::FixedBytes<N>,
) -> (copy: alloy_primitives::FixedBytes<N>)
    ensures
        copy == *bytes,
;

/// `alloy_primitives::Uint` (from `ruint`), an unsigned integer of fixed
/// width; with 256 bits a total difficulty. Carried, never looked into.
#[verifier::external_type_specification]
#[verifier::external_body]
pub struct ExUint<const BITS: usize, const LIMBS: usize>(alloy_primitives::Uint<BITS, LIMBS>);

/// `alloy_primitives::Log`, an event emitted by a transaction. Carried,
/// never looked into.
#[verifier::external_type_specification]
#[verifier::external_body]
#[verifier::reject_recursive_types(T)]
pub struct ExLog<T>(alloy_primitives::Log<T>);

/// `alloy_primitives::LogData`, topics and data of a [`Log`].
#[verifier::external_type_specification]
#[verifier::external_body]
pub struct ExLogData(alloy_primitives::LogData);

/// `alloy_consensus::Request`, a protocol request that consensus rules
/// require to be processed downstream, such as a validator deposit.
/// Carried, never looked into.
#[verifier::external_type_specification]
#[verifier::external_body]
pub struct ExRequest(alloy_consensus::Request);

/// The envelope kind of a transaction.
#[derive(Clone, Copy, Debug, PartialEq, Eq, Default)]
pub enum TxType {
    /// Legacy transaction.
    #[default]
    Legacy,
    /// Transaction with an access list.
    Eip2930,
    /// Transaction with a priority fee.
    Eip1559,
    /// Transaction carrying blobs.
    Eip4844,
    /// Transaction setting account code.
    Eip7702,
}

/// What executing one transaction left behind.
#[derive(Clone, Debug, PartialEq, Eq)]
pub struct Receipt {
    /// Kind of the transaction.
    pub tx_type: TxType,
    /// Whether the transaction ran to completion.
    pub success: bool,
    /// Gas used in the block up to and including this transaction.
    pub cumulative_gas_used: u64,
    /// Events the transaction emitted.
    pub logs: Vec<Log>,
}

impl Default for Receipt {
    /// The receipt of a failed legacy transaction that used no gas.
    fn default() -> (receipt: Self)
        ensures
            receipt.tx_type == TxType::Legacy,
            !receipt.success,
            receipt.cumulative_gas_used == 0,
            receipt.logs@ == Seq::<Log>::empty(),
    {
        Receipt {
            tx_type: TxType::Legacy,
            success: false,
            cumulative_gas_used: 0,
            logs: Vec::new(),
        }
    }
}

/// A [`Receipt`] with its events as a plain sequence.
pub struct ReceiptView {
    /// Kind of the transaction.
    pub tx_type: TxType,
    /// Whether the transaction ran to completion.
    pub success: bool,
    /// Gas used in the block up to and including this transaction.
    pub cumulative_gas_used: u64,
    /// Events the transaction emitted.
    pub logs: Seq<Log>,
}

impl View for Receipt {
    type V = ReceiptView;

    open spec fn view(&self) -> ReceiptView {
        ReceiptView {
            tx_type: self.tx_type,
            success: self.success,
            cumulative_gas_used: self.cumulative_gas_used,
            logs: self.logs@,
        }
    }
}

/// Each value of `values` by its view.
pub open spec fn views_of<T: View>(values: Seq<T>) -> Seq<T::V> {
    Seq::new(values.len(), |i: int| values[i]@)
}

/// Gas that the block had used before the transaction at `index` ran.
pub open spec fn gas_used_before(receipts: Seq<ReceiptView>, index: int) -> int {
    if 0 < index <= receipts.len() {
        receipts[index - 1].cumulative_gas_used as int
    } else {
        0
    }
}

/// Gas that the transaction at `index` consumed by itself.
pub open spec fn gas_consumed(receipts: Seq<ReceiptView>, index: int) -> int {
    receipts[index].cumulative_gas_used - gas_used_before(receipts, index)
}

/// Sum of the gas consumed by each transaction.
pub open spec fn total_gas_consumed(receipts: Seq<ReceiptView>) -> int
    decreases receipts.len(),
{
    if receipts.len() == 0 {
        0
    } else {
        total_gas_consumed(receipts.drop_last()) + gas_consumed(receipts, receipts.len() - 1)
    }
}

/// The cumulative figures never fall from one receipt to the next, so no
/// transaction consumes a negative amount.
pub open spec fn cumulative_gas_ordered(receipts: Seq<ReceiptView>) -> bool {
    forall|i: int, j: int|
        0 <= i <= j < receipts.len() ==> receipts[i].cumulative_gas_used
            <= receipts[j].cumulative_gas_used
}

/// The per-transaction amounts add up to the cumulative figure of the last
/// receipt, and to nothing where there is no receipt.
pub proof fn lemma_total_gas_is_last_cumulative(receipts: Seq<ReceiptView>)
    ensures
        total_gas_consumed(receipts) == gas_used_before(receipts, receipts.len() as int),
    decreases receipts.len(),
{
    if receipts.len() > 0 {
        let front = receipts.drop_last();
        lemma_total_gas_is_last_cumulative(front);
        let last = receipts.len() - 1;
        assert(gas_used_before(front, front.len() as int) == gas_used_before(receipts, last));
    }
}

/// With ordered cumulative figures every transaction consumed a
/// non-negative amount of gas.
pub proof fn lemma_gas_consumed_nonnegative(receipts: Seq<ReceiptView>, index: int)
    requires
        cumulative_gas_ordered(receipts),
        0 <= index < receipts.len(),
    ensures
        gas_consumed(receipts, index) >= 0,
{
    if index > 0 {
        assert(receipts[index - 1].cumulative_gas_used <= receipts[index].cumulative_gas_used);
    }
}

/// The header fields that execution is held against.
#[derive(Clone, Debug, PartialEq, Eq, Default)]
pub struct Header {
    /// Height of the block.
    pub number: BlockNumber,
    /// Gas that the block declares to have used.
    pub gas_used: u64,
    /// Commitment to the receipts of the block.
    pub receipts_root: B256,
}

/// A transaction with its signature checked, known by its hash.
#[derive(Clone, Debug, PartialEq, Eq, Default)]
pub struct TransactionSigned {
    /// Hash of the transaction.
    pub hash: B256,
    /// Most gas the transaction may use.
    pub gas_limit: u64,
}

/// A block: its header and its transactions in block order.
#[derive(Clone, Debug, PartialEq, Eq, Default)]
pub struct Block {
    /// Header of the block.
    pub header: Header,
    /// Transactions of the block.
    pub body: Vec<TransactionSigned>,
}

/// A block together with the recovered signer of each transaction.
#[derive(Clone, Debug, PartialEq, Eq, Default)]
pub struct BlockWithSenders {
    /// The block.
    pub block: Block,
    /// Signer of each transaction, in block order.
    pub senders: Vec<Address>,
}

impl BlockWithSenders {
    /// Every transaction has its sender.
    pub open spec fn well_formed(&self) -> bool {
        self.senders@.len() == self.block.body@.len()
    }

    /// Number of transactions in the block.
    pub open spec fn transaction_count(&self) -> nat {
        self.block.body@.len()
    }

    /// Joins a block and its senders, unless their numbers differ.
    pub fn new(block: Block, senders: Vec<Address>) -> (joined: Option<Self>)
        ensures
            joined is Some <==> block.body@.len() == senders@.len(),
            joined matches Some(b) ==> b.block == block && b.senders == senders && b.well_formed(),
    {
        if block.body.len() == senders.len() {
            Some(BlockWithSenders { block, senders })
        } else {
            None
        }
    }
}

/// Parameters of the chain that a node follows.
#[derive(Clone, Debug, PartialEq, Eq, Default)]
pub struct ChainSpec {
    /// Identifier of the chain.
    pub chain_id: u64,
}

/// How much history of one kind may be discarded.
#[derive(Clone, Copy, Debug, PartialEq, Eq)]
pub enum PruneMode {
    /// Discard everything.
    Full,
    /// Keep this many of the most recent blocks.
    Distance(u64),
    /// Discard what lies before this block.
    Before(BlockNumber),
}

/// Which kinds of historical data may be discarded while a batch runs. A
/// kind without a mode is kept in full.
#[derive(Clone, Debug, PartialEq, Eq, Default)]
pub struct PruneModes {
    /// Recovered senders.
    pub sender_recovery: Option<PruneMode>,
    /// Index from transaction hash to transaction.
    pub transaction_lookup: Option<PruneMode>,
    /// Receipts.
    pub receipts: Option<PruneMode>,
    /// History of account changes.
    pub account_history: Option<PruneMode>,
    /// History of storage changes.
    pub storage_history: Option<PruneMode>,
}

impl PruneModes {
    /// Keeps everything.
    pub fn none() -> (modes: Self)
        ensures
            modes.sender_recovery is None,
            modes.transaction_lookup is None,
            modes.receipts is None,
            modes.account_history is None,
            modes.storage_history is None,
    {
        PruneModes {
            sender_recovery: None,
            transaction_lookup: None,
            receipts: None,
            account_history: None,
            storage_history: None,
        }
    }
}

} // verus!
