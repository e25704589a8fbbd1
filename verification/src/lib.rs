//! Block execution engine of a blockchain node.
//!
//! The engine applies the transactions of a block to chain state through a
//! chain-specific [`execute::BlockExecutionStrategy`], which an
//! [`execute::BlockExecutionStrategyFactory`] makes afresh for every block.
//! A strategy moves through its stages in a fixed order; the executors in
//! [`execute`] drive it and pack what the stages produced: one block at a
//! time, or a batch of blocks whose outputs are gathered into one outcome.
//!
//! What the chain-specific side does is named by specification functions of
//! the traits, over the view of each implementor, so that the contracts of
//! the executors say which result they return. What follows from those
//! contracts for every strategy and every executor is proved in [`laws`].

pub mod errors;
pub mod execute;
pub mod execution_types;
pub mod laws;
pub mod node;
pub mod primitives;
pub mod state;
