//! Strategies, the executors that drive them, and what both promise.

use crate::errors::{BlockExecutionError, ProviderError};
use crate::execution_types::{
    BatchOutcome, BlockExecutionInput, BlockExecutionOutput, BlockOutput, ExecutionOutcome,
};
use crate::primitives::{
    cumulative_gas_ordered, total_gas_consumed, views_of, BlockWithSenders, ChainSpec, PruneModes,
    Receipt, ReceiptView,
};
use crate::state::{fresh_overlay, new_overlay, observed_by, OnStateHook};
use alloy_consensus::Request;
use alloy_primitives::{BlockNumber, U256};
use revm::db::{BundleState, State};
use revm_primitives::db::Database;
use std::sync::Arc;
use vstd::prelude::*;
use vstd::std_specs::convert::FromSpec;

verus! {

/// Where a strategy stands in its life. A strategy only ever moves to the
/// stage that follows its own: none is skipped, none is entered twice.
#[derive(Clone, Copy, Debug, PartialEq, Eq, Structural)]
pub enum Stage {
    /// Created by its factory; nothing has been applied.
    Created,
    /// The changes that precede the transactions have been applied.
    PreExecutionApplied,
    /// The transactions have been executed.
    TransactionsExecuted,
    /// The changes that follow the transactions have been applied.
    PostExecutionApplied,
    /// The state diff has been taken out; the strategy is gone.
    Finished,
}

/// A stage keeps the observer: where one was installed before, one is
/// installed after, and it has been shown no fewer changes.
pub open spec fn keeps_observer(before: Option<nat>, after: Option<nat>) -> bool {
    match before {
        Some(shown) => after matches Some(shown_after) && shown_after >= shown,
        None => after is None,
    }
}

/// Number of changes that the transactions make together, given the number
/// for each.
pub open spec fn total_changes(changes: Seq<nat>) -> nat
    decreases changes.len(),
{
    if changes.len() == 0 {
        0
    } else {
        total_changes(changes.drop_last()) + changes.last()
    }
}

/// Gas and receipts agree with `block`: there is one receipt for each
/// transaction, their cumulative gas never falls, and the gas used is the
/// sum of what each transaction consumed.
pub open spec fn gas_and_receipts_agree(
    receipts: Seq<ReceiptView>,
    gas_used: u64,
    block: &BlockWithSenders,
) -> bool {
    &&& receipts.len() == block.transaction_count()
    &&& cumulative_gas_ordered(receipts)
    &&& gas_used == total_gas_consumed(receipts)
}

/// The rules of one chain family for executing one block. A factory makes a
/// strategy for a block; the strategy is then taken through its stages in
/// order and gives up the state diff of that block at the end.
///
/// What each stage does is the implementor's business. It tells it here
/// over the view of the strategy: a specification function for each stage
/// names the result of the stage and the view of the strategy that it
/// leaves. It also proves the laws that every strategy obeys.
pub trait BlockExecutionStrategy<DB>: Sized + View {
    /// The error of this strategy's stages.
    type Error;

    /// Where the strategy stands.
    spec fn stage(strategy: Self::V) -> Stage;

    /// The overlay that the strategy executes against.
    spec fn overlay(strategy: Self::V) -> State<DB>;

    /// Number of changes that the installed observer has been shown; `None`
    /// where no observer is installed.
    spec fn observed(strategy: Self::V) -> Option<nat>;

    /// The strategy with `hook` in the observer's place.
    spec fn hooked(strategy: Self::V, hook: Option<Box<dyn OnStateHook>>) -> Self::V;

    /// What applying the changes before execution leads to: the strategy
    /// with the changes applied, or the error that a malformed field
    /// causes.
    spec fn pre_execution(strategy: Self::V) -> Result<Self::V, Self::Error>;

    /// What executing the transactions of `block` leads to: the strategy
    /// after the last transaction with the receipts and the gas used, or the
    /// error of the first transaction that cannot be executed.
    spec fn transactions(strategy: Self::V, block: &BlockWithSenders) -> Result<
        (Self::V, Seq<ReceiptView>, u64),
        Self::Error,
    >;

    /// Number of changes that each transaction of `block` makes to the
    /// overlay when the strategy executes the block, in block order.
    spec fn state_changes(strategy: Self::V, block: &BlockWithSenders) -> Seq<nat>;

    /// What applying the changes after execution leads to: the strategy
    /// with the changes applied and the protocol requests of the block, or
    /// an error.
    spec fn post_execution(strategy: Self::V) -> Result<(Self::V, Seq<Request>), Self::Error>;

    /// The state diff that the strategy has gathered for its block.
    spec fn state_diff(strategy: Self::V) -> BundleState;

    /// Installing an observer changes nothing but the observer.
    proof fn law_hooked(strategy: Self::V, hook: Option<Box<dyn OnStateHook>>)
        ensures
            Self::observed(Self::hooked(strategy, hook)) == observed_by(hook),
            Self::stage(Self::hooked(strategy, hook)) == Self::stage(strategy),
            Self::overlay(Self::hooked(strategy, hook)) == Self::overlay(strategy),
    ;

    /// The first stage leads to the second, keeps the observer, and leaves
    /// the bundle of the overlay alone.
    proof fn law_pre_execution(strategy: Self::V)
        requires
            Self::stage(strategy) == Stage::Created,
        ensures
            Self::pre_execution(strategy) matches Ok(prepared) ==> {
                &&& Self::stage(prepared) == Stage::PreExecutionApplied
                &&& keeps_observer(Self::observed(strategy), Self::observed(prepared))
                &&& Self::overlay(prepared).bundle_state == Self::overlay(strategy).bundle_state
            },
    ;

    /// The second stage leads to the third. It yields one receipt for each
    /// transaction, with cumulative gas that never falls, and the gas used
    /// is what the transactions consumed together. An observer is shown
    /// every change of state that a transaction makes. The bundle of the
    /// overlay is left alone.
    proof fn law_transactions(strategy: Self::V, block: &BlockWithSenders)
        requires
            Self::stage(strategy) == Stage::PreExecutionApplied,
        ensures
            Self::transactions(strategy, block) matches Ok((executed, receipts, gas_used)) ==> {
                &&& Self::stage(executed) == Stage::TransactionsExecuted
                &&& gas_and_receipts_agree(receipts, gas_used, block)
                &&& Self::state_changes(strategy, block).len() == block.transaction_count()
                &&& keeps_observer(Self::observed(strategy), Self::observed(executed))
                &&& Self::observed(strategy) matches Some(shown) ==> Self::observed(executed)->0
                    >= shown + total_changes(Self::state_changes(strategy, block))
                &&& Self::overlay(executed).bundle_state == Self::overlay(strategy).bundle_state
            },
    ;

    /// The third stage leads to the fourth, keeps the observer, and leaves
    /// the bundle of the overlay alone.
    proof fn law_post_execution(strategy: Self::V)
        requires
            Self::stage(strategy) == Stage::TransactionsExecuted,
        ensures
            Self::post_execution(strategy) matches Ok((completed, requests)) ==> {
                &&& Self::stage(completed) == Stage::PostExecutionApplied
                &&& keeps_observer(Self::observed(strategy), Self::observed(completed))
                &&& Self::overlay(completed).bundle_state == Self::overlay(strategy).bundle_state
            },
    ;

    /// Applies the changes that must precede the transactions of the block.
    /// On an error the bundle of the overlay is as it was.
    fn apply_pre_execution_changes(&mut self) -> (result: Result<(), Self::Error>)
        requires
            Self::stage(old(self)@) == Stage::Created,
        ensures
            match Self::pre_execution(old(self)@) {
                Ok(prepared) => result is Ok && final(self)@ == prepared,
                Err(error) => result == Err::<(), Self::Error>(error) && Self::overlay(
                    final(self)@,
                ).bundle_state == Self::overlay(old(self)@).bundle_state,
            },
    ;

    /// Executes all transactions of `block`, in block order, and returns
    /// their receipts and the gas that they used. Stops at the first
    /// transaction that cannot be executed; the bundle of the overlay is
    /// then as it was.
    fn execute_transactions(&mut self, block: &BlockWithSenders) -> (result: Result<
        (Vec<Receipt>, u64),
        Self::Error,
    >)
        requires
            Self::stage(old(self)@) == Stage::PreExecutionApplied,
        ensures
            match Self::transactions(old(self)@, block) {
                Ok((executed, receipts, gas_used)) => {
                    &&& result matches Ok((returned, returned_gas))
                    &&& views_of(returned@) == receipts
                    &&& returned_gas == gas_used
                    &&& final(self)@ == executed
                },
                Err(error) => result == Err::<(Vec<Receipt>, u64), Self::Error>(error)
                    && Self::overlay(final(self)@).bundle_state == Self::overlay(
                    old(self)@,
                ).bundle_state,
            },
    ;

    /// Applies the changes that must follow the transactions of the block
    /// and returns the protocol requests of the block, in order. On an error
    /// the bundle of the overlay is as it was.
    fn apply_post_execution_changes(&mut self) -> (result: Result<Vec<Request>, Self::Error>)
        requires
            Self::stage(old(self)@) == Stage::TransactionsExecuted,
        ensures
            match Self::post_execution(old(self)@) {
                Ok((completed, requests)) => {
                    &&& result matches Ok(returned)
                    &&& returned@ == requests
                    &&& final(self)@ == completed
                },
                Err(error) => result == Err::<Vec<Request>, Self::Error>(error) && Self::overlay(
                    final(self)@,
                ).bundle_state == Self::overlay(old(self)@).bundle_state,
            },
    ;

    /// The overlay as it stands, to look at.
    fn state_ref(&self) -> (overlay: &State<DB>)
        ensures
            *overlay == Self::overlay(self@),
    ;

    /// Installs `hook` as the observer of state changes, or removes the
    /// observer where `hook` is `None`.
    fn with_state_hook(self, hook: Option<Box<dyn OnStateHook>>) -> (strategy: Self)
        ensures
            strategy@ == Self::hooked(self@, hook),
    ;

    /// Ends the strategy and returns the state diff of its block.
    fn finish(self) -> (diff: BundleState)
        requires
            Self::stage(self@) == Stage::PostExecutionApplied,
        ensures
            diff == Self::state_diff(self@),
    ;
}

/// Makes a strategy for each block. This is where a chain family comes in:
/// which rules apply to a block is decided here, from the block and the total
/// difficulty, when the strategy is made.
pub trait BlockExecutionStrategyFactory {
    /// The database that the strategies read.
    type DB;

    /// The strategies that this factory makes.
    type Strategy: BlockExecutionStrategy<Self::DB>;

    /// The error of the factory, which takes in those of its strategies and
    /// those of the database.
    type Error: From<ProviderError> + From<
        <Self::Strategy as BlockExecutionStrategy<Self::DB>>::Error,
    >;

    /// What making a strategy for `block` leads to: the strategy, or the
    /// reason why none can be made for this block.
    spec fn created(&self, block: &BlockWithSenders, total_difficulty: U256) -> Result<
        <Self::Strategy as View>::V,
        Self::Error,
    >;

    /// A strategy begins at the first stage, without an observer.
    proof fn law_created(&self, block: &BlockWithSenders, total_difficulty: U256)
        ensures
            self.created(block, total_difficulty) matches Ok(strategy) ==> {
                &&& <Self::Strategy as BlockExecutionStrategy<Self::DB>>::stage(strategy)
                    == Stage::Created
                &&& <Self::Strategy as BlockExecutionStrategy<Self::DB>>::observed(strategy)
                    is None
            },
    ;

    /// The error of a strategy is taken in as `from_spec` says.
    proof fn law_error_taken_in()
        ensures
            <Self::Error as FromSpec<
                <Self::Strategy as BlockExecutionStrategy<Self::DB>>::Error,
            >>::obeys_from_spec(),
    ;

    /// Makes the strategy for `block`. Nothing is changed by this; changes
    /// happen in the stages of the strategy.
    fn create(&self, block: &BlockWithSenders, total_difficulty: U256) -> (result: Result<
        Self::Strategy,
        Self::Error,
    >)
        ensures
            match self.created(block, total_difficulty) {
                Ok(strategy) => result matches Ok(made) && made@ == strategy,
                Err(error) => result matches Err(failed) && failed == error,
            },
    ;
}

/// What the three stages of a strategy have produced for a block.
pub struct Staged<V> {
    /// The strategy as it stands before it is finished.
    pub completed: V,
    /// One receipt for each transaction.
    pub receipts: Seq<ReceiptView>,
    /// The protocol requests of the block.
    pub requests: Seq<Request>,
    /// Gas used by the block.
    pub gas_used: u64,
}

/// What taking `strategy` through its stages for `block` leads to: what the
/// stages have produced, or the error of the first stage that fails.
pub open spec fn run_stages<DB, S: BlockExecutionStrategy<DB>>(
    strategy: S::V,
    block: &BlockWithSenders,
) -> Result<Staged<S::V>, S::Error> {
    match S::pre_execution(strategy) {
        Err(error) => Err(error),
        Ok(prepared) => match S::transactions(prepared, block) {
            Err(error) => Err(error),
            Ok((executed, receipts, gas_used)) => match S::post_execution(executed) {
                Err(error) => Err(error),
                Ok((completed, requests)) => Ok(
                    Staged { completed, receipts, requests, gas_used },
                ),
            },
        },
    }
}

/// The output of executing `block` with `strategy`: what the stages
/// produced, and the state diff that the strategy gives up at the end.
pub open spec fn staged_execution<DB, S: BlockExecutionStrategy<DB>>(
    strategy: S::V,
    block: &BlockWithSenders,
) -> Result<BlockOutput<ReceiptView>, S::Error> {
    match run_stages::<DB, S>(strategy, block) {
        Err(error) => Err(error),
        Ok(staged) => Ok(
            BlockOutput {
                state: S::state_diff(staged.completed),
                receipts: staged.receipts,
                requests: staged.requests,
                gas_used: staged.gas_used,
            },
        ),
    }
}

/// A result with its value taken by its view.
pub open spec fn by_view<T: View, E>(result: Result<T, E>) -> Result<T::V, E> {
    match result {
        Ok(value) => Ok(value@),
        Err(error) => Err(error),
    }
}

/// A result with its error taken in by the error type `F`.
pub open spec fn taken_in<T, E, F: From<E>>(result: Result<T, E>) -> Result<T, F> {
    match result {
        Ok(value) => Ok(value),
        Err(error) => Err(F::from_spec(error)),
    }
}

/// Executes one input, such as a block, and produces an output, such as
/// state changes and receipts. The output is not checked against what the
/// input declares; see [`BatchExecutor`] for that.
pub trait Executor<DB>: Sized + View {
    /// What the executor is given.
    type Input<'a>;

    /// What the executor produces.
    type Output: View;

    /// What the executor fails with.
    type Error;

    /// What executing `input` leads to.
    spec fn execution(executor: Self::V, input: Self::Input<'_>) -> Result<
        <Self::Output as View>::V,
        Self::Error,
    >;

    /// The overlay as a witness is shown it: the state after the last
    /// change and before the state diff is taken out. `None` where execution
    /// fails before.
    spec fn witnessed(executor: Self::V, input: Self::Input<'_>) -> Option<State<DB>>;

    /// What executing `input` leads to with `hook` as the observer.
    spec fn observed_execution(
        executor: Self::V,
        input: Self::Input<'_>,
        hook: Option<Box<dyn OnStateHook>>,
    ) -> Result<<Self::Output as View>::V, Self::Error>;

    /// A witness is shown the overlay when execution succeeds, and only
    /// then.
    proof fn law_witnessed(executor: Self::V, input: Self::Input<'_>)
        ensures
            Self::witnessed(executor, input) is Some <==> Self::execution(executor, input) is Ok,
    ;

    /// Executes `input` and returns the output.
    fn execute(self, input: Self::Input<'_>) -> (result: Result<Self::Output, Self::Error>)
        ensures
            by_view(result) == Self::execution(self@, input),
    ;

    /// Executes `input` as [`Executor::execute`] does, and calls `witness`
    /// once with the overlay as it stands after execution.
    fn execute_with_state_witness<F>(self, input: Self::Input<'_>, witness: F) -> (result: Result<
        Self::Output,
        Self::Error,
    >) where F: FnMut(&State<DB>)
        requires
            Self::witnessed(self@, input) matches Some(overlay) ==> witness.requires((&overlay,)),
        ensures
            by_view(result) == Self::execution(self@, input),
            Self::witnessed(self@, input) matches Some(overlay) ==> witness.ensures(
                (&overlay,),
                (),
            ),
    ;

    /// Executes `input` with `state_hook` as the observer of every change
    /// of state, from before the first.
    fn execute_with_state_hook<F>(self, input: Self::Input<'_>, state_hook: F) -> (result: Result<
        Self::Output,
        Self::Error,
    >) where F: OnStateHook + 'static
        ensures
            ({
                let hook: Box<dyn OnStateHook> = Box::new(state_hook);
                by_view(result) == Self::observed_execution(self@, input, Some(hook))
            }),
    ;
}

/// `Arc::clone` of std: another handle to the same value.
#[verifier::external_body]
fn share<T>(handle: &Arc<T>) -> (shared: Arc<T>)
    ensures
        shared == *handle,
{
    Arc::clone(handle)
}

/// Takes `strategy` through its three stages for `block`, in their order,
/// and stops at the first that fails. The strategy comes back unfinished:
/// its overlay can still be looked at before the state diff is taken out.
pub fn execute_stages<DB, S: BlockExecutionStrategy<DB>>(
    strategy: S,
    block: &BlockWithSenders,
) -> (result: Result<(S, Vec<Receipt>, Vec<Request>, u64), S::Error>)
    requires
        S::stage(strategy@) == Stage::Created,
    ensures
        match run_stages::<DB, S>(strategy@, block) {
            Ok(staged) => {
                &&& result matches Ok((completed, receipts, requests, gas_used))
                &&& completed@ == staged.completed
                &&& views_of(receipts@) == staged.receipts
                &&& requests@ == staged.requests
                &&& gas_used == staged.gas_used
                &&& S::stage(staged.completed) == Stage::PostExecutionApplied
                &&& gas_and_receipts_agree(staged.receipts, staged.gas_used, block)
            },
            Err(error) => result matches Err(failed) && failed == error,
        },
{
    let mut strategy = strategy;
    proof {
        S::law_pre_execution(strategy@);
    }
    match strategy.apply_pre_execution_changes() {
        Ok(()) => {},
        Err(error) => {
            return Err(error);
        },
    }
    proof {
        S::law_transactions(strategy@, block);
    }
    let (receipts, gas_used) = match strategy.execute_transactions(block) {
        Ok(executed) => executed,
        Err(error) => {
            return Err(error);
        },
    };
    proof {
        S::law_post_execution(strategy@);
    }
    let requests = match strategy.apply_post_execution_changes() {
        Ok(requests) => requests,
        Err(error) => {
            return Err(error);
        },
    };
    Ok((strategy, receipts, requests, gas_used))
}

/// Makes executors that run the strategies of one factory.
pub struct GenericExecutorProvider<S, EvmConfig> {
    strategy_factory: S,
    chain_spec: Arc<ChainSpec>,
    evm_config: EvmConfig,
}

impl<S, EvmConfig> GenericExecutorProvider<S, EvmConfig> {
    /// The factory whose strategies the executors run.
    pub closed spec fn strategy_factory(&self) -> S {
        self.strategy_factory
    }

    /// The parameters of the chain.
    pub closed spec fn chain_spec(&self) -> Arc<ChainSpec> {
        self.chain_spec
    }

    /// The configuration of the virtual machine.
    pub closed spec fn evm_config(&self) -> EvmConfig {
        self.evm_config
    }

    /// A provider with the given strategy factory, chain parameters and
    /// configuration of the virtual machine.
    pub fn new(strategy_factory: S, chain_spec: Arc<ChainSpec>, evm_config: EvmConfig) -> (provider:
        Self)
        ensures
            provider.strategy_factory() == strategy_factory,
            provider.chain_spec() == chain_spec,
            provider.evm_config() == evm_config,
    {
        Self { strategy_factory, chain_spec, evm_config }
    }
}

impl<S, EvmConfig> GenericExecutorProvider<S, EvmConfig> where
    S: BlockExecutionStrategyFactory,
    EvmConfig: Clone,
 {
    /// An executor for one block on `db`. It has an overlay of its own,
    /// which reads through to `db`, gathers its changes into a bundle and
    /// keeps accounts that become empty. The provider is not changed.
    pub fn executor<DB>(&self, db: DB) -> (executor: GenericBlockExecutor<
        '_,
        S,
        EvmConfig,
        DB,
    >) where DB: Database

        ensures
            *executor.strategy_factory() == self.strategy_factory(),
            executor.chain_spec() == self.chain_spec(),
            cloned(self.evm_config(), executor.evm_config()),
            fresh_overlay(executor.state(), db),
    {
        GenericBlockExecutor::new(
            &self.strategy_factory,
            share(&self.chain_spec),
            self.evm_config.clone(),
            new_overlay(db),
        )
    }
}

/// Executes one block with a strategy of its factory.
#[verifier::reject_recursive_types(DB)]
pub struct GenericBlockExecutor<'a, S, EvmConfig, DB> where S: BlockExecutionStrategyFactory {
    strategy_factory: &'a S,
    chain_spec: Arc<ChainSpec>,
    evm_config: EvmConfig,
    state: State<DB>,
}

impl<'a, S, EvmConfig, DB> View for GenericBlockExecutor<'a, S, EvmConfig, DB> where
    S: BlockExecutionStrategyFactory,
 {
    type V = Self;

    /// The executor stands for itself.
    open spec fn view(&self) -> Self {
        *self
    }
}

impl<'a, S, EvmConfig, DB> GenericBlockExecutor<'a, S, EvmConfig, DB> where
    S: BlockExecutionStrategyFactory,
 {
    /// The factory whose strategy the executor runs.
    pub closed spec fn strategy_factory(&self) -> &'a S {
        self.strategy_factory
    }

    /// The parameters of the chain.
    pub closed spec fn chain_spec(&self) -> Arc<ChainSpec> {
        self.chain_spec
    }

    /// The configuration of the virtual machine.
    pub closed spec fn evm_config(&self) -> EvmConfig {
        self.evm_config
    }

    /// The overlay of this executor.
    pub closed spec fn state(&self) -> State<DB> {
        self.state
    }

    /// The overlay of this executor, to look at.
    pub fn overlay(&self) -> (overlay: &State<DB>)
        ensures
            *overlay == self.state(),
    {
        &self.state
    }

    /// An executor with the given strategy factory, chain parameters,
    /// configuration of the virtual machine and overlay.
    pub fn new(
        strategy_factory: &'a S,
        chain_spec: Arc<ChainSpec>,
        evm_config: EvmConfig,
        state: State<DB>,
    ) -> (executor: Self)
        ensures
            executor.strategy_factory() == strategy_factory,
            executor.chain_spec() == chain_spec,
            executor.evm_config() == evm_config,
            executor.state() == state,
    {
        Self { strategy_factory, chain_spec, evm_config, state }
    }
}

impl<'a, S, EvmConfig, DB> Executor<DB> for GenericBlockExecutor<'a, S, EvmConfig, DB> where
    S: BlockExecutionStrategyFactory<DB = DB>,
 {
    type Input<'b> = BlockExecutionInput<'a, BlockWithSenders>;

    type Output = BlockExecutionOutput<Receipt>;

    type Error = S::Error;

    /// The strategy that the factory makes for the block is taken through
    /// its stages; its errors are taken in by the error of the factory.
    open spec fn execution(executor: Self, input: Self::Input<'_>) -> Result<
        BlockOutput<ReceiptView>,
        Self::Error,
    > {
        match executor.strategy_factory().created(input.block, input.total_difficulty) {
            Err(error) => Err(error),
            Ok(strategy) => taken_in(staged_execution::<DB, S::Strategy>(strategy, input.block)),
        }
    }

    /// The overlay of the strategy after its three stages.
    open spec fn witnessed(executor: Self, input: Self::Input<'_>) -> Option<State<DB>> {
        match executor.strategy_factory().created(input.block, input.total_difficulty) {
            Err(_) => None,
            Ok(strategy) => match run_stages::<DB, S::Strategy>(strategy, input.block) {
                Err(_) => None,
                Ok(staged) => Some(S::Strategy::overlay(staged.completed)),
            },
        }
    }

    /// As `execution`, with the observer installed on the strategy as the
    /// factory made it, before its first stage.
    open spec fn observed_execution(
        executor: Self,
        input: Self::Input<'_>,
        hook: Option<Box<dyn OnStateHook>>,
    ) -> Result<BlockOutput<ReceiptView>, Self::Error> {
        match executor.strategy_factory().created(input.block, input.total_difficulty) {
            Err(error) => Err(error),
            Ok(strategy) => taken_in(
                staged_execution::<DB, S::Strategy>(
                    S::Strategy::hooked(strategy, hook),
                    input.block,
                ),
            ),
        }
    }

    proof fn law_witnessed(executor: Self, input: Self::Input<'_>) {
    }

    /// Makes the strategy for the block, takes it through its stages and
    /// packs what they produced with the state diff. The output has one
    /// receipt for each transaction, and its gas is what they consumed.
    fn execute(self, input: Self::Input<'_>) -> (result: Result<Self::Output, Self::Error>)
        ensures
            result matches Ok(output) ==> gas_and_receipts_agree(
                output@.receipts,
                output.gas_used,
                input.block,
            ),
    {
        let BlockExecutionInput { block, total_difficulty } = input;
        let strategy = match self.strategy_factory.create(block, total_difficulty) {
            Ok(strategy) => strategy,
            Err(error) => {
                return Err(error);
            },
        };
        proof {
            self.strategy_factory.law_created(block, total_difficulty);
            S::law_error_taken_in();
        }
        let (strategy, receipts, requests, gas_used) = match execute_stages(strategy, block) {
            Ok(staged) => staged,
            Err(error) => {
                return Err(S::Error::from(error));
            },
        };
        let state = strategy.finish();
        Ok(BlockExecutionOutput { state, receipts, requests, gas_used })
    }

    /// As `execute`; the witness is shown the overlay of the strategy after
    /// the third stage, before the state diff is taken out.
    fn execute_with_state_witness<F>(self, input: Self::Input<'_>, witness: F) -> (result: Result<
        Self::Output,
        Self::Error,
    >) where F: FnMut(&State<DB>) {
        let mut witness = witness;
        let BlockExecutionInput { block, total_difficulty } = input;
        let strategy = match self.strategy_factory.create(block, total_difficulty) {
            Ok(strategy) => strategy,
            Err(error) => {
                return Err(error);
            },
        };
        proof {
            self.strategy_factory.law_created(block, total_difficulty);
            S::law_error_taken_in();
        }
        let (strategy, receipts, requests, gas_used) = match execute_stages(strategy, block) {
            Ok(staged) => staged,
            Err(error) => {
                return Err(S::Error::from(error));
            },
        };
        witness(strategy.state_ref());
        let state = strategy.finish();
        Ok(BlockExecutionOutput { state, receipts, requests, gas_used })
    }

    /// As `execute`; the observer is installed on the strategy as soon as
    /// the factory has made it, before its first stage.
    fn execute_with_state_hook<F>(self, input: Self::Input<'_>, state_hook: F) -> (result: Result<
        Self::Output,
        Self::Error,
    >) where F: OnStateHook + 'static {
        let BlockExecutionInput { block, total_difficulty } = input;
        let strategy = match self.strategy_factory.create(block, total_difficulty) {
            Ok(strategy) => strategy,
            Err(error) => {
                return Err(error);
            },
        };
        let hook: Box<dyn OnStateHook> = Box::new(state_hook);
        proof {
            self.strategy_factory.law_created(block, total_difficulty);
            S::law_error_taken_in();
            S::Strategy::law_hooked(strategy@, Some(hook));
        }
        let strategy = strategy.with_state_hook(Some(hook));
        let (strategy, receipts, requests, gas_used) = match execute_stages(strategy, block) {
            Ok(staged) => staged,
            Err(error) => {
                return Err(S::Error::from(error));
            },
        };
        let state = strategy.finish();
        Ok(BlockExecutionOutput { state, receipts, requests, gas_used })
    }
}

/// How far a run of steps got.
pub struct Run<T, E> {
    /// The state that the run reached: that after the last step that
    /// succeeded.
    pub reached: T,
    /// Number of steps that succeeded.
    pub taken: nat,
    /// The error of the step that failed, if one did.
    pub stopped: Option<E>,
}

/// Takes `step` for each input in order, from `start`, up to the first that
/// fails. Nothing is taken after a step has failed.
pub open spec fn run_steps<T, I, E>(
    step: spec_fn(T, I) -> Result<T, E>,
    start: T,
    inputs: Seq<I>,
) -> Run<T, E>
    decreases inputs.len(),
{
    if inputs.len() == 0 {
        Run { reached: start, taken: 0, stopped: None }
    } else {
        let before = run_steps(step, start, inputs.drop_last());
        if before.stopped is Some {
            before
        } else {
            match step(before.reached, inputs.last()) {
                Ok(next) => Run { reached: next, taken: before.taken + 1, stopped: None },
                Err(error) => Run {
                    reached: before.reached,
                    taken: before.taken,
                    stopped: Some(error),
                },
            }
        }
    }
}

/// A run that has stopped within the first `count` inputs is the run of all
/// inputs.
pub proof fn lemma_run_stops<T, I, E>(
    step: spec_fn(T, I) -> Result<T, E>,
    start: T,
    inputs: Seq<I>,
    count: int,
)
    requires
        0 <= count <= inputs.len(),
        run_steps(step, start, inputs.take(count)).stopped is Some,
    ensures
        run_steps(step, start, inputs) == run_steps(step, start, inputs.take(count)),
    decreases inputs.len() - count,
{
    if count < inputs.len() {
        assert(inputs.take(count + 1).drop_last() == inputs.take(count));
        lemma_run_stops(step, start, inputs, count + 1);
    } else {
        assert(inputs.take(count) == inputs);
    }
}

/// Executes inputs one after another, checks each output against what its
/// input declares, and gathers the outputs of the whole batch.
///
/// What the executor does is told over its view: a specification function
/// names what executing and verifying an input leads to.
pub trait BatchExecutor<DB>: Sized + View {
    /// What the executor is given.
    type Input<'a>;

    /// What the executor gathers.
    type Output: View;

    /// What the executor fails with.
    type Error;

    /// The outcome gathered so far.
    spec fn outcome(executor: Self::V) -> <Self::Output as View>::V;

    /// The block that the batch is expected to end with, if it was told.
    spec fn tip(executor: Self::V) -> Option<BlockNumber>;

    /// Which kinds of historical data may be discarded.
    spec fn prune_modes(executor: Self::V) -> PruneModes;

    /// An estimate of the size in memory of what has been gathered; `None`
    /// where it is not known.
    spec fn size(executor: Self::V) -> Option<usize>;

    /// What executing and verifying `input` next leads to: the executor with
    /// the output of `input` folded into its outcome, or the error that
    /// rejects the input.
    spec fn verified(executor: Self::V, input: Self::Input<'_>) -> Result<Self::V, Self::Error>;

    /// Executes the next input of the batch, verifies its output and folds
    /// it into the outcome. Where the input is rejected the outcome is as it
    /// was.
    fn execute_and_verify_one(&mut self, input: Self::Input<'_>) -> (result: Result<
        (),
        Self::Error,
    >)
        ensures
            match Self::verified(old(self)@, input) {
                Ok(next) => result is Ok && final(self)@ == next,
                Err(error) => result == Err::<(), Self::Error>(error) && Self::outcome(
                    final(self)@,
                ) == Self::outcome(old(self)@),
            },
    ;

    /// Executes the inputs in their order, stopping at the first that is
    /// rejected. The outcome is then what the inputs before it have led to:
    /// they stay executed, and nothing of the rejected input is in it.
    fn execute_and_verify_many<'a>(&mut self, inputs: Vec<Self::Input<'a>>) -> (result: Result<
        (),
        Self::Error,
    >)
        ensures
            ({
                let run = run_steps(
                    |executor: Self::V, input: Self::Input<'a>| Self::verified(executor, input),
                    old(self)@,
                    inputs@,
                );
                match result {
                    Ok(()) => run.stopped is None && final(self)@ == run.reached,
                    Err(error) => run.stopped == Some(error) && Self::outcome(final(self)@)
                        == Self::outcome(run.reached),
                }
            }),
    {
        let ghost all = inputs@;
        let ghost start = self@;
        let ghost step = |executor: Self::V, input: Self::Input<'a>|
            Self::verified(executor, input);
        assert(all.take(0) == Seq::<Self::Input<'a>>::empty());
        for input in iter: inputs
            invariant
                iter.seq() == all,
                all == inputs@,
                start == old(self)@,
                step == |executor: Self::V, input: Self::Input<'a>|
                    Self::verified(executor, input),
                run_steps(step, start, all.take(iter.index())) == (Run::<Self::V, Self::Error> {
                    reached: self@,
                    taken: iter.index() as nat,
                    stopped: None,
                }),
        {
            let ghost done = iter.index();
            let ghost before = self@;
            assert(all.take(done + 1).drop_last() == all.take(done));
            assert(all.take(done + 1).last() == input);
            match self.execute_and_verify_one(input) {
                Ok(()) => {},
                Err(error) => {
                    proof {
                        assert(step(before, input) == Err::<Self::V, Self::Error>(error));
                        assert(run_steps(step, start, all.take(done + 1)).stopped == Some(error));
                        lemma_run_stops(step, start, all, done + 1);
                    }
                    return Err(error);
                },
            }
        }
        assert(all.take(all.len() as int) == all);
        Ok(())
    }

    /// Executes the whole batch and returns the outcome, or the error of the
    /// first input that is rejected.
    fn execute_and_verify_batch<'a>(self, batch: Vec<Self::Input<'a>>) -> (result: Result<
        Self::Output,
        Self::Error,
    >)
        ensures
            ({
                let run = run_steps(
                    |executor: Self::V, input: Self::Input<'a>| Self::verified(executor, input),
                    self@,
                    batch@,
                );
                match result {
                    Ok(outcome) => run.stopped is None && outcome@ == Self::outcome(run.reached),
                    Err(error) => run.stopped == Some(error),
                }
            }),
    {
        let mut executor = self;
        match executor.execute_and_verify_many(batch) {
            Ok(()) => {},
            Err(error) => {
                return Err(error);
            },
        }
        Ok(executor.finalize())
    }

    /// Ends the batch and returns the outcome. The executor is gone with
    /// this: nothing can be executed after, and nothing ends a batch twice.
    fn finalize(self) -> (outcome: Self::Output)
        ensures
            outcome@ == Self::outcome(self@),
    ;

    /// Tells the executor which block the batch is expected to end with. It
    /// is a hint for how much of the state to keep while executing; the
    /// outcome so far is not touched.
    fn set_tip(&mut self, tip: BlockNumber)
        ensures
            Self::tip(final(self)@) == Some(tip),
            Self::prune_modes(final(self)@) == Self::prune_modes(old(self)@),
            Self::outcome(final(self)@) == Self::outcome(old(self)@),
    ;

    /// Tells the executor which kinds of historical data may be discarded.
    /// The outcome so far is not touched.
    fn set_prune_modes(&mut self, prune_modes: PruneModes)
        ensures
            Self::prune_modes(final(self)@) == prune_modes,
            Self::tip(final(self)@) == Self::tip(old(self)@),
            Self::outcome(final(self)@) == Self::outcome(old(self)@),
    ;

    /// An estimate of the size in memory of what has been gathered, for the
    /// caller to decide when to write it out. `None` says that the size is
    /// not known, not that nothing has been gathered.
    fn size_hint(&self) -> (size: Option<usize>)
        ensures
            size == Self::size(self@),
    ;
}

/// The outcome `after` is the outcome `before` and the block `block`: one
/// more entry of receipts and one more of requests, behind those that were
/// there, with the receipts in agreement with the gas that the header of the
/// block declares.
pub open spec fn one_more_block(
    before: BatchOutcome,
    after: BatchOutcome,
    block: &BlockWithSenders,
) -> bool {
    &&& after.receipts.len() == before.receipts.len() + 1
    &&& after.receipts.drop_last() == before.receipts
    &&& after.requests.len() == before.requests.len() + 1
    &&& after.requests.drop_last() == before.requests
    &&& gas_and_receipts_agree(after.receipts.last(), block.block.header.gas_used, block)
}

/// Makes executors on a database of the kind `DB`. A provider holds nothing
/// that a call changes, and a copy of it is cheap.
pub trait BlockExecutorProvider<DB>: Send + Sync + Clone + 'static {
    /// An executor of one block.
    ///
    /// It checks what the stages of execution check and no more: that the
    /// state root is right is for the caller to see, from the state diff
    /// that is returned.
    type Executor: for <'a>Executor<
        DB,
        Input<'a> = BlockExecutionInput<'a, BlockWithSenders>,
        Output = BlockExecutionOutput<Receipt>,
        Error = BlockExecutionError,
    >;

    /// An executor of a batch of blocks.
    type BatchExecutor: for <'a>BatchExecutor<
        DB,
        Input<'a> = BlockExecutionInput<'a, BlockWithSenders>,
        Output = ExecutionOutcome,
        Error = BlockExecutionError,
    >;

    /// The executor that `executor` makes on `db`.
    spec fn made_executor(&self, db: DB) -> <Self::Executor as View>::V;

    /// The executor that `batch_executor` makes on `db`.
    spec fn made_batch_executor(&self, db: DB) -> <Self::BatchExecutor as View>::V;

    /// A batch begins with nothing gathered.
    proof fn law_batch_begins_empty(&self, db: DB)
        ensures
            <Self::BatchExecutor as BatchExecutor<DB>>::outcome(
                self.made_batch_executor(db),
            ).receipts.len() == 0,
            <Self::BatchExecutor as BatchExecutor<DB>>::outcome(
                self.made_batch_executor(db),
            ).requests.len() == 0,
    ;

    /// A block that is verified is one more block in the outcome: its
    /// receipts and its requests come after those of the blocks before. Its
    /// receipts are one for each transaction, and the gas that they account
    /// for is the gas that the header of the block declares.
    proof fn law_verified_block(
        executor: <Self::BatchExecutor as View>::V,
        input: BlockExecutionInput<'_, BlockWithSenders>,
    )
        ensures
            <Self::BatchExecutor as BatchExecutor<DB>>::verified(executor, input) matches Ok(
                next,
            ) ==> one_more_block(
                <Self::BatchExecutor as BatchExecutor<DB>>::outcome(executor),
                <Self::BatchExecutor as BatchExecutor<DB>>::outcome(next),
                input.block,
            ),
    ;

    /// An executor for one block on `db`, with an overlay of its own.
    fn executor(&self, db: DB) -> (executor: Self::Executor)
        ensures
            executor@ == self.made_executor(db),
    ;

    /// An executor for a batch of blocks on `db`, with an overlay of its
    /// own that lasts for the batch.
    fn batch_executor(&self, db: DB) -> (executor: Self::BatchExecutor)
        ensures
            executor@ == self.made_batch_executor(db),
    ;
}

} // verus!
