//! What holds of every strategy and of every executor, proved from what
//! their traits state.

use crate::execute::{
    by_view, gas_and_receipts_agree, run_stages, run_steps, staged_execution, total_changes,
    BatchExecutor, BlockExecutionStrategy, BlockExecutionStrategyFactory, BlockExecutorProvider,
    Executor, GenericBlockExecutor, Run, Stage,
};
use crate::execution_types::{
    BatchOutcome, BlockExecutionInput, BlockExecutionOutput, BlockOutput, ExecutionOutcome,
};
use crate::primitives::{BlockWithSenders, Receipt, ReceiptView};
use crate::state::OnStateHook;
use alloy_consensus::Request;
use revm::db::{BundleState, State};
use vstd::prelude::*;

verus! {

/// A strategy that got through its three stages stands at the fourth.
pub proof fn lemma_stages_in_order<DB, S: BlockExecutionStrategy<DB>>(
    strategy: S::V,
    block: &BlockWithSenders,
)
    requires
        S::stage(strategy) == Stage::Created,
    ensures
        run_stages::<DB, S>(strategy, block) matches Ok(staged) ==> S::stage(staged.completed)
            == Stage::PostExecutionApplied,
{
    S::law_pre_execution(strategy);
    if let Ok(prepared) = S::pre_execution(strategy) {
        S::law_transactions(prepared, block);
        if let Ok((executed, _, _)) = S::transactions(prepared, block) {
            S::law_post_execution(executed);
        }
    }
}

/// Gas and receipts agree. Where a block executes, its output has one
/// receipt for each transaction of the block, and the gas used is the sum of
/// what each transaction consumed, none of them a negative amount.
pub proof fn lemma_gas_and_receipts_agree<DB, S: BlockExecutionStrategy<DB>>(
    strategy: S::V,
    block: &BlockWithSenders,
)
    requires
        S::stage(strategy) == Stage::Created,
    ensures
        staged_execution::<DB, S>(strategy, block) matches Ok(output) ==> gas_and_receipts_agree(
            output.receipts,
            output.gas_used,
            block,
        ),
{
    S::law_pre_execution(strategy);
    if let Ok(prepared) = S::pre_execution(strategy) {
        S::law_transactions(prepared, block);
    }
}

/// Gas and receipts agree in whatever the generic executor returns for a
/// block, with an observer or without.
pub proof fn lemma_executor_gas_and_receipts_agree<'a, S, EvmConfig, DB>(
    executor: GenericBlockExecutor<'a, S, EvmConfig, DB>,
    input: BlockExecutionInput<'a, BlockWithSenders>,
    hook: Option<Box<dyn OnStateHook>>,
) where S: BlockExecutionStrategyFactory<DB = DB>
    ensures
        GenericBlockExecutor::execution(executor, input) matches Ok(output)
            ==> gas_and_receipts_agree(output.receipts, output.gas_used, input.block),
        GenericBlockExecutor::observed_execution(executor, input, hook) matches Ok(output)
            ==> gas_and_receipts_agree(output.receipts, output.gas_used, input.block),
{
    let factory = executor.strategy_factory();
    factory.law_created(input.block, input.total_difficulty);
    if let Ok(strategy) = factory.created(input.block, input.total_difficulty) {
        lemma_gas_and_receipts_agree::<DB, S::Strategy>(strategy, input.block);
        S::Strategy::law_hooked(strategy, hook);
        lemma_gas_and_receipts_agree::<DB, S::Strategy>(
            S::Strategy::hooked(strategy, hook),
            input.block,
        );
    }
}

/// A block without transactions has no receipt and uses no gas; what it
/// yields besides its state diff are the requests that the changes after
/// execution produce.
pub proof fn lemma_empty_block<DB, S: BlockExecutionStrategy<DB>>(
    strategy: S::V,
    block: &BlockWithSenders,
)
    requires
        S::stage(strategy) == Stage::Created,
        block.transaction_count() == 0,
    ensures
        staged_execution::<DB, S>(strategy, block) matches Ok(output) ==> {
            &&& output.receipts == Seq::<ReceiptView>::empty()
            &&& output.gas_used == 0
            &&& run_stages::<DB, S>(strategy, block) matches Ok(staged) && output.requests
                == staged.requests
        },
{
    lemma_gas_and_receipts_agree::<DB, S>(strategy, block);
}

/// A witness changes nothing. Whatever `execute` may return for an input,
/// `execute_with_state_witness` returns for it too, whatever the witness:
/// the same error, or an output with the same view.
pub proof fn lemma_witness_leaves_output<DB, X: Executor<DB>, W: FnMut(&State<DB>)>(
    executor: X,
    input: X::Input<'_>,
    witness: W,
    plain: Result<X::Output, X::Error>,
    witnessed: Result<X::Output, X::Error>,
)
    requires
        call_ensures(X::execute, (executor, input), plain),
        call_ensures(X::execute_with_state_witness::<W>, (executor, input, witness), witnessed),
    ensures
        by_view(plain) == by_view(witnessed),
{
}

/// Changes that are at least one for each of `changes.len()` transactions
/// are at least that many together.
pub proof fn lemma_total_changes_at_least_count(changes: Seq<nat>)
    requires
        forall|i: int| 0 <= i < changes.len() ==> changes[i] >= 1,
    ensures
        total_changes(changes) >= changes.len(),
    decreases changes.len(),
{
    if changes.len() > 0 {
        let front = changes.drop_last();
        assert forall|i: int| 0 <= i < front.len() implies front[i] >= 1 by {
            assert(front[i] == changes[i]);
        }
        lemma_total_changes_at_least_count(front);
    }
}

/// An observer misses no transaction. Let an observer be installed on a
/// strategy before its first stage, and let the strategy get through its
/// stages for a block of which every transaction changes the state at least
/// once. Then the observer is still installed before the strategy is
/// finished, and it has been shown at least as many changes more as the
/// block has transactions.
pub proof fn lemma_observer_sees_every_transaction<DB, S: BlockExecutionStrategy<DB>>(
    strategy: S::V,
    hook: Option<Box<dyn OnStateHook>>,
    block: &BlockWithSenders,
)
    requires
        S::stage(strategy) == Stage::Created,
        hook is Some,
        run_stages::<DB, S>(S::hooked(strategy, hook), block) is Ok,
        forall|i: int|
            0 <= i < block.transaction_count() ==> (#[trigger] S::state_changes(
                S::pre_execution(S::hooked(strategy, hook))->Ok_0,
                block,
            )[i]) >= 1,
    ensures
        run_stages::<DB, S>(S::hooked(strategy, hook), block) matches Ok(staged) && S::observed(
            staged.completed,
        ) matches Some(shown) && shown >= hook->0.observed() + block.transaction_count(),
{
    let observed = S::hooked(strategy, hook);
    S::law_hooked(strategy, hook);
    S::law_pre_execution(observed);
    let prepared = S::pre_execution(observed)->Ok_0;
    S::law_transactions(prepared, block);
    let executed = S::transactions(prepared, block)->Ok_0.0;
    S::law_post_execution(executed);
    lemma_total_changes_at_least_count(S::state_changes(prepared, block));
}

/// How far `executor` gets through `inputs`: what
/// [`BatchExecutor::execute_and_verify_many`] states of itself.
pub open spec fn batch_run<'a, DB, B: BatchExecutor<DB>>(
    executor: B::V,
    inputs: Seq<B::Input<'a>>,
) -> Run<B::V, B::Error> {
    run_steps(|executor: B::V, input: B::Input<'a>| B::verified(executor, input), executor, inputs)
}

/// A run takes no more steps than there are inputs, and it takes them all
/// unless it is stopped.
pub proof fn lemma_run_length<T, I, E>(
    step: spec_fn(T, I) -> Result<T, E>,
    start: T,
    inputs: Seq<I>,
)
    ensures
        run_steps(step, start, inputs).taken <= inputs.len(),
        run_steps(step, start, inputs).stopped is None ==> run_steps(step, start, inputs).taken
            == inputs.len(),
        run_steps(step, start, inputs).stopped is Some ==> run_steps(step, start, inputs).taken
            < inputs.len(),
    decreases inputs.len(),
{
    if inputs.len() > 0 {
        lemma_run_length(step, start, inputs.drop_last());
    }
}

/// A run that is stopped is the run of the inputs before the one that
/// stopped it, which all went through, followed by the step that failed.
pub proof fn lemma_run_stopped<T, I, E>(
    step: spec_fn(T, I) -> Result<T, E>,
    start: T,
    inputs: Seq<I>,
)
    requires
        run_steps(step, start, inputs).stopped is Some,
    ensures
        ({
            let run = run_steps(step, start, inputs);
            let before = run_steps(step, start, inputs.take(run.taken as int));
            &&& run.taken < inputs.len()
            &&& before.stopped is None
            &&& before.reached == run.reached
            &&& step(run.reached, inputs[run.taken as int]) == Err::<T, E>(run.stopped->0)
        }),
    decreases inputs.len(),
{
    let run = run_steps(step, start, inputs);
    lemma_run_length(step, start, inputs);
    let front = inputs.drop_last();
    let before = run_steps(step, start, front);
    lemma_run_length(step, start, front);
    if before.stopped is Some {
        lemma_run_stopped(step, start, front);
        assert(front.take(run.taken as int) == inputs.take(run.taken as int));
    } else {
        assert(inputs.take(run.taken as int) == front);
    }
}

/// A rejected block leaves nothing behind. Where a batch executor is
/// stopped by an input, the executor that it has reached, and so its
/// outcome, is the one that executing only the inputs before that one leads
/// to; those all went through.
pub proof fn lemma_rejected_input_leaves_nothing<'a, DB, B: BatchExecutor<DB>>(
    executor: B::V,
    inputs: Seq<B::Input<'a>>,
)
    requires
        batch_run::<DB, B>(executor, inputs).stopped is Some,
    ensures
        ({
            let run = batch_run::<DB, B>(executor, inputs);
            let before = batch_run::<DB, B>(executor, inputs.take(run.taken as int));
            &&& run.taken < inputs.len()
            &&& before.stopped is None
            &&& before.reached == run.reached
            &&& B::outcome(before.reached) == B::outcome(run.reached)
            &&& B::verified(run.reached, inputs[run.taken as int]) == Err::<B::V, B::Error>(
                run.stopped->0,
            )
        }),
{
    lemma_run_stopped(
        |executor: B::V, input: B::Input<'a>| B::verified(executor, input),
        executor,
        inputs,
    );
}

/// Executes `inputs` one block at a time: each with an executor of a single
/// block, and the next with the executor that `next` makes of the one before
/// and its output, so that the state is handed forward. Gives the executor
/// for the block that would follow, and the outputs in order.
pub open spec fn blocks_one_by_one<'a, DB, X>(
    first: X::V,
    inputs: Seq<X::Input<'a>>,
    next: spec_fn(X::V, BlockOutput<ReceiptView>) -> X::V,
) -> (X::V, Seq<BlockOutput<ReceiptView>>) where
    X: Executor<DB, Output = BlockExecutionOutput<Receipt>>,

    decreases inputs.len(),
{
    if inputs.len() == 0 {
        (first, Seq::empty())
    } else {
        let (executor, outputs) = blocks_one_by_one::<DB, X>(first, inputs.drop_last(), next);
        match X::execution(executor, inputs.last()) {
            Ok(output) => (next(executor, output), outputs.push(output)),
            Err(_) => (executor, outputs),
        }
    }
}

/// A batch executor and an executor of single blocks do the same: whenever
/// they stand in `alike` and the batch executor accepts an input, the other
/// executes it too, the outcome of the batch grows by just that output, and
/// the two executors that follow stand in `alike` again.
pub open spec fn executes_alike<'a, DB, B, X>(
    alike: spec_fn(B::V, X::V) -> bool,
    next: spec_fn(X::V, BlockOutput<ReceiptView>) -> X::V,
    merge: spec_fn(BundleState, BundleState) -> BundleState,
) -> bool where
    B: BatchExecutor<DB, Output = ExecutionOutcome>,
    X: Executor<DB, Input<'a> = B::Input<'a>, Output = BlockExecutionOutput<Receipt>>,
 {
    forall|batch: B::V, single: X::V, input: B::Input<'a>|
        #![trigger alike(batch, single), B::verified(batch, input)]
        alike(batch, single) && B::verified(batch, input) is Ok ==> {
            &&& X::execution(single, input) is Ok
            &&& B::outcome(B::verified(batch, input)->Ok_0) == B::outcome(batch).with_block(
                X::execution(single, input)->Ok_0,
                merge,
            )
            &&& alike(
                B::verified(batch, input)->Ok_0,
                next(single, X::execution(single, input)->Ok_0),
            )
        }
}

/// A batch is its blocks one by one. Let a batch executor and an executor
/// of single blocks do the same, and let the batch executor accept every
/// input. Then the outcome that it reaches is the outcome it began with and
/// the outputs of executing the inputs one block at a time, in order: their
/// receipts and requests block by block, and their state changes merged.
pub proof fn lemma_batch_is_blocks_one_by_one<'a, DB, B, X>(
    batch: B::V,
    single: X::V,
    inputs: Seq<B::Input<'a>>,
    alike: spec_fn(B::V, X::V) -> bool,
    next: spec_fn(X::V, BlockOutput<ReceiptView>) -> X::V,
    merge: spec_fn(BundleState, BundleState) -> BundleState,
) where
    B: BatchExecutor<DB, Output = ExecutionOutcome>,
    X: Executor<DB, Input<'a> = B::Input<'a>, Output = BlockExecutionOutput<Receipt>>,

    requires
        alike(batch, single),
        executes_alike::<DB, B, X>(alike, next, merge),
        batch_run::<DB, B>(batch, inputs).stopped is None,
    ensures
        B::outcome(batch_run::<DB, B>(batch, inputs).reached) == B::outcome(batch).with_blocks(
            blocks_one_by_one::<DB, X>(single, inputs, next).1,
            merge,
        ),
        blocks_one_by_one::<DB, X>(single, inputs, next).1.len() == inputs.len(),
        alike(
            batch_run::<DB, B>(batch, inputs).reached,
            blocks_one_by_one::<DB, X>(single, inputs, next).0,
        ),
    decreases inputs.len(),
{
    if inputs.len() > 0 {
        let front = inputs.drop_last();
        lemma_batch_is_blocks_one_by_one::<DB, B, X>(batch, single, front, alike, next, merge);
        let reached = batch_run::<DB, B>(batch, front).reached;
        let (executor, outputs) = blocks_one_by_one::<DB, X>(single, front, next);
        assert(alike(reached, executor));
        assert(B::verified(reached, inputs.last()) is Ok);
        let all = blocks_one_by_one::<DB, X>(single, inputs, next).1;
        assert(all.drop_last() == outputs);
    }
}

/// The outcome with the blocks of `outputs` holds their receipts and their
/// requests after those it began with, block by block and in order.
pub proof fn lemma_with_blocks_in_order(
    outcome: BatchOutcome,
    outputs: Seq<BlockOutput<ReceiptView>>,
    merge: spec_fn(BundleState, BundleState) -> BundleState,
)
    ensures
        outcome.with_blocks(outputs, merge).first_block == outcome.first_block,
        outcome.with_blocks(outputs, merge).receipts == outcome.receipts + Seq::new(
            outputs.len(),
            |i: int| outputs[i].receipts,
        ),
        outcome.with_blocks(outputs, merge).requests == outcome.requests + Seq::new(
            outputs.len(),
            |i: int| outputs[i].requests,
        ),
    decreases outputs.len(),
{
    if outputs.len() > 0 {
        let front = outputs.drop_last();
        lemma_with_blocks_in_order(outcome, front, merge);
        assert(outcome.with_blocks(outputs, merge).receipts =~= outcome.receipts + Seq::new(
            outputs.len(),
            |i: int| outputs[i].receipts,
        ));
        assert(outcome.with_blocks(outputs, merge).requests =~= outcome.requests + Seq::new(
            outputs.len(),
            |i: int| outputs[i].requests,
        ));
    } else {
        assert(outcome.receipts =~= outcome.receipts + Seq::new(
            outputs.len(),
            |i: int| outputs[i].receipts,
        ));
        assert(outcome.requests =~= outcome.requests + Seq::new(
            outputs.len(),
            |i: int| outputs[i].requests,
        ));
    }
}

/// What a batch ends with is settled. Whatever `finalize` may return for an
/// executor, it returns the same every time: two outcomes of it have the
/// same view.
pub proof fn lemma_finalize_is_settled<DB, B: BatchExecutor<DB>>(
    executor: B,
    first: B::Output,
    second: B::Output,
)
    requires
        call_ensures(B::finalize, (executor,), first),
        call_ensures(B::finalize, (executor,), second),
    ensures
        first@ == second@,
{
}

/// An outcome reads the same every time: two readings of its receipts, of
/// its requests or of its state changes are equal.
pub proof fn lemma_outcome_reads_the_same(
    outcome: &ExecutionOutcome,
    receipts: (&Vec<Vec<Receipt>>, &Vec<Vec<Receipt>>),
    requests: (&Vec<Vec<Request>>, &Vec<Vec<Request>>),
    state: (&BundleState, &BundleState),
)
    requires
        call_ensures(ExecutionOutcome::receipts, (outcome,), receipts.0),
        call_ensures(ExecutionOutcome::receipts, (outcome,), receipts.1),
        call_ensures(ExecutionOutcome::requests, (outcome,), requests.0),
        call_ensures(ExecutionOutcome::requests, (outcome,), requests.1),
        call_ensures(ExecutionOutcome::state, (outcome,), state.0),
        call_ensures(ExecutionOutcome::state, (outcome,), state.1),
    ensures
        receipts.0 == receipts.1,
        requests.0 == requests.1,
        state.0 == state.1,
{
}

/// Every block of a batch that went through is in the outcome, in order,
/// behind what was there before, and the receipts of each are one for each
/// of its transactions and account for the gas that its header declares.
pub proof fn lemma_verified_blocks_agree<'a, DB, P: BlockExecutorProvider<DB>>(
    executor: <P::BatchExecutor as View>::V,
    inputs: Seq<BlockExecutionInput<'a, BlockWithSenders>>,
)
    requires
        batch_run::<DB, P::BatchExecutor>(executor, inputs).stopped is None,
    ensures
        ({
            let before = P::BatchExecutor::outcome(executor);
            let after = P::BatchExecutor::outcome(
                batch_run::<DB, P::BatchExecutor>(executor, inputs).reached,
            );
            &&& after.receipts.len() == before.receipts.len() + inputs.len()
            &&& after.receipts.take(before.receipts.len() as int) == before.receipts
            &&& after.requests.len() == before.requests.len() + inputs.len()
            &&& after.requests.take(before.requests.len() as int) == before.requests
            &&& forall|i: int|
                0 <= i < inputs.len() ==> gas_and_receipts_agree(
                    #[trigger] after.receipts[before.receipts.len() + i],
                    inputs[i].block.block.header.gas_used,
                    inputs[i].block,
                )
        }),
    decreases inputs.len(),
{
    let before = P::BatchExecutor::outcome(executor);
    if inputs.len() > 0 {
        let front = inputs.drop_last();
        lemma_verified_blocks_agree::<DB, P>(executor, front);
        let reached = batch_run::<DB, P::BatchExecutor>(executor, front).reached;
        let middle = P::BatchExecutor::outcome(reached);
        P::law_verified_block(reached, inputs.last());
        let after = P::BatchExecutor::outcome(
            batch_run::<DB, P::BatchExecutor>(executor, inputs).reached,
        );
        assert(after.receipts.drop_last() == middle.receipts);
        assert(after.requests.drop_last() == middle.requests);
        assert(after.receipts.take(before.receipts.len() as int) =~= before.receipts) by {
            assert(middle.receipts.take(before.receipts.len() as int) == before.receipts);
            assert forall|k: int| 0 <= k < before.receipts.len() implies after.receipts[k]
                == before.receipts[k] by {
                assert(after.receipts[k] == after.receipts.drop_last()[k]);
                assert(middle.receipts.take(before.receipts.len() as int)[k]
                    == middle.receipts[k]);
            }
        }
        assert(after.requests.take(before.requests.len() as int) =~= before.requests) by {
            assert(middle.requests.take(before.requests.len() as int) == before.requests);
            assert forall|k: int| 0 <= k < before.requests.len() implies after.requests[k]
                == before.requests[k] by {
                assert(after.requests[k] == after.requests.drop_last()[k]);
                assert(middle.requests.take(before.requests.len() as int)[k]
                    == middle.requests[k]);
            }
        }
        assert forall|i: int| 0 <= i < inputs.len() implies gas_and_receipts_agree(
            #[trigger] after.receipts[before.receipts.len() + i],
            inputs[i].block.block.header.gas_used,
            inputs[i].block,
        ) by {
            if i < inputs.len() - 1 {
                let place = before.receipts.len() + i;
                assert(after.receipts[place] == after.receipts.drop_last()[place]);
                assert(front[i] == inputs[i]);
            } else {
                assert(after.receipts[before.receipts.len() + i] == after.receipts.last());
            }
        }
    } else {
        assert(before.receipts.take(before.receipts.len() as int) =~= before.receipts);
        assert(before.requests.take(before.requests.len() as int) =~= before.requests);
    }
}

} // verus!
