//! The state overlay that execution works on, and the observers of its
//! changes.

use revm::db::states::{CacheAccount, CacheState};
use revm::db::{BundleState, State, TransitionState};
use revm_primitives::db::Database;
use revm_primitives::{Account, Bytecode, EvmState};
use vstd::prelude::*;

verus! {

/// `revm::db::State`, the overlay: a cache of what was read and changed, the
/// database behind it, the transitions of the running block and the bundle
/// of changes not yet committed. Its fields are public and read as they are.
#[verifier::external_type_specification]
#[verifier::reject_recursive_types(DB)]
pub struct ExState<DB>(State<DB>);

/// `revm::db::states::CacheState`, the cache of an overlay, with the flag
/// that says whether emptied accounts are cleared away. Its fields are
/// public and read as they are.
#[verifier::external_type_specification]
pub struct ExCacheState(CacheState);

/// `revm::db::TransitionState`, the changes of the running block. Carried,
/// never looked into.
#[verifier::external_type_specification]
#[verifier::external_body]
pub struct ExTransitionState(TransitionState);

/// `revm::db::BundleState`, a state diff: the account, storage and code
/// changes of one block or of a batch, not yet committed. Carried, never
/// looked into.
#[verifier::external_type_specification]
#[verifier::external_body]
pub struct ExBundleState(BundleState);

/// `revm::db::states::CacheAccount`, an account in the cache of an overlay.
#[verifier::external_type_specification]
#[verifier::external_body]
pub struct ExCacheAccount(CacheAccount);

/// `revm_primitives::Bytecode`, the code of a contract.
#[verifier::external_type_specification]
#[verifier::external_body]
pub struct ExBytecode(Bytecode);

/// `revm_primitives::Account`, an account as a transaction left it.
#[verifier::external_type_specification]
#[verifier::external_body]
pub struct ExAccount(Account);

/// An overlay as an executor needs it: it reads through to `database`, it
/// gathers its changes into a bundle, it keeps accounts that become empty,
/// and it starts from no bundle of its own.
pub open spec fn fresh_overlay<DB>(overlay: State<DB>, database: DB) -> bool {
    &&& overlay.database == database
    &&& overlay.transition_state is Some
    &&& !overlay.cache.has_state_clear
    &&& !overlay.use_preloaded_bundle
}

/// Builds an overlay on `database` with `revm::db::StateBuilder`: from
/// `State::builder()` through `with_database`, `with_bundle_update` and
/// `without_state_clear` to `build`. The builder starts with no cache and no
/// bundle to preload; `with_database` keeps its settings and takes the
/// database; the two switches turn bundle updates on and state clearing off;
/// `build` then makes the transition state, gives the cache the
/// state-clearing flag and hands the database on.
#[verifier::external_body]
pub(crate) fn new_overlay<DB: Database>(database: DB) -> (overlay: State<DB>)
    ensures
        fresh_overlay(overlay, database),
{
    State::builder().with_database(database).with_bundle_update().without_state_clear().build()
}

/// An observer of state changes. While a strategy executes with an observer
/// installed, it shows the observer each change as it happens.
///
/// An observer must not hold up execution, and it only looks: it has no way
/// to reach the overlay whose changes it is shown.
pub trait OnStateHook {
    /// Number of state changes that this observer has been shown.
    spec fn observed(&self) -> nat;

    /// Shows the observer a change of state.
    fn on_state(&mut self, state: &EvmState)
        ensures
            final(self).observed() == old(self).observed() + 1,
    ;
}

/// Number of state changes that the observer in `hook` has been shown;
/// `None` where there is no observer.
pub open spec fn observed_by(hook: Option<Box<dyn OnStateHook>>) -> Option<nat> {
    match hook {
        Some(observer) => Some(observer.observed()),
        None => None,
    }
}

} // verus!
