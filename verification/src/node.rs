//! The types that make up a node, for its parts to be wired together.

use std::marker::PhantomData;
use vstd::prelude::*;

verus! {

/// The types of a node that are fixed by the node itself, not by whoever
/// configures it.
pub trait FullNodeTypes: Send + Sync + 'static {
    /// The configured types of the node, with its database.
    type Types;

    /// The provider through which the node is read.
    type Provider;
}

/// Joins the configured types of a node with the provider that the node
/// brings. It holds no data.
#[derive(Debug)]
pub struct FullNodeTypesAdapter<Types, Provider> {
    /// The configured types of the node.
    pub types: PhantomData<Types>,
    /// The provider of the node.
    pub provider: PhantomData<Provider>,
}

impl<Types, Provider> FullNodeTypes for FullNodeTypesAdapter<Types, Provider> where
    Types: Send + Sync + 'static,
    Provider: Send + Sync + 'static,
 {
    type Types = Types;

    type Provider = Provider;
}

/// A value that can be built from a context.
pub trait BuilderProvider<N>: Send + Sized {
    /// What building takes.
    type Ctx<'a>;

    /// Builds the value from its context.
    fn builder(ctx: Self::Ctx<'_>) -> Self;
}

impl<N> BuilderProvider<N> for () {
    type Ctx<'a> = ();

    fn builder(ctx: Self::Ctx<'_>) -> (built: Self) {
        noop_builder(ctx)
    }
}

/// Builds nothing from nothing.
pub fn noop_builder(_ctx: ()) -> (built: ())
    ensures
        built == (),
{
}

/// The configured types of a node, without any demand on them.
pub trait NodeTy {
    /// The primitive types of the node.
    type Primitives;

    /// The types by which the node speaks to the consensus engine.
    type Engine: Send + Sync + Clone + Unpin;

    /// The parameters of the chain.
    type ChainSpec: Send + Sync;
}

/// The parts of a node, without any demand on them.
pub trait NodeCore: NodeTy + Clone {
    /// The database of the node.
    type DB: Send + Sync + Clone + Unpin;

    /// The provider through which the node is read.
    type Provider: Send + Sync + Clone + Unpin;

    /// The transaction pool.
    type Pool: Send + Sync + Clone + Unpin;

    /// The configuration of the virtual machine.
    type Evm: Send + Sync + Clone + Unpin;

    /// What makes the executors of blocks.
    type Executor: Send + Sync + Clone + Unpin;

    /// The network.
    type Network: Send + Sync + Clone;
}

} // verus!
