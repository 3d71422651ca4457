//! The middleware chain.
//!
//! A chain is an ordered list of middleware that ends in a handler. It is
//! generic in the type `M` of middleware and the type `H` of handlers, and
//! it never calls one: a [`Next`] tells which stage of the chain is to run,
//! and running it is left to the caller.

pub mod logger;

pub use logger::{LogLevel, LoggerMiddleware};

use std::sync::Arc;
use vstd::prelude::*;

verus! {

/// An ordered list of middleware and the handler at its end.
pub struct MiddlewareChain<M, H> {
    /// The middleware, in the order in which it runs.
    pub middlewares: Vec<M>,
    /// The handler that runs after the last middleware.
    pub handler: Option<H>,
}

/// A stage of a chain.
#[derive(Debug, Clone, Copy, PartialEq, Eq, Structural)]
pub enum Stage {
    /// The middleware at this position of the chain.
    Middleware(usize),
    /// The handler at the end of the chain.
    Handler,
    /// The chain has no handler: the result is no reply.
    Finished,
}

/// The stage at a position of a chain of `len` middleware.
pub open spec fn stage_at(len: nat, has_handler: bool, index: nat) -> Stage {
    if index < len {
        Stage::Middleware(index as usize)
    } else if has_handler {
        Stage::Handler
    } else {
        Stage::Finished
    }
}

/// The position that follows a position of a chain: the next one, until
/// the end of the middleware is reached.
pub open spec fn position_after(len: nat, index: nat) -> nat {
    if index < len {
        index + 1
    } else {
        index
    }
}

/// The position of a chain after `steps` stages, counted from its start.
pub open spec fn position_at(len: nat, steps: nat) -> nat
    decreases steps,
{
    if steps == 0 {
        0
    } else {
        position_after(len, position_at(len, (steps - 1) as nat))
    }
}

/// Middleware runs in the order in which it was registered, each once, and
/// the handler runs after all of it: the stage that is reached after
/// `steps` stages is the middleware at position `steps`, and after the
/// last middleware it is the end of the chain.
pub proof fn lemma_stages_in_order(len: nat, has_handler: bool, steps: nat)
    ensures
        steps <= len ==> position_at(len, steps) == steps,
        steps < len ==> stage_at(len, has_handler, position_at(len, steps)) == Stage::Middleware(
            steps as usize,
        ),
        steps >= len ==> position_at(len, steps) == len,
        steps >= len ==> stage_at(len, has_handler, position_at(len, steps)) == (if has_handler {
            Stage::Handler
        } else {
            Stage::Finished
        }),
    decreases steps,
{
    if steps > 0 {
        lemma_stages_in_order(len, has_handler, (steps - 1) as nat);
    }
}

impl<M, H> MiddlewareChain<M, H> {
    /// Creates a chain without middleware and without a handler.
    pub fn new() -> (chain: MiddlewareChain<M, H>)
        ensures
            chain.middlewares@.len() == 0,
            chain.handler is None,
    {
        MiddlewareChain { middlewares: Vec::new(), handler: None }
    }

    /// Adds a middleware at the end of those that are registered.
    pub fn layer(self, middleware: M) -> (chain: MiddlewareChain<M, H>)
        ensures
            chain.middlewares@ == self.middlewares@.push(middleware),
            chain.handler == self.handler,
    {
        let mut chain = self;
        chain.middlewares.push(middleware);
        chain
    }

    /// Sets the handler at the end of the chain.
    pub fn handler(self, handler: H) -> (chain: MiddlewareChain<M, H>)
        ensures
            chain.middlewares@ == self.middlewares@,
            chain.handler == Some(handler),
    {
        let mut chain = self;
        chain.handler = Some(handler);
        chain
    }

    /// Starts a run of the chain at its first stage.
    pub fn execute(self) -> (next: Next<M, H>)
        ensures
            next.position() == 0,
            next.chain_view() == self,
    {
        Next::new(Arc::new(self), 0)
    }
}

impl<M, H> Default for MiddlewareChain<M, H> {
    fn default() -> (chain: MiddlewareChain<M, H>)
        ensures
            chain.middlewares@.len() == 0,
            chain.handler is None,
    {
        MiddlewareChain::new()
    }
}

/// The rest of a chain: the chain and the position of the stage that is to
/// run next.
pub struct Next<M, H> {
    chain: Arc<MiddlewareChain<M, H>>,
    index: usize,
}

impl<M, H> Next<M, H> {
    /// The position of the stage that is to run next.
    pub closed spec fn position(&self) -> usize {
        self.index
    }

    /// The chain.
    pub closed spec fn chain_view(&self) -> MiddlewareChain<M, H> {
        *self.chain
    }

    /// The rest of `chain` from the position `index` on.
    pub fn new(chain: Arc<MiddlewareChain<M, H>>, index: usize) -> (next: Next<M, H>)
        ensures
            next.position() == index,
            next.chain_view() == *chain,
    {
        Next { chain, index }
    }

    /// The chain.
    pub fn chain(&self) -> (chain: &MiddlewareChain<M, H>)
        ensures
            *chain == self.chain_view(),
    {
        &*self.chain
    }

    /// The stage that is to run next: the middleware at the position, the
    /// handler after the last middleware, or nothing if there is no handler.
    pub fn stage(&self) -> (stage: Stage)
        ensures
            stage == stage_at(
                self.chain_view().middlewares@.len(),
                self.chain_view().handler is Some,
                self.position() as nat,
            ),
            stage matches Stage::Middleware(i) ==> i < self.chain_view().middlewares@.len(),
    {
        if self.index < self.chain.middlewares.len() {
            Stage::Middleware(self.index)
        } else if self.chain.handler.is_some() {
            Stage::Handler
        } else {
            Stage::Finished
        }
    }

    /// The rest of the chain after the stage that is to run next.
    pub fn run(self) -> (rest: Next<M, H>)
        ensures
            rest.chain_view() == self.chain_view(),
            rest.position() == position_after(
                self.chain_view().middlewares@.len(),
                self.position() as nat,
            ),
    {
        if self.index < self.chain.middlewares.len() {
            Next { chain: self.chain, index: self.index + 1 }
        } else {
            self
        }
    }
}

/// A middleware that is given as a function.
pub struct FnMiddleware<F> {
    func: F,
}

impl<F> FnMiddleware<F> {
    /// The function of the middleware.
    pub closed spec fn function(&self) -> F {
        self.func
    }

    /// Wraps a function as a middleware.
    pub fn new(func: F) -> (middleware: Arc<FnMiddleware<F>>)
        ensures
            middleware.function() == func,
    {
        Arc::new(FnMiddleware { func })
    }

    /// The function of the middleware.
    pub fn get(&self) -> (func: &F)
        ensures
            *func == self.function(),
    {
        &self.func
    }
}

/// Wraps a function as a middleware.
pub fn from_fn<F>(f: F) -> (middleware: Arc<FnMiddleware<F>>)
    ensures
        middleware.function() == f,
{
    FnMiddleware::new(f)
}

} // verus!
