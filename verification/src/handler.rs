//! What every operation's implementation offers to the dispatcher.

use std::sync::Arc;
use vstd::prelude::*;

verus! {

/// The capability of one operation's handler: a help text, and an execution
/// on the shared run context `Ctx` that yields an `Out`.
///
/// In an asynchronous program `Out` is the future of the handler's result;
/// the dispatcher hands it back untouched, to be awaited by the caller.
pub trait Command<Ctx, Out> {
    /// The help text of this handler. It is never empty.
    fn help() -> (text: String)
        ensures
            text@.len() > 0,
    ;

    /// Executes the handler on the shared context.
    fn exec(app: Arc<Ctx>) -> Out;
}

/// The binding of each of the nine operations to its handler. All handlers
/// share one run context and one kind of outcome.
pub trait Handlers {
    type Context;

    type Outcome;

    type Add: Command<Self::Context, Self::Outcome>;

    type Help: Command<Self::Context, Self::Outcome>;

    type Init: Command<Self::Context, Self::Outcome>;

    type Install: Command<Self::Context, Self::Outcome>;

    type Remove: Command<Self::Context, Self::Outcome>;

    type Deploy: Command<Self::Context, Self::Outcome>;

    type Clone: Command<Self::Context, Self::Outcome>;

    type Create: Command<Self::Context, Self::Outcome>;

    type Migrate: Command<Self::Context, Self::Outcome>;
}

} // verus!
