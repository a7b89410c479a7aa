//! Routing an operation to the handler bound to it.

use crate::command::AppCommand;
use crate::handler::{Command, Handlers};
use std::sync::Arc;
use vstd::prelude::*;

verus! {

impl AppCommand {
    /// Whether `text` is a help text that the handler bound to this
    /// operation under `H` gives: the postcondition of that handler's
    /// `help`, and of no other's.
    pub open spec fn help_from<H: Handlers>(self, text: String) -> bool {
        match self {
            AppCommand::Add => H::Add::help.ensures((), text),
            AppCommand::Help => H::Help::help.ensures((), text),
            AppCommand::Init => H::Init::help.ensures((), text),
            AppCommand::Install => H::Install::help.ensures((), text),
            AppCommand::Remove => H::Remove::help.ensures((), text),
            AppCommand::Deploy => H::Deploy::help.ensures((), text),
            AppCommand::Clone => H::Clone::help.ensures((), text),
            AppCommand::Create => H::Create::help.ensures((), text),
            AppCommand::Migrate => H::Migrate::help.ensures((), text),
        }
    }

    /// Whether `out` is what the handler bound to this operation under `H`
    /// yields when executed on the shared context `app`: the postcondition
    /// of that handler's `exec`, and of no other's.
    pub open spec fn yielded_by<H: Handlers>(
        self,
        app: Arc<H::Context>,
        out: H::Outcome,
    ) -> bool {
        match self {
            AppCommand::Add => H::Add::exec.ensures((app,), out),
            AppCommand::Help => H::Help::exec.ensures((app,), out),
            AppCommand::Init => H::Init::exec.ensures((app,), out),
            AppCommand::Install => H::Install::exec.ensures((app,), out),
            AppCommand::Remove => H::Remove::exec.ensures((app,), out),
            AppCommand::Deploy => H::Deploy::exec.ensures((app,), out),
            AppCommand::Clone => H::Clone::exec.ensures((app,), out),
            AppCommand::Create => H::Create::exec.ensures((app,), out),
            AppCommand::Migrate => H::Migrate::exec.ensures((app,), out),
        }
    }

    /// The help text of the handler bound to this operation.
    pub fn help<H: Handlers>(&self) -> (text: String)
        ensures
            self.help_from::<H>(text),
            text@.len() > 0,
    {
        match self {
            AppCommand::Add => H::Add::help(),
            AppCommand::Help => H::Help::help(),
            AppCommand::Init => H::Init::help(),
            AppCommand::Install => H::Install::help(),
            AppCommand::Remove => H::Remove::help(),
            AppCommand::Deploy => H::Deploy::help(),
            AppCommand::Clone => H::Clone::help(),
            AppCommand::Create => H::Create::help(),
            AppCommand::Migrate => H::Migrate::help(),
        }
    }

    /// Executes the handler bound to this operation, once, on the shared
    /// context, and hands back what it yielded, unchanged.
    pub fn run<H: Handlers>(&self, app: H::Context) -> (out: H::Outcome)
        ensures
            self.yielded_by::<H>(Arc::new(app), out),
    {
        let shared = Arc::new(app);
        match self {
            AppCommand::Add => H::Add::exec(shared),
            AppCommand::Help => H::Help::exec(shared),
            AppCommand::Init => H::Init::exec(shared),
            AppCommand::Install => H::Install::exec(shared),
            AppCommand::Remove => H::Remove::exec(shared),
            AppCommand::Deploy => H::Deploy::exec(shared),
            AppCommand::Clone => H::Clone::exec(shared),
            AppCommand::Create => H::Create::exec(shared),
            AppCommand::Migrate => H::Migrate::exec(shared),
        }
    }
}

} // verus!
