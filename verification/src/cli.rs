use vstd::prelude::*;

use crate::workflow::{Action, Workflow};

verus! {

// The tool's top level: one command family, dispatched to the workflow
// it names.

/// The top-level command.
#[derive(Debug)]
pub enum Command {
    /// The installable-package commands.
    Apk(crate::workflow::Command),
}

/// Starts the workflow of the given command: the dispatch is one-to-one.
pub fn run_command(command: Command) -> (r: (Workflow, Action))
    ensures
        ({
            let (w, a) = r;
            &&& a is FetchProjectMetadata
            &&& w.wf()
            &&& match command {
                Command::Apk(c) => match c {
                    crate::workflow::Command::Build(opts) => w matches
                        Workflow::FetchingMetadata { options, install } && options == opts
                        && !install,
                    crate::workflow::Command::Install(opts) => w matches
                        Workflow::FetchingMetadata { options, install } && options == opts
                        && install,
                },
            }
        }),
{
    match command {
        Command::Apk(c) => c.run(),
    }
}

} // verus!
