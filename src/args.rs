use vstd::prelude::*;

verus! {

/// Which stored setting an `update` command changes.
#[derive(Clone, Copy, Debug, PartialEq, Eq, Structural)]
pub enum UpdateCommand {
    Username,
    Password,
    Port,
    Host,
}

/// Which stored setting a `reset` command clears.
#[derive(Clone, Copy, Debug, PartialEq, Eq, Structural)]
pub enum ResetCommand {
    Domain,
    Entry,
    IP,
    Htps,
}

/// A parsed command line verb.
#[allow(inconsistent_fields)]
#[derive(Clone, Copy, Debug, PartialEq, Eq, Structural)]
pub enum Command {
    Serve,
    Stop,
    Start,
    Update { cmd: UpdateCommand },
    Version,
    Reset { cmd: ResetCommand },
}

/// The whole parsed command line.
#[derive(Clone, Copy, Debug, PartialEq, Eq, Structural)]
pub struct Args {
    pub cmd: Command,
}

} // verus!
