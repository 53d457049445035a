use vstd::prelude::*;

verus! {

/// The daemon's command line.
#[derive(Debug)]
pub struct Args {
    pub command: Command,
}

/// What the daemon is asked to do.
#[derive(Debug)]
pub enum Command {
    /// Run the daemon with the configuration file at `config`.
    Daemon { config: String },
}

} // verus!
