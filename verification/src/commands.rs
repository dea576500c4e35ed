//! The commands of the command line.

use crate::commands::logs_sync::{sync, LogsSyncArgs, SyncState};
use vstd::prelude::*;

pub mod logs_sync;

verus! {

/// What the `logs` command can do.
#[derive(Debug, Clone)]
pub enum LogsCommand {
    Sync(LogsSyncArgs),
}

/// The commands.
#[derive(Debug, Clone)]
pub enum Commands {
    Logs(LogsCommand),
}

/// A parsed command line.
#[derive(Debug, Clone)]
pub struct Cli {
    pub command: Commands,
}

/// Begins what the command line asks for: the sync whose arguments it holds.
pub fn run(cli: Cli) -> (state: SyncState)
    ensures
        cli.command matches Commands::Logs(LogsCommand::Sync(args)) && state@ == args@.start(),
{
    match cli.command {
        Commands::Logs(LogsCommand::Sync(args)) => sync(args),
    }
}

} // verus!
