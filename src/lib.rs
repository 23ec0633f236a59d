//! Start-point and run-configuration decisions of a block-streaming indexer.
//!
//! The library decides from which block a run resumes, which finality the
//! chain is queried with, and assembles the configuration handed to the
//! streaming engine. Talking to the node is left to the caller: where a
//! decision needs the chain head, the library says which query to make and
//! takes its outcome back as a plain value.

pub mod finality;
pub mod run_config;
pub mod sync_point;

pub use finality::{resolve_finality, ChainFinality, FinalityArg};
pub use run_config::{build, AwaitForNodeSyncedEnum, ConcurrencyLevel, RunArgs, RunConfiguration};
pub use sync_point::{
    begin_resolve, complete_resolve, BlockArgs, ProbeError, ResolveError, ResolveStep,
    ResolvedStartPoint, SyncModeEnum, SyncModeSubCommand,
};
