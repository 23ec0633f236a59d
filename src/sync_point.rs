//! Resolution of the point from which a run starts streaming blocks.
//!
//! Resolution is a two-step exchange with the caller. `begin_resolve` either
//! settles the start point at once or names the chain-head query that must be
//! made; the caller performs that query and hands its outcome to
//! `complete_resolve`. At most one query is made per decision, and only for
//! the latest-block mode.
use vstd::prelude::*;

use crate::finality::ChainFinality;

verus! {

/// Block height for the block sync mode.
#[derive(Debug, Clone, Copy, PartialEq, Eq, Structural)]
pub struct BlockArgs {
    pub height: u64,
}

/// Where the user asks a run to start.
#[derive(Debug, Clone, Copy, PartialEq, Eq, Structural)]
pub enum SyncModeSubCommand {
    /// Continue from the block the indexer was interrupted at.
    SyncFromInterruption,
    /// Start from the newest final block.
    SyncFromLatest,
    /// Start from the given block height.
    SyncFromBlock(BlockArgs),
}

/// Sync mode as the block-streaming engine takes it. Only a resolved start
/// point becomes one, so the engine is never left to pick the latest block
/// on its own.
#[derive(Debug, Clone, Copy, PartialEq, Eq, Structural)]
pub enum SyncModeEnum {
    /// The engine consults its own persisted last-processed height.
    FromInterruption,
    /// The engine starts at this height.
    BlockHeight(u64),
}

/// A concrete start point: the persisted-progress marker, or a literal height.
#[derive(Debug, Clone, Copy, PartialEq, Eq, Structural)]
pub enum ResolvedStartPoint {
    /// Resume from the progress marker that the streaming engine keeps.
    Interruption,
    /// Start at this block height.
    Height(u64),
}

/// The engine's sync mode for a resolved start point.
pub open spec fn start_mode_of(p: ResolvedStartPoint) -> SyncModeEnum {
    match p {
        ResolvedStartPoint::Interruption => SyncModeEnum::FromInterruption,
        ResolvedStartPoint::Height(h) => SyncModeEnum::BlockHeight(h),
    }
}

impl From<ResolvedStartPoint> for SyncModeEnum {
    fn from(start: ResolvedStartPoint) -> (r: SyncModeEnum)
        ensures
            r == start_mode_of(start),
    {
        match start {
            ResolvedStartPoint::Interruption => SyncModeEnum::FromInterruption,
            ResolvedStartPoint::Height(h) => SyncModeEnum::BlockHeight(h),
        }
    }
}

impl vstd::std_specs::convert::FromSpecImpl<ResolvedStartPoint> for SyncModeEnum {
    open spec fn obeys_from_spec() -> bool {
        true
    }

    open spec fn from_spec(v: ResolvedStartPoint) -> SyncModeEnum {
        start_mode_of(v)
    }
}

/// Why a chain-head query failed.
#[derive(Debug, Clone, Copy, PartialEq, Eq, Structural)]
pub enum ProbeError {
    /// The channel to the chain client is unavailable or closed.
    TransportFailure,
    /// The chain client reported an error for the query.
    ClientRejected,
}

/// Why a start point could not be resolved.
#[derive(Debug, Clone, Copy, PartialEq, Eq, Structural)]
pub enum ResolveError {
    /// The chain-head query of the latest-block mode failed.
    ProbeFailed(ProbeError),
}

/// First step of resolving a sync mode.
#[derive(Debug, Clone, Copy, PartialEq, Eq, Structural)]
pub enum ResolveStep {
    /// The start point is settled; no chain query is needed.
    Resolved(ResolvedStartPoint),
    /// Query the height of the chain head at this finality, then call
    /// `complete_resolve` with the outcome.
    Probe(ChainFinality),
}

/// What resolving a sync mode does first.
pub open spec fn first_step(mode: SyncModeSubCommand) -> ResolveStep {
    match mode {
        SyncModeSubCommand::SyncFromInterruption => ResolveStep::Resolved(
            ResolvedStartPoint::Interruption,
        ),
        SyncModeSubCommand::SyncFromLatest => ResolveStep::Probe(ChainFinality::Final),
        SyncModeSubCommand::SyncFromBlock(args) => ResolveStep::Resolved(
            ResolvedStartPoint::Height(args.height),
        ),
    }
}

/// The start point that a chain-head query outcome gives.
pub open spec fn probed_start(outcome: Result<u64, ProbeError>) -> Result<
    ResolvedStartPoint,
    ResolveError,
> {
    match outcome {
        Ok(h) => Ok(ResolvedStartPoint::Height(h)),
        Err(e) => Err(ResolveError::ProbeFailed(e)),
    }
}

/// Starts resolving a sync mode: settles it, or names the chain-head query
/// to make. The latest-block mode always queries at final finality, whatever
/// finality the run streams with.
pub fn begin_resolve(mode: SyncModeSubCommand) -> (r: ResolveStep)
    ensures
        r == first_step(mode),
{
    match mode {
        SyncModeSubCommand::SyncFromInterruption => ResolveStep::Resolved(
            ResolvedStartPoint::Interruption,
        ),
        SyncModeSubCommand::SyncFromLatest => ResolveStep::Probe(ChainFinality::Final),
        SyncModeSubCommand::SyncFromBlock(args) => ResolveStep::Resolved(
            ResolvedStartPoint::Height(args.height),
        ),
    }
}

/// Finishes resolving the latest-block mode from the outcome of the
/// chain-head query: the reported height, or the failure wrapped.
pub fn complete_resolve(outcome: Result<u64, ProbeError>) -> (r: Result<
    ResolvedStartPoint,
    ResolveError,
>)
    ensures
        r == probed_start(outcome),
{
    match outcome {
        Ok(h) => Ok(ResolvedStartPoint::Height(h)),
        Err(e) => Err(ResolveError::ProbeFailed(e)),
    }
}

/// Starting from an explicit block settles on that very height, with no
/// chain query.
pub proof fn lemma_from_block_resolves_to_height(height: u64)
    ensures
        first_step(SyncModeSubCommand::SyncFromBlock(BlockArgs { height })) == ResolveStep::Resolved(
            ResolvedStartPoint::Height(height),
        ),
{
}

/// The latest-block mode queries the chain head at final finality and starts
/// at exactly the height reported; a failed query fails the resolution with
/// the query's error, so no start point comes out of it.
pub proof fn lemma_latest_uses_final_head(outcome: Result<u64, ProbeError>)
    ensures
        first_step(SyncModeSubCommand::SyncFromLatest) == ResolveStep::Probe(ChainFinality::Final),
        outcome matches Ok(h) ==> probed_start(outcome) == Ok::<ResolvedStartPoint, ResolveError>(
            ResolvedStartPoint::Height(h),
        ),
        outcome matches Err(e) ==> probed_start(outcome) == Err::<ResolvedStartPoint, ResolveError>(
            ResolveError::ProbeFailed(e),
        ),
{
}

/// Resuming from an interruption selects the persisted-progress marker and
/// makes no chain query.
pub proof fn lemma_interruption_never_probes()
    ensures
        first_step(SyncModeSubCommand::SyncFromInterruption) == ResolveStep::Resolved(
            ResolvedStartPoint::Interruption,
        ),
{
}

} // verus!
