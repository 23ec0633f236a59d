//! The run configuration handed to the block-streaming engine.
use vstd::prelude::*;

use crate::finality::{finality_of, resolve_finality, ChainFinality, FinalityArg};
use crate::sync_point::{
    first_step, probed_start, start_mode_of, BlockArgs, ResolveStep, ResolvedStartPoint,
    SyncModeEnum, SyncModeSubCommand,
};

verus! {

/// How many block fetches may be in flight at once; never zero.
///
/// Two or more are allowed, but may lead to ordering warnings between
/// transactions and receipts of different blocks.
#[derive(Debug, Clone, Copy, PartialEq, Eq)]
pub struct ConcurrencyLevel {
    value: u16,
}

impl ConcurrencyLevel {
    #[verifier::type_invariant]
    spec fn positive(self) -> bool {
        self.value >= 1
    }

    /// The level, or `None` for zero, which is no level.
    pub fn new(value: u16) -> (r: Option<ConcurrencyLevel>)
        ensures
            r is Some <==> value >= 1,
            r matches Some(c) ==> c@ == value,
    {
        if value == 0 {
            None
        } else {
            Some(ConcurrencyLevel { value })
        }
    }

    /// The number of fetches allowed in flight, at least one.
    pub fn get(&self) -> (r: u16)
        ensures
            r == self@,
            r >= 1,
    {
        proof {
            use_type_invariant(self);
        }
        self.value
    }
}

impl View for ConcurrencyLevel {
    type V = u16;

    closed spec fn view(&self) -> u16 {
        self.value
    }
}

/// Whether streaming waits for the node to be fully synced.
#[derive(Debug, Clone, Copy, PartialEq, Eq, Structural)]
pub enum AwaitForNodeSyncedEnum {
    WaitForFullSync,
    StreamWhileSyncing,
}

/// The await policy that the stream-while-syncing flag selects.
pub open spec fn await_policy_of(stream_while_syncing: bool) -> AwaitForNodeSyncedEnum {
    if stream_while_syncing {
        AwaitForNodeSyncedEnum::StreamWhileSyncing
    } else {
        AwaitForNodeSyncedEnum::WaitForFullSync
    }
}

/// Settings of an indexing run, as the user gave them.
#[derive(Debug, Clone, Copy, PartialEq, Eq)]
pub struct RunArgs {
    /// Stream while the node is still syncing.
    pub stream_while_syncing: bool,
    /// Validate the genesis file before starting.
    pub validate_genesis: bool,
    /// Bound on block fetches in flight.
    pub concurrency: ConcurrencyLevel,
    /// Where the run starts.
    pub sync_mode: SyncModeSubCommand,
    /// Finality of the blocks streamed.
    pub finality: FinalityArg,
}

/// Configuration of one indexing run; built once, then only read.
#[derive(Debug, Clone, PartialEq, Eq)]
pub struct RunConfiguration {
    pub home_dir: String,
    pub sync_mode: SyncModeEnum,
    pub await_for_node_synced: AwaitForNodeSyncedEnum,
    pub finality: ChainFinality,
    pub validate_genesis: bool,
    pub concurrency: ConcurrencyLevel,
}

/// The value of a run configuration.
pub struct RunConfigurationView {
    pub home_dir: Seq<char>,
    pub sync_mode: SyncModeEnum,
    pub await_for_node_synced: AwaitForNodeSyncedEnum,
    pub finality: ChainFinality,
    pub validate_genesis: bool,
    pub concurrency: u16,
}

impl View for RunConfiguration {
    type V = RunConfigurationView;

    open spec fn view(&self) -> RunConfigurationView {
        RunConfigurationView {
            home_dir: self.home_dir@,
            sync_mode: self.sync_mode,
            await_for_node_synced: self.await_for_node_synced,
            finality: self.finality,
            validate_genesis: self.validate_genesis,
            concurrency: self.concurrency@,
        }
    }
}

/// The configuration that `build` assembles from its inputs.
pub open spec fn run_configuration_of(
    home_dir: Seq<char>,
    start: ResolvedStartPoint,
    finality: FinalityArg,
    await_for_node_synced: AwaitForNodeSyncedEnum,
    validate_genesis: bool,
    concurrency: u16,
) -> RunConfigurationView {
    RunConfigurationView {
        home_dir,
        sync_mode: start_mode_of(start),
        await_for_node_synced,
        finality: finality_of(finality),
        validate_genesis,
        concurrency,
    }
}

/// The start height that a sync mode fixes, if it fixes one.
pub open spec fn sync_point_of(mode: SyncModeEnum) -> Option<u64> {
    match mode {
        SyncModeEnum::BlockHeight(h) => Some(h),
        SyncModeEnum::FromInterruption => None,
    }
}

/// Assembles a run configuration from a start point resolved beforehand. No
/// combination of finality and start point is refused, and the concurrency
/// level is positive by its type, so this cannot fail.
pub fn build(
    home_dir: String,
    start: ResolvedStartPoint,
    finality: FinalityArg,
    await_for_node_synced: AwaitForNodeSyncedEnum,
    validate_genesis: bool,
    concurrency: ConcurrencyLevel,
) -> (r: RunConfiguration)
    ensures
        r@ == run_configuration_of(
            home_dir@,
            start,
            finality,
            await_for_node_synced,
            validate_genesis,
            concurrency@,
        ),
{
    RunConfiguration {
        home_dir,
        sync_mode: SyncModeEnum::from(start),
        await_for_node_synced,
        finality: resolve_finality(finality),
        validate_genesis,
        concurrency,
    }
}

impl RunConfiguration {
    /// The literal start height, or `None` where the run resumes from the
    /// engine's persisted progress marker.
    pub fn sync_point(&self) -> (r: Option<u64>)
        ensures
            r == sync_point_of(self.sync_mode),
    {
        match self.sync_mode {
            SyncModeEnum::BlockHeight(h) => Some(h),
            SyncModeEnum::FromInterruption => None,
        }
    }
}

impl RunArgs {
    /// The await policy these settings select.
    pub fn await_policy(&self) -> (r: AwaitForNodeSyncedEnum)
        ensures
            r == await_policy_of(self.stream_while_syncing),
    {
        if self.stream_while_syncing {
            AwaitForNodeSyncedEnum::StreamWhileSyncing
        } else {
            AwaitForNodeSyncedEnum::WaitForFullSync
        }
    }

    /// The configuration of a run with these settings that starts at `start`,
    /// the start point that resolving `self.sync_mode` gave.
    pub fn to_indexer_config(&self, home_dir: String, start: ResolvedStartPoint) -> (r:
        RunConfiguration)
        ensures
            r@ == run_configuration_of(
                home_dir@,
                start,
                self.finality,
                await_policy_of(self.stream_while_syncing),
                self.validate_genesis,
                self.concurrency@,
            ),
    {
        build(
            home_dir,
            start,
            self.finality,
            self.await_policy(),
            self.validate_genesis,
            self.concurrency,
        )
    }
}

/// Building is a function of its inputs: two configurations built from the
/// same inputs are equal.
pub proof fn lemma_build_deterministic(
    a: RunConfiguration,
    b: RunConfiguration,
    home_dir: Seq<char>,
    start: ResolvedStartPoint,
    finality: FinalityArg,
    await_for_node_synced: AwaitForNodeSyncedEnum,
    validate_genesis: bool,
    concurrency: u16,
)
    requires
        a@ == run_configuration_of(
            home_dir,
            start,
            finality,
            await_for_node_synced,
            validate_genesis,
            concurrency,
        ),
        b@ == run_configuration_of(
            home_dir,
            start,
            finality,
            await_for_node_synced,
            validate_genesis,
            concurrency,
        ),
    ensures
        a@ == b@,
{
}

/// In the latest-block mode, a configuration built from the resolved start
/// point starts at exactly the height that the chain-head query reported.
pub proof fn lemma_latest_config_starts_at_probed_height(
    home_dir: Seq<char>,
    height: u64,
    finality: FinalityArg,
    await_for_node_synced: AwaitForNodeSyncedEnum,
    validate_genesis: bool,
    concurrency: u16,
)
    ensures
        first_step(SyncModeSubCommand::SyncFromLatest) == ResolveStep::Probe(ChainFinality::Final),
        probed_start(Ok(height)) matches Ok(start) && sync_point_of(
            run_configuration_of(
                home_dir,
                start,
                finality,
                await_for_node_synced,
                validate_genesis,
                concurrency,
            ).sync_mode,
        ) == Some(height),
{
}

/// A configuration built from an explicit block height starts at that height.
pub proof fn lemma_block_config_starts_at_height(
    home_dir: Seq<char>,
    height: u64,
    finality: FinalityArg,
    await_for_node_synced: AwaitForNodeSyncedEnum,
    validate_genesis: bool,
    concurrency: u16,
)
    ensures
        first_step(SyncModeSubCommand::SyncFromBlock(BlockArgs { height })) matches ResolveStep::Resolved(start)
            && sync_point_of(
            run_configuration_of(
                home_dir,
                start,
                finality,
                await_for_node_synced,
                validate_genesis,
                concurrency,
            ).sync_mode,
        ) == Some(height),
{
}

} // verus!
