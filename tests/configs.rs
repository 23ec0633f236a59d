use near_lake::{
    begin_resolve, complete_resolve, AwaitForNodeSyncedEnum, ChainFinality, ConcurrencyLevel,
    FinalityArg, ResolveStep, ResolvedStartPoint, RunArgs, SyncModeEnum, SyncModeSubCommand,
};

#[test]
fn start_point_conversion() {
    assert_eq!(SyncModeEnum::from(ResolvedStartPoint::Interruption), SyncModeEnum::FromInterruption);
    assert_eq!(SyncModeEnum::from(ResolvedStartPoint::Height(3)), SyncModeEnum::BlockHeight(3));
    assert_eq!(
        SyncModeEnum::from(ResolvedStartPoint::Height(u64::MAX)),
        SyncModeEnum::BlockHeight(u64::MAX)
    );
}

#[test]
fn indexer_config_from_run_args() {
    let run = RunArgs {
        stream_while_syncing: true,
        validate_genesis: true,
        concurrency: ConcurrencyLevel::new(2).unwrap(),
        sync_mode: SyncModeSubCommand::SyncFromLatest,
        finality: FinalityArg::NearFinal,
    };
    assert_eq!(begin_resolve(run.sync_mode), ResolveStep::Probe(ChainFinality::Final));
    let start = complete_resolve(Ok(123_456)).unwrap();
    let config = run.to_indexer_config("/near".to_string(), start);
    assert_eq!(config.home_dir, "/near");
    assert_eq!(config.sync_mode, SyncModeEnum::BlockHeight(123_456));
    assert_eq!(config.sync_point(), Some(123_456));
    assert_eq!(config.await_for_node_synced, AwaitForNodeSyncedEnum::StreamWhileSyncing);
    assert_eq!(config.finality, ChainFinality::DoomSlug);
    assert!(config.validate_genesis);
    assert_eq!(config.concurrency.get(), 2);
}

#[test]
fn await_policy_follows_flag() {
    let mut run = RunArgs {
        stream_while_syncing: false,
        validate_genesis: false,
        concurrency: ConcurrencyLevel::new(1).unwrap(),
        sync_mode: SyncModeSubCommand::SyncFromInterruption,
        finality: FinalityArg::Final,
    };
    assert_eq!(run.await_policy(), AwaitForNodeSyncedEnum::WaitForFullSync);
    run.stream_while_syncing = true;
    assert_eq!(run.await_policy(), AwaitForNodeSyncedEnum::StreamWhileSyncing);
    let config = run.to_indexer_config(String::new(), ResolvedStartPoint::Interruption);
    assert!(!config.validate_genesis);
    assert_eq!(config.finality, ChainFinality::Final);
    assert_eq!(config.sync_point(), None);
}
