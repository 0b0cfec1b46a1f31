//! The whole run: an optional synchronization, then the watch.
//!
//! A pipeline holds the paths it was started with and the stage it is in.
//! The driver runs the machine of the stage to its end and reports how it
//! ended; the pipeline then moves on. A synchronization that fails is logged
//! and followed by the watch all the same.

use vstd::prelude::*;
use vstd::string::*;
use crate::options::SyncOptions;
use crate::record::{entries, entry_of, error_entry, info_entry, prefixed, LogEntry, LogRecord};
use crate::sync::{SyncError, SyncFailure, SyncStage, SyncState, Synchronizer};
use crate::watch::{WatchError, WatchFailure, WatchStage, WatchState, Watcher};

verus! {

/// The two directories that the program is started with.
#[derive(Debug, PartialEq, Eq)]
pub struct Cli {
    /// Where to find emulator files locally.
    pub local_emulation_directory: String,
    /// Where to find emulator files on the network.
    pub network_emulation_directory: String,
}

/// The message that names the program and its version at start-up.
pub open spec fn startup_text(name: Seq<char>, version: Seq<char>) -> Seq<char> {
    "starting up "@ + name + " "@ + version
}

/// The message that names the local directory.
pub open spec fn local_location_text(directory: Seq<char>) -> Seq<char> {
    "local emulation directory: "@ + directory
}

/// The message that names the network directory.
pub open spec fn network_location_text(directory: Seq<char>) -> Seq<char> {
    "network emulation directory: "@ + directory
}

/// The message logged before a synchronization begins.
pub open spec fn sync_start_text() -> Seq<char> {
    "syncing network emulation directory with the local emulation directory structure"@
}

/// The message logged when a synchronization gave up.
pub open spec fn sync_failure_text(failure: SyncFailure) -> Seq<char> {
    "directory sync error: "@ + SyncError::text(failure)
}

/// The message logged when the watch ended.
pub open spec fn watch_failure_text(failure: WatchFailure) -> Seq<char> {
    "error: "@ + WatchError::text(failure)
}

/// The start-up banner: the program's name and version.
pub fn log_app_name_and_version(name: &str, version: &str) -> (record: LogRecord)
    ensures
        record@ == info_entry(startup_text(name@, version@)),
{
    let mut message = String::from_str("starting up ");
    message.append(name);
    message.append(" ");
    message.append(version);
    LogRecord::info(message)
}

/// The two records that name the directories of a run: the local one, then
/// the network one.
pub fn log_emulation_locations(cli: &Cli) -> (records: Vec<LogRecord>)
    ensures
        entries(records@) == seq![
            info_entry(local_location_text(cli.local_emulation_directory@)),
            info_entry(network_location_text(cli.network_emulation_directory@)),
        ],
{
    let local = prefixed("local emulation directory: ", cli.local_emulation_directory.as_str());
    let network = prefixed(
        "network emulation directory: ",
        cli.network_emulation_directory.as_str(),
    );
    let mut records: Vec<LogRecord> = Vec::new();
    records.push(LogRecord::info(local));
    records.push(LogRecord::info(network));
    proof {
        assert(entries(records@) =~= seq![
            info_entry(local_location_text(cli.local_emulation_directory@)),
            info_entry(network_location_text(cli.network_emulation_directory@)),
        ]);
    }
    records
}

/// Where a run stands.
#[derive(Clone, Copy, Debug, PartialEq, Eq, Structural)]
pub enum Stage {
    /// The local directory is to be mirrored onto the network directory.
    Sync,
    /// The network directory is to be watched.
    Watch,
    /// Nothing is left to do.
    Exit,
}

/// How the machine of a stage ended.
#[derive(Debug, PartialEq, Eq)]
pub enum StageEnd {
    /// The synchronization ended with this result.
    Synced(Result<(), SyncError>),
    /// The watch ended for this reason.
    Watched(WatchError),
}

/// The mathematical content of a [`StageEnd`].
pub ghost enum StageResult {
    Synced(Result<(), SyncFailure>),
    Watched(WatchFailure),
}

impl View for StageEnd {
    type V = StageResult;

    open spec fn view(&self) -> StageResult {
        match self {
            StageEnd::Synced(Ok(_)) => StageResult::Synced(Ok(())),
            StageEnd::Synced(Err(e)) => StageResult::Synced(Err(e@)),
            StageEnd::Watched(e) => StageResult::Watched(e@),
        }
    }
}

/// The state of a run.
pub ghost struct PipelineState {
    pub local: Seq<char>,
    pub network: Seq<char>,
    pub stage: Stage,
}

/// The stage that follows `stage` when its machine has ended with `end`.
/// After a synchronization comes the watch, whatever the result; after the
/// watch, the exit. An end that is not that of the stage changes nothing.
pub open spec fn next_pipeline_stage(stage: Stage, end: StageResult) -> Stage {
    match (stage, end) {
        (Stage::Sync, StageResult::Synced(_)) => Stage::Watch,
        (Stage::Watch, StageResult::Watched(_)) => Stage::Exit,
        _ => stage,
    }
}

/// The state that follows `state` on `end`: only the stage moves.
pub open spec fn pipeline_next(state: PipelineState, end: StageResult) -> PipelineState {
    PipelineState { stage: next_pipeline_stage(state.stage, end), ..state }
}

/// The log entry that the end of a stage gives rise to: the failure of the
/// synchronization, or the reason why the watch ended.
pub open spec fn pipeline_output(state: PipelineState, end: StageResult) -> Option<LogEntry> {
    match (state.stage, end) {
        (Stage::Sync, StageResult::Synced(Err(failure))) => Some(
            error_entry(sync_failure_text(failure)),
        ),
        (Stage::Watch, StageResult::Watched(failure)) => Some(
            error_entry(watch_failure_text(failure)),
        ),
        _ => None,
    }
}

/// A run of the program.
pub struct Pipeline {
    local: String,
    network: String,
    stage: Stage,
}

impl View for Pipeline {
    type V = PipelineState;

    closed spec fn view(&self) -> PipelineState {
        PipelineState { local: self.local@, network: self.network@, stage: self.stage }
    }
}

impl Pipeline {
    /// The run that mirrors the local directory onto the network directory
    /// and then watches the network directory.
    pub fn mirror_and_watch(cli: Cli) -> (p: Pipeline)
        ensures
            p@ == (PipelineState {
                local: cli.local_emulation_directory@,
                network: cli.network_emulation_directory@,
                stage: Stage::Sync,
            }),
    {
        Pipeline {
            local: cli.local_emulation_directory,
            network: cli.network_emulation_directory,
            stage: Stage::Sync,
        }
    }

    /// The run that only watches the network directory.
    pub fn watch_only(network_location: String) -> (p: Pipeline)
        ensures
            p@ == (PipelineState {
                local: Seq::empty(),
                network: network_location@,
                stage: Stage::Watch,
            }),
    {
        Pipeline { local: String::new(), network: network_location, stage: Stage::Watch }
    }

    /// Where the run stands.
    pub fn stage(&self) -> (s: Stage)
        ensures
            s == self@.stage,
    {
        self.stage
    }

    /// In the `Sync` stage, the record that announces the synchronization
    /// and the machine that carries it out: from the local directory into
    /// the network directory, under the mirror options. In any other stage,
    /// nothing.
    pub fn begin_sync(&self) -> (r: Option<(LogRecord, Synchronizer)>)
        ensures
            match r {
                Some((record, machine)) => {
                    &&& self@.stage == Stage::Sync
                    &&& record@ == info_entry(sync_start_text())
                    &&& machine@ == (SyncState {
                        options: SyncOptions::mirror_options(),
                        source: self@.local,
                        destination: self@.network,
                        stage: SyncStage::Probe,
                    })
                },
                None => self@.stage != Stage::Sync,
            },
    {
        match self.stage {
            Stage::Sync => {
                let record = LogRecord::info(
                    String::from_str(
                        "syncing network emulation directory with the local emulation directory structure",
                    ),
                );
                let machine = Synchronizer::new(
                    SyncOptions::mirror(),
                    self.local.clone(),
                    self.network.clone(),
                );
                Some((record, machine))
            },
            _ => None,
        }
    }

    /// In the `Watch` stage, the machine that watches the network directory.
    /// In any other stage, nothing.
    pub fn begin_watch(&self) -> (r: Option<Watcher>)
        ensures
            match r {
                Some(machine) => {
                    &&& self@.stage == Stage::Watch
                    &&& machine@ == (WatchState { root: self@.network, stage: WatchStage::Init })
                },
                None => self@.stage != Stage::Watch,
            },
    {
        match self.stage {
            Stage::Watch => Some(Watcher::new(self.network.clone())),
            _ => None,
        }
    }

    /// Takes in how the machine of the stage ended, moves to the next stage,
    /// and returns the record to log, if the end calls for one.
    pub fn step(&mut self, end: StageEnd) -> (record: Option<LogRecord>)
        ensures
            final(self)@ == pipeline_next(old(self)@, end@),
            entry_of(record) == pipeline_output(old(self)@, end@),
    {
        match end {
            StageEnd::Synced(result) => match self.stage {
                Stage::Sync => {
                    self.stage = Stage::Watch;
                    match result {
                        Ok(_) => None,
                        Err(e) => Some(
                            LogRecord::error(
                                prefixed("directory sync error: ", e.describe().as_str()),
                            ),
                        ),
                    }
                },
                _ => None,
            },
            StageEnd::Watched(e) => match self.stage {
                Stage::Watch => {
                    self.stage = Stage::Exit;
                    Some(LogRecord::error(prefixed("error: ", e.describe().as_str())))
                },
                _ => None,
            },
        }
    }
}

/// However a synchronization ends, the run goes on to the watch.
pub proof fn lemma_watch_follows_sync(state: PipelineState, result: Result<(), SyncFailure>)
    requires
        state.stage == Stage::Sync,
    ensures
        pipeline_next(state, StageResult::Synced(result)).stage == Stage::Watch,
        pipeline_next(state, StageResult::Synced(result)).network == state.network,
{
}

} // verus!
