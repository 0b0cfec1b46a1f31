//! The Tree Synchronizer: a one-shot, non-destructive copy of a source tree
//! into a destination, as a machine that decides and a driver that acts.
//!
//! The machine starts by asking whether the destination exists. The driver
//! looks at [`Synchronizer::phase`], does the work that the phase names,
//! reports what came of it through [`Synchronizer::step`], and writes the
//! record that the step returns, until the phase is `Done`.
//!
//! Progress is measured against the bytes of the files of the source tree.
//! The machine asks for that number once, before the copy pass, and holds it
//! for the whole pass; the pass then reports only how many bytes it has
//! copied.

use vstd::prelude::*;
use vstd::string::*;
use crate::options::SyncOptions;
use crate::progress::{
    lemma_logged_progress_monotone, logged_percentages, one_pass, progress_entries, progress_entry,
    ProgressSample,
};
use crate::record::{entry_of, error_entry, info_entry, prefixed, LogEntry, LogRecord};
use crate::text::chars_of;

verus! {

/// Why a synchronization gave up.
#[derive(Debug, PartialEq, Eq)]
pub enum SyncError {
    /// The destination directory was absent and could not be created.
    CreateFailed { cause: String },
}

/// The mathematical content of a [`SyncError`].
pub ghost enum SyncFailure {
    CreateFailed { cause: Seq<char> },
}

impl View for SyncError {
    type V = SyncFailure;

    open spec fn view(&self) -> SyncFailure {
        match self {
            SyncError::CreateFailed { cause } => SyncFailure::CreateFailed { cause: cause@ },
        }
    }
}

/// What the machine is waiting for; the driver's next piece of work.
#[derive(Debug, PartialEq, Eq)]
pub enum SyncPhase {
    /// Find out whether the destination exists.
    Probe,
    /// Create the destination directory with all its missing ancestors.
    Create,
    /// Add up the sizes of the files of the source tree; a directory counts
    /// for what it holds, not for itself.
    Measure,
    /// Copy the source tree into the destination under the machine's options;
    /// `bytes_total` is what was measured.
    Copy { bytes_total: u64 },
    /// Nothing more; the synchronization ended with this result.
    Done(Result<(), SyncError>),
}

/// The mathematical content of a [`SyncPhase`].
pub ghost enum SyncStage {
    Probe,
    Create,
    Measure,
    Copy { bytes_total: u64 },
    Done(Result<(), SyncFailure>),
}

impl View for SyncPhase {
    type V = SyncStage;

    open spec fn view(&self) -> SyncStage {
        match self {
            SyncPhase::Probe => SyncStage::Probe,
            SyncPhase::Create => SyncStage::Create,
            SyncPhase::Measure => SyncStage::Measure,
            SyncPhase::Copy { bytes_total } => SyncStage::Copy { bytes_total: *bytes_total },
            SyncPhase::Done(Ok(_)) => SyncStage::Done(Ok(())),
            SyncPhase::Done(Err(e)) => SyncStage::Done(Err(e@)),
        }
    }
}

/// What the driver reports to the machine.
#[derive(Debug, PartialEq, Eq)]
pub enum SyncEvent {
    /// Whether the destination exists.
    Probed { present: bool },
    /// How creating the destination went: `None` for success, else the cause.
    Created { error: Option<String> },
    /// What measuring the source tree gave: the bytes of its files, or the
    /// cause of the failure.
    Measured { result: Result<u64, String> },
    /// The running copy pass has copied this many bytes so far.
    Progress { bytes_copied: u64 },
    /// How the copy pass ended: `None` for success, else the cause.
    Copied { error: Option<String> },
}

/// The mathematical content of a [`SyncEvent`].
pub ghost enum SyncInput {
    Probed { present: bool },
    Created { error: Option<Seq<char>> },
    Measured { result: Result<u64, Seq<char>> },
    Progress { bytes_copied: u64 },
    Copied { error: Option<Seq<char>> },
}

impl View for SyncEvent {
    type V = SyncInput;

    open spec fn view(&self) -> SyncInput {
        match self {
            SyncEvent::Probed { present } => SyncInput::Probed { present: *present },
            SyncEvent::Created { error } => SyncInput::Created { error: chars_of(*error) },
            SyncEvent::Measured { result: Ok(bytes) } => SyncInput::Measured { result: Ok(*bytes) },
            SyncEvent::Measured { result: Err(cause) } => SyncInput::Measured {
                result: Err(cause@),
            },
            SyncEvent::Progress { bytes_copied } => SyncInput::Progress {
                bytes_copied: *bytes_copied,
            },
            SyncEvent::Copied { error } => SyncInput::Copied { error: chars_of(*error) },
        }
    }
}

/// The state of a synchronization.
pub ghost struct SyncState {
    pub options: SyncOptions,
    pub source: Seq<char>,
    pub destination: Seq<char>,
    pub stage: SyncStage,
}

/// The message logged before an absent destination is created.
pub open spec fn creating_text(destination: Seq<char>) -> Seq<char> {
    "network emulation directory: "@ + destination + " does not exist, creating"@
}

/// The message logged when measuring or the copy pass fails.
pub open spec fn copy_error_text(cause: Seq<char>) -> Seq<char> {
    "sync directories error: "@ + cause
}

/// The stage that follows `stage` on `input`. An input that does not answer
/// what the stage is waiting for changes nothing.
pub open spec fn next_stage(stage: SyncStage, input: SyncInput) -> SyncStage {
    match (stage, input) {
        (SyncStage::Probe, SyncInput::Probed { present }) => if present {
            SyncStage::Measure
        } else {
            SyncStage::Create
        },
        (SyncStage::Create, SyncInput::Created { error: None }) => SyncStage::Measure,
        (SyncStage::Create, SyncInput::Created { error: Some(cause) }) => SyncStage::Done(
            Err(SyncFailure::CreateFailed { cause }),
        ),
        (SyncStage::Measure, SyncInput::Measured { result: Ok(bytes_total) }) => SyncStage::Copy {
            bytes_total,
        },
        (SyncStage::Measure, SyncInput::Measured { result: Err(_) }) => SyncStage::Done(Ok(())),
        (SyncStage::Copy { .. }, SyncInput::Copied { .. }) => SyncStage::Done(Ok(())),
        _ => stage,
    }
}

/// The state that follows `state` on `input`: only the stage moves.
pub open spec fn sync_next(state: SyncState, input: SyncInput) -> SyncState {
    SyncState { stage: next_stage(state.stage, input), ..state }
}

/// The log entry that `input` gives rise to in `state`: the notice that the
/// destination is being created, a progress line, or the failure of
/// measuring or of the copy pass.
pub open spec fn sync_output(state: SyncState, input: SyncInput) -> Option<LogEntry> {
    match (state.stage, input) {
        (SyncStage::Probe, SyncInput::Probed { present: false }) => Some(
            info_entry(creating_text(state.destination)),
        ),
        (SyncStage::Measure, SyncInput::Measured { result: Err(cause) }) => Some(
            error_entry(copy_error_text(cause)),
        ),
        (SyncStage::Copy { bytes_total }, SyncInput::Progress { bytes_copied }) => progress_entry(
            ProgressSample { bytes_copied, bytes_total },
        ),
        (SyncStage::Copy { .. }, SyncInput::Copied { error: Some(cause) }) => Some(
            error_entry(copy_error_text(cause)),
        ),
        _ => None,
    }
}

impl SyncError {
    /// A copy of this error.
    pub fn duplicate(&self) -> (e: SyncError)
        ensures
            e@ == self@,
    {
        match self {
            SyncError::CreateFailed { cause } => SyncError::CreateFailed { cause: cause.clone() },
        }
    }

    /// The text that describes this error.
    pub open spec fn text(failure: SyncFailure) -> Seq<char> {
        match failure {
            SyncFailure::CreateFailed { cause } => "destination could not be created: "@ + cause,
        }
    }

    /// The text that describes this error, for a log line.
    pub fn describe(&self) -> (s: String)
        ensures
            s@ == Self::text(self@),
    {
        match self {
            SyncError::CreateFailed { cause } => prefixed(
                "destination could not be created: ",
                cause.as_str(),
            ),
        }
    }
}

/// The record of a failed measuring or copy pass.
fn copy_error_record(cause: String) -> (record: LogRecord)
    ensures
        record@ == error_entry(copy_error_text(cause@)),
{
    LogRecord::error(prefixed("sync directories error: ", cause.as_str()))
}

/// The Tree Synchronizer for one source and one destination.
pub struct Synchronizer {
    options: SyncOptions,
    source: String,
    destination: String,
    phase: SyncPhase,
}

impl View for Synchronizer {
    type V = SyncState;

    closed spec fn view(&self) -> SyncState {
        SyncState {
            options: self.options,
            source: self.source@,
            destination: self.destination@,
            stage: self.phase@,
        }
    }
}

impl Synchronizer {
    /// A synchronizer that has done nothing yet: it waits to learn whether
    /// the destination exists.
    pub fn new(options: SyncOptions, source: String, destination: String) -> (s: Synchronizer)
        ensures
            s@ == (SyncState {
                options,
                source: source@,
                destination: destination@,
                stage: SyncStage::Probe,
            }),
    {
        Synchronizer { options, source, destination, phase: SyncPhase::Probe }
    }

    /// The merge policy of the copy pass.
    pub fn options(&self) -> (o: SyncOptions)
        ensures
            o == self@.options,
    {
        self.options
    }

    /// The directory whose contents are copied.
    pub fn source(&self) -> (p: &str)
        ensures
            p@ == self@.source,
    {
        self.source.as_str()
    }

    /// The directory that receives them.
    pub fn destination(&self) -> (p: &str)
        ensures
            p@ == self@.destination,
    {
        self.destination.as_str()
    }

    /// What the machine is waiting for.
    pub fn phase(&self) -> (p: &SyncPhase)
        ensures
            p@ == self@.stage,
    {
        &self.phase
    }

    /// Whether the synchronization has ended.
    pub fn is_done(&self) -> (b: bool)
        ensures
            b == (self@.stage is Done),
    {
        match &self.phase {
            SyncPhase::Done(_) => true,
            _ => false,
        }
    }

    /// The result of the synchronization once it has ended: `Ok` unless the
    /// destination could not be created.
    pub fn outcome(&self) -> (r: Option<Result<(), SyncError>>)
        ensures
            match r {
                Some(Ok(_)) => self@.stage == SyncStage::Done(Ok(())),
                Some(Err(e)) => self@.stage == SyncStage::Done(Err(e@)),
                None => !(self@.stage is Done),
            },
    {
        match &self.phase {
            SyncPhase::Done(Ok(_)) => Some(Ok(())),
            SyncPhase::Done(Err(e)) => Some(Err(e.duplicate())),
            _ => None,
        }
    }

    /// Takes in what the driver reports, moves to the next phase, and returns
    /// the record to log, if the report calls for one.
    pub fn step(&mut self, event: SyncEvent) -> (record: Option<LogRecord>)
        ensures
            final(self)@ == sync_next(old(self)@, event@),
            entry_of(record) == sync_output(old(self)@, event@),
    {
        match event {
            SyncEvent::Probed { present } => match &self.phase {
                SyncPhase::Probe => {
                    if present {
                        self.phase = SyncPhase::Measure;
                        None
                    } else {
                        let mut message = String::from_str("network emulation directory: ");
                        message.append(self.destination.as_str());
                        message.append(" does not exist, creating");
                        self.phase = SyncPhase::Create;
                        Some(LogRecord::info(message))
                    }
                },
                _ => None,
            },
            SyncEvent::Created { error } => match &self.phase {
                SyncPhase::Create => {
                    match error {
                        None => {
                            self.phase = SyncPhase::Measure;
                        },
                        Some(cause) => {
                            self.phase = SyncPhase::Done(Err(SyncError::CreateFailed { cause }));
                        },
                    }
                    None
                },
                _ => None,
            },
            SyncEvent::Measured { result } => match &self.phase {
                SyncPhase::Measure => match result {
                    Ok(bytes_total) => {
                        self.phase = SyncPhase::Copy { bytes_total };
                        None
                    },
                    Err(cause) => {
                        self.phase = SyncPhase::Done(Ok(()));
                        Some(copy_error_record(cause))
                    },
                },
                _ => None,
            },
            SyncEvent::Progress { bytes_copied } => match &self.phase {
                SyncPhase::Copy { bytes_total } => ProgressSample::new(
                    bytes_copied,
                    *bytes_total,
                ).record(),
                _ => None,
            },
            SyncEvent::Copied { error } => match &self.phase {
                SyncPhase::Copy { .. } => {
                    self.phase = SyncPhase::Done(Ok(()));
                    match error {
                        None => None,
                        Some(cause) => Some(copy_error_record(cause)),
                    }
                },
                _ => None,
            },
        }
    }
}

/// The state after a run of inputs, taken in order from `state`.
pub open spec fn sync_run(state: SyncState, inputs: Seq<SyncInput>) -> SyncState
    decreases inputs.len(),
{
    if inputs.len() == 0 {
        state
    } else {
        sync_next(sync_run(state, inputs.drop_last()), inputs.last())
    }
}

/// The entries logged over a run of inputs, taken in order from `state`.
pub open spec fn sync_log(state: SyncState, inputs: Seq<SyncInput>) -> Seq<LogEntry>
    decreases inputs.len(),
{
    if inputs.len() == 0 {
        Seq::empty()
    } else {
        let before = sync_run(state, inputs.drop_last());
        match sync_output(before, inputs.last()) {
            Some(entry) => sync_log(state, inputs.drop_last()).push(entry),
            None => sync_log(state, inputs.drop_last()),
        }
    }
}

/// The reports that a copy pass makes of the bytes it has copied, as inputs
/// of the machine.
pub open spec fn progress_inputs(copied: Seq<u64>) -> Seq<SyncInput> {
    copied.map_values(|bytes_copied: u64| SyncInput::Progress { bytes_copied })
}

/// The samples that the machine forms from such reports while it holds
/// `bytes_total` as the total of the pass.
pub open spec fn pass_samples(copied: Seq<u64>, bytes_total: u64) -> Seq<ProgressSample> {
    copied.map_values(|bytes_copied: u64| ProgressSample { bytes_copied, bytes_total })
}

/// Whatever is reported, the options, the source and the destination of a
/// synchronization stay what they were.
pub proof fn lemma_run_keeps_request(state: SyncState, inputs: Seq<SyncInput>)
    ensures
        sync_run(state, inputs).options == state.options,
        sync_run(state, inputs).source == state.source,
        sync_run(state, inputs).destination == state.destination,
    decreases inputs.len(),
{
    if inputs.len() > 0 {
        lemma_run_keeps_request(state, inputs.drop_last());
    }
}

/// A synchronization that has ended stays ended, with the same result, and
/// logs nothing more.
pub proof fn lemma_done_is_final(state: SyncState, inputs: Seq<SyncInput>)
    requires
        state.stage is Done,
    ensures
        sync_run(state, inputs) == state,
        sync_log(state, inputs) == Seq::<LogEntry>::empty(),
    decreases inputs.len(),
{
    if inputs.len() > 0 {
        lemma_done_is_final(state, inputs.drop_last());
    }
}

/// While the copy pass runs, progress reports leave the machine in the copy
/// phase, and what they log is one entry for each logged sample, in the
/// order of the reports.
pub proof fn lemma_pass_logs_progress(state: SyncState, copied: Seq<u64>)
    requires
        state.stage is Copy,
    ensures
        sync_run(state, progress_inputs(copied)) == state,
        sync_log(state, progress_inputs(copied)) == progress_entries(
            pass_samples(copied, state.stage->bytes_total),
        ),
    decreases copied.len(),
{
    if copied.len() > 0 {
        let total = state.stage->bytes_total;
        let inputs = progress_inputs(copied);
        let rest = copied.drop_last();
        assert(inputs.drop_last() =~= progress_inputs(rest));
        assert(inputs.last() == SyncInput::Progress { bytes_copied: copied.last() });
        assert(pass_samples(copied, total).drop_last() =~= pass_samples(rest, total));
        lemma_pass_logs_progress(state, rest);
    }
}

/// Over one copy pass whose reports of the bytes copied never go down, the
/// whole percents that the machine logs never go down, and each of them is a
/// multiple of ten between 0 and 100.
pub proof fn lemma_pass_progress_monotone(bytes_total: u64, copied: Seq<u64>)
    requires
        forall|i: int, j: int| 0 <= i <= j < copied.len() ==> copied[i] <= copied[j],
    ensures
        ({
            let logged = logged_percentages(pass_samples(copied, bytes_total));
            &&& forall|k: int|
                0 <= k < logged.len() ==> (#[trigger] logged[k]) % 10 == 0 && logged[k] <= 100
            &&& forall|k: int, l: int| 0 <= k <= l < logged.len() ==> logged[k] <= logged[l]
        }),
{
    let samples = pass_samples(copied, bytes_total);
    assert(one_pass(samples));
    lemma_logged_progress_monotone(samples);
}

/// However measuring or the copy pass ends, the synchronization ends with
/// `Ok`: a failure there is logged and does not fail the synchronization.
pub proof fn lemma_copy_failure_is_not_fatal(state: SyncState, cause: Seq<char>)
    ensures
        state.stage is Copy ==> {
            let input = SyncInput::Copied { error: Some(cause) };
            &&& sync_next(state, input).stage == SyncStage::Done(Ok(()))
            &&& sync_output(state, input) == Some(error_entry(copy_error_text(cause)))
        },
        state.stage is Measure ==> {
            let input = SyncInput::Measured { result: Err(cause) };
            &&& sync_next(state, input).stage == SyncStage::Done(Ok(()))
            &&& sync_output(state, input) == Some(error_entry(copy_error_text(cause)))
        },
{
}

/// Whether an input reports that the destination is there: found by the
/// probe, or created.
pub open spec fn shows_destination(input: SyncInput) -> bool {
    input == (SyncInput::Probed { present: true }) || input == (SyncInput::Created {
        error: None,
    })
}

/// Nothing is measured or copied before the destination is there, and a
/// synchronization fails only when creating the destination failed: in every
/// run of a new synchronizer that has reached measuring or the copy pass,
/// the destination was reported found or created; in every run that has
/// ended with a failure, a creation was reported failed with that cause.
pub proof fn lemma_copies_only_into_a_destination(state: SyncState, inputs: Seq<SyncInput>)
    requires
        state.stage == SyncStage::Probe,
    ensures
        ({
            let end = sync_run(state, inputs).stage;
            &&& end is Measure || end is Copy ==> exists|i: int|
                0 <= i < inputs.len() && shows_destination(#[trigger] inputs[i])
            &&& end matches SyncStage::Done(Err(SyncFailure::CreateFailed { cause }))
                ==> exists|i: int|
                0 <= i < inputs.len() && #[trigger] inputs[i] == (SyncInput::Created {
                    error: Some(cause),
                })
        }),
    decreases inputs.len(),
{
    if inputs.len() > 0 {
        let rest = inputs.drop_last();
        let last = inputs.len() - 1;
        lemma_copies_only_into_a_destination(state, rest);
        let before = sync_run(state, rest).stage;
        let after = sync_run(state, inputs).stage;
        if after is Measure || after is Copy {
            if before is Measure || before is Copy {
                let i = choose|i: int| 0 <= i < rest.len() && shows_destination(#[trigger] rest[i]);
                assert(shows_destination(inputs[i]));
            } else {
                assert(shows_destination(inputs[last]));
            }
        }
        if let SyncStage::Done(Err(SyncFailure::CreateFailed { cause })) = after {
            if before == after {
                let i = choose|i: int|
                    0 <= i < rest.len() && #[trigger] rest[i] == (SyncInput::Created {
                        error: Some(cause),
                    });
                assert(inputs[i] == rest[i]);
            } else {
                assert(inputs[last] == (SyncInput::Created { error: Some(cause) }));
            }
        }
    }
}

} // verus!
