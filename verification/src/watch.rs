//! The Change Watcher: a recursive watch on one root whose observations are
//! logged one by one, as a machine that decides and a driver that acts.
//!
//! The driver looks at [`Watcher::phase`], does the work that the phase
//! names, reports what came of it through [`Watcher::step`], and writes the
//! record that the step returns, until the phase is `Ended`.

use vstd::prelude::*;
use vstd::string::*;
use crate::event::{change_text, Change, ChangeEvent};
use crate::record::{entry_of, error_entry, info_entry, prefixed, LogEntry, LogRecord};
use crate::text::chars_of;

verus! {

/// How many undelivered observations the channel between the back-end and
/// the consumption loop may hold.
pub const CHANNEL_CAPACITY: usize = 1;

/// Whether the watch covers everything below the root, not the root alone.
pub const RECURSIVE: bool = true;

/// Why a watch ended.
#[derive(Debug, PartialEq, Eq)]
pub enum WatchError {
    /// The watch back-end could not be set up.
    InitFailed { cause: String },
    /// The back-end could not subscribe to the root.
    SubscribeFailed { cause: String },
    /// The producer side of the channel is gone.
    ChannelClosed,
}

/// The mathematical content of a [`WatchError`].
pub ghost enum WatchFailure {
    InitFailed { cause: Seq<char> },
    SubscribeFailed { cause: Seq<char> },
    ChannelClosed,
}

impl View for WatchError {
    type V = WatchFailure;

    open spec fn view(&self) -> WatchFailure {
        match self {
            WatchError::InitFailed { cause } => WatchFailure::InitFailed { cause: cause@ },
            WatchError::SubscribeFailed { cause } => WatchFailure::SubscribeFailed {
                cause: cause@,
            },
            WatchError::ChannelClosed => WatchFailure::ChannelClosed,
        }
    }
}

/// What the machine is waiting for; the driver's next piece of work.
#[derive(Debug, PartialEq, Eq)]
pub enum WatchPhase {
    /// Set up the back-end and the channel of capacity [`CHANNEL_CAPACITY`].
    Init,
    /// Subscribe to the root, recursively.
    Subscribe,
    /// Await the next item from the channel.
    Receive,
    /// Nothing more; the watch ended for this reason.
    Ended(WatchError),
}

/// The mathematical content of a [`WatchPhase`].
pub ghost enum WatchStage {
    Init,
    Subscribe,
    Receive,
    Ended(WatchFailure),
}

impl View for WatchPhase {
    type V = WatchStage;

    open spec fn view(&self) -> WatchStage {
        match self {
            WatchPhase::Init => WatchStage::Init,
            WatchPhase::Subscribe => WatchStage::Subscribe,
            WatchPhase::Receive => WatchStage::Receive,
            WatchPhase::Ended(e) => WatchStage::Ended(e@),
        }
    }
}

/// What the driver reports to the machine.
#[derive(Debug, PartialEq, Eq)]
pub enum WatchEvent {
    /// How setting up the back-end went: `None` for success, else the cause.
    Initialized { error: Option<String> },
    /// How subscribing went: `None` for success, else the cause.
    Subscribed { error: Option<String> },
    /// The channel delivered an observation.
    Changed { event: ChangeEvent },
    /// The channel delivered the failure of one observation.
    Failed { cause: String },
    /// The channel is closed.
    Closed,
}

/// The mathematical content of a [`WatchEvent`].
pub ghost enum WatchInput {
    Initialized { error: Option<Seq<char>> },
    Subscribed { error: Option<Seq<char>> },
    Changed { change: Change },
    Failed { cause: Seq<char> },
    Closed,
}

impl View for WatchEvent {
    type V = WatchInput;

    open spec fn view(&self) -> WatchInput {
        match self {
            WatchEvent::Initialized { error } => WatchInput::Initialized {
                error: chars_of(*error),
            },
            WatchEvent::Subscribed { error } => WatchInput::Subscribed { error: chars_of(*error) },
            WatchEvent::Changed { event } => WatchInput::Changed { change: event@ },
            WatchEvent::Failed { cause } => WatchInput::Failed { cause: cause@ },
            WatchEvent::Closed => WatchInput::Closed,
        }
    }
}

/// The state of a watch.
pub ghost struct WatchState {
    pub root: Seq<char>,
    pub stage: WatchStage,
}

/// The message logged when the back-end is set up and the watch begins.
pub open spec fn starting_text() -> Seq<char> {
    "starting network emulation directory watcher..."@
}

/// The message logged when one observation failed.
pub open spec fn watch_error_text(cause: Seq<char>) -> Seq<char> {
    "watch error: "@ + cause
}

/// The stage that follows `stage` on `input`. An input that does not answer
/// what the stage is waiting for changes nothing.
pub open spec fn next_watch_stage(stage: WatchStage, input: WatchInput) -> WatchStage {
    match (stage, input) {
        (WatchStage::Init, WatchInput::Initialized { error: None }) => WatchStage::Subscribe,
        (WatchStage::Init, WatchInput::Initialized { error: Some(cause) }) => WatchStage::Ended(
            WatchFailure::InitFailed { cause },
        ),
        (WatchStage::Subscribe, WatchInput::Subscribed { error: None }) => WatchStage::Receive,
        (WatchStage::Subscribe, WatchInput::Subscribed { error: Some(cause) }) => WatchStage::Ended(
            WatchFailure::SubscribeFailed { cause },
        ),
        (WatchStage::Receive, WatchInput::Closed) => WatchStage::Ended(WatchFailure::ChannelClosed),
        _ => stage,
    }
}

/// The state that follows `state` on `input`: only the stage moves.
pub open spec fn watch_next(state: WatchState, input: WatchInput) -> WatchState {
    WatchState { stage: next_watch_stage(state.stage, input), ..state }
}

/// The log entry that `input` gives rise to in `state`: the notice that the
/// watch begins, a change, or the failure of one observation.
pub open spec fn watch_output(state: WatchState, input: WatchInput) -> Option<LogEntry> {
    match (state.stage, input) {
        (WatchStage::Init, WatchInput::Initialized { error: None }) => Some(
            info_entry(starting_text()),
        ),
        (WatchStage::Receive, WatchInput::Changed { change }) => Some(
            info_entry(change_text(change)),
        ),
        (WatchStage::Receive, WatchInput::Failed { cause }) => Some(
            error_entry(watch_error_text(cause)),
        ),
        _ => None,
    }
}

impl WatchError {
    /// The text that describes a failure.
    pub open spec fn text(failure: WatchFailure) -> Seq<char> {
        match failure {
            WatchFailure::InitFailed { cause } => "watcher could not be started: "@ + cause,
            WatchFailure::SubscribeFailed { cause } => "directory could not be watched: "@ + cause,
            WatchFailure::ChannelClosed => "watch channel closed"@,
        }
    }

    /// A copy of this error.
    pub fn duplicate(&self) -> (e: WatchError)
        ensures
            e@ == self@,
    {
        match self {
            WatchError::InitFailed { cause } => WatchError::InitFailed { cause: cause.clone() },
            WatchError::SubscribeFailed { cause } => WatchError::SubscribeFailed {
                cause: cause.clone(),
            },
            WatchError::ChannelClosed => WatchError::ChannelClosed,
        }
    }

    /// The text that describes this error, for a log line.
    pub fn describe(&self) -> (s: String)
        ensures
            s@ == Self::text(self@),
    {
        match self {
            WatchError::InitFailed { cause } => prefixed(
                "watcher could not be started: ",
                cause.as_str(),
            ),
            WatchError::SubscribeFailed { cause } => prefixed(
                "directory could not be watched: ",
                cause.as_str(),
            ),
            WatchError::ChannelClosed => String::from_str("watch channel closed"),
        }
    }
}

/// The Change Watcher for one root.
pub struct Watcher {
    root: String,
    phase: WatchPhase,
}

impl View for Watcher {
    type V = WatchState;

    closed spec fn view(&self) -> WatchState {
        WatchState { root: self.root@, stage: self.phase@ }
    }
}

impl Watcher {
    /// A watcher that has done nothing yet: it waits for the back-end to be
    /// set up.
    pub fn new(root: String) -> (w: Watcher)
        ensures
            w@ == (WatchState { root: root@, stage: WatchStage::Init }),
    {
        Watcher { root, phase: WatchPhase::Init }
    }

    /// The directory that is watched.
    pub fn root(&self) -> (p: &str)
        ensures
            p@ == self@.root,
    {
        self.root.as_str()
    }

    /// What the machine is waiting for.
    pub fn phase(&self) -> (p: &WatchPhase)
        ensures
            p@ == self@.stage,
    {
        &self.phase
    }

    /// Why the watch ended, once it has.
    pub fn failure(&self) -> (r: Option<WatchError>)
        ensures
            match r {
                Some(e) => self@.stage == WatchStage::Ended(e@),
                None => !(self@.stage is Ended),
            },
    {
        match &self.phase {
            WatchPhase::Ended(e) => Some(e.duplicate()),
            _ => None,
        }
    }

    /// Takes in what the driver reports, moves to the next phase, and returns
    /// the record to log, if the report calls for one.
    pub fn step(&mut self, event: WatchEvent) -> (record: Option<LogRecord>)
        ensures
            final(self)@ == watch_next(old(self)@, event@),
            entry_of(record) == watch_output(old(self)@, event@),
    {
        match event {
            WatchEvent::Initialized { error } => match &self.phase {
                WatchPhase::Init => match error {
                    None => {
                        self.phase = WatchPhase::Subscribe;
                        Some(
                            LogRecord::info(
                                String::from_str("starting network emulation directory watcher..."),
                            ),
                        )
                    },
                    Some(cause) => {
                        self.phase = WatchPhase::Ended(WatchError::InitFailed { cause });
                        None
                    },
                },
                _ => None,
            },
            WatchEvent::Subscribed { error } => match &self.phase {
                WatchPhase::Subscribe => {
                    match error {
                        None => {
                            self.phase = WatchPhase::Receive;
                        },
                        Some(cause) => {
                            self.phase = WatchPhase::Ended(WatchError::SubscribeFailed { cause });
                        },
                    }
                    None
                },
                _ => None,
            },
            WatchEvent::Changed { event } => match &self.phase {
                WatchPhase::Receive => Some(LogRecord::info(event.message())),
                _ => None,
            },
            WatchEvent::Failed { cause } => match &self.phase {
                WatchPhase::Receive => Some(
                    LogRecord::error(prefixed("watch error: ", cause.as_str())),
                ),
                _ => None,
            },
            WatchEvent::Closed => match &self.phase {
                WatchPhase::Receive => {
                    self.phase = WatchPhase::Ended(WatchError::ChannelClosed);
                    None
                },
                _ => None,
            },
        }
    }
}

/// The state after a run of inputs, taken in order from `state`.
pub open spec fn watch_run(state: WatchState, inputs: Seq<WatchInput>) -> WatchState
    decreases inputs.len(),
{
    if inputs.len() == 0 {
        state
    } else {
        watch_next(watch_run(state, inputs.drop_last()), inputs.last())
    }
}

/// The entries logged over a run of inputs, taken in order from `state`.
pub open spec fn watch_log(state: WatchState, inputs: Seq<WatchInput>) -> Seq<LogEntry>
    decreases inputs.len(),
{
    if inputs.len() == 0 {
        Seq::empty()
    } else {
        let before = watch_run(state, inputs.drop_last());
        match watch_output(before, inputs.last()) {
            Some(entry) => watch_log(state, inputs.drop_last()).push(entry),
            None => watch_log(state, inputs.drop_last()),
        }
    }
}

/// Whether an input is an item that the channel delivered: an observation
/// or the failure of one.
pub open spec fn is_delivery(input: WatchInput) -> bool {
    input is Changed || input is Failed
}

/// The log entry of a delivered item.
pub open spec fn delivery_entry(input: WatchInput) -> LogEntry {
    match input {
        WatchInput::Changed { change } => info_entry(change_text(change)),
        WatchInput::Failed { cause } => error_entry(watch_error_text(cause)),
        _ => arbitrary(),
    }
}

/// While the watch receives, the items that the channel delivers are logged
/// one entry each, in the order of delivery, and the watch goes on
/// receiving: neither an observation nor the failure of one ends it.
pub proof fn lemma_deliveries_logged_in_order(state: WatchState, inputs: Seq<WatchInput>)
    requires
        state.stage == WatchStage::Receive,
        forall|i: int| 0 <= i < inputs.len() ==> is_delivery(#[trigger] inputs[i]),
    ensures
        watch_run(state, inputs) == state,
        watch_log(state, inputs).len() == inputs.len(),
        forall|i: int|
            0 <= i < inputs.len() ==> (#[trigger] watch_log(state, inputs)[i]) == delivery_entry(
                inputs[i],
            ),
    decreases inputs.len(),
{
    if inputs.len() > 0 {
        let rest = inputs.drop_last();
        assert forall|i: int| 0 <= i < rest.len() implies is_delivery(#[trigger] rest[i]) by {
            assert(rest[i] == inputs[i]);
        }
        lemma_deliveries_logged_in_order(state, rest);
        assert(is_delivery(inputs.last()));
        let log = watch_log(state, inputs);
        assert forall|i: int| 0 <= i < inputs.len() implies (#[trigger] log[i]) == delivery_entry(
            inputs[i],
        ) by {
            if i < rest.len() {
                assert(log[i] == watch_log(state, rest)[i]);
                assert(rest[i] == inputs[i]);
            }
        }
    }
}

/// A watch that has ended stays ended, for the same reason, and logs nothing
/// more: it is never set up again.
pub proof fn lemma_ended_is_final(state: WatchState, inputs: Seq<WatchInput>)
    requires
        state.stage is Ended,
    ensures
        watch_run(state, inputs) == state,
        watch_log(state, inputs) == Seq::<LogEntry>::empty(),
    decreases inputs.len(),
{
    if inputs.len() > 0 {
        lemma_ended_is_final(state, inputs.drop_last());
    }
}

/// Whatever is reported, the watched root stays what it was.
pub proof fn lemma_run_keeps_root(state: WatchState, inputs: Seq<WatchInput>)
    ensures
        watch_run(state, inputs).root == state.root,
    decreases inputs.len(),
{
    if inputs.len() > 0 {
        lemma_run_keeps_root(state, inputs.drop_last());
    }
}

/// A watch receives only once it is set up and subscribed, in that order: in
/// every run that has brought a new watch to receive, the back-end was
/// reported set up and, later, the root subscribed.
pub proof fn lemma_receives_only_once_subscribed(state: WatchState, inputs: Seq<WatchInput>)
    requires
        state.stage == WatchStage::Init,
    ensures
        !(watch_run(state, inputs).stage is Init) ==> exists|i: int|
            0 <= i < inputs.len() && #[trigger] inputs[i] is Initialized,
        watch_run(state, inputs).stage == WatchStage::Receive ==> exists|i: int, j: int|
            0 <= i < j < inputs.len() && #[trigger] inputs[i] == (WatchInput::Initialized {
                error: None,
            }) && #[trigger] inputs[j] == (WatchInput::Subscribed { error: None }),
        watch_run(state, inputs).stage == WatchStage::Subscribe ==> exists|i: int|
            0 <= i < inputs.len() && #[trigger] inputs[i] == (WatchInput::Initialized {
                error: None,
            }),
    decreases inputs.len(),
{
    if inputs.len() > 0 {
        let rest = inputs.drop_last();
        let last = inputs.len() - 1;
        lemma_receives_only_once_subscribed(state, rest);
        let before = watch_run(state, rest).stage;
        let after = watch_run(state, inputs).stage;
        if !(before is Init) {
            let i = choose|i: int| 0 <= i < rest.len() && #[trigger] rest[i] is Initialized;
            assert(inputs[i] is Initialized);
        } else if !(after is Init) {
            assert(inputs[last] is Initialized);
        }
        if after == WatchStage::Receive {
            if before == WatchStage::Receive {
                let (i, j) = choose|i: int, j: int|
                    0 <= i < j < rest.len() && #[trigger] rest[i] == (WatchInput::Initialized {
                        error: None,
                    }) && #[trigger] rest[j] == (WatchInput::Subscribed { error: None });
                assert(inputs[i] == rest[i] && inputs[j] == rest[j]);
            } else {
                assert(before == WatchStage::Subscribe);
                let i = choose|i: int|
                    0 <= i < rest.len() && #[trigger] rest[i] == (WatchInput::Initialized {
                        error: None,
                    });
                assert(inputs[i] == rest[i]);
                assert(inputs[last] == (WatchInput::Subscribed { error: None }));
            }
        }
        if after == WatchStage::Subscribe {
            if before == WatchStage::Subscribe {
                let i = choose|i: int|
                    0 <= i < rest.len() && #[trigger] rest[i] == (WatchInput::Initialized {
                        error: None,
                    });
                assert(inputs[i] == rest[i]);
            } else {
                assert(inputs[last] == (WatchInput::Initialized { error: None }));
            }
        }
    }
}

} // verus!
