//! The pipeline as a state machine over plain text.
//!
//! The executable pipeline is proved to take exactly the steps defined here,
//! and the laws of the pipeline are proved of this machine.

use crate::filter::pattern_finds;
use crate::listing::{is_settled, EntryView};
use crate::paths::joined;
use vstd::prelude::*;

verus! {

/// How long the driver sleeps between two listings while partial downloads
/// remain, in milliseconds.
pub const POLL_INTERVAL_MS: u64 = 1000;

/// The size of the buffer the driver reads notifications into, in bytes.
pub const EVENT_BUFFER_LEN: usize = 1024;

/// The conditions that end the pipeline.
#[derive(Debug, Clone, Copy, PartialEq, Eq, Structural)]
pub enum Failure {
    /// Reading from the notification channel failed.
    NotificationChannel,
    /// Listing the watched directory failed.
    DirectoryRead,
    /// Renaming a matched file failed.
    Move,
}

/// What a pipeline is set up with. It never changes afterwards.
pub struct SettingsView {
    pub watch_path: Seq<char>,
    pub destination_path: Seq<char>,
    pub pattern: Seq<char>,
}

/// A file to move: where it lies and where it goes.
pub struct RelocationView {
    pub source: Seq<char>,
    pub target: Seq<char>,
}

/// Where the pipeline stands.
pub enum PhaseView {
    /// Waiting for the next batch of change events.
    Idle,
    /// A file matched; waiting for the watched directory to settle. `waited`
    /// tells whether a listing with partial downloads was seen already.
    Settling { relocation: RelocationView, waited: bool },
    /// The directory settled; waiting for the file to be moved.
    Moving { relocation: RelocationView },
    /// Stopped for good.
    Failed { failure: Failure },
}

/// The whole state: settings, the events of the current batch that were not
/// looked at yet, in delivery order, and the phase.
pub struct PipelineView {
    pub settings: SettingsView,
    pub pending: Seq<Option<Seq<char>>>,
    pub phase: PhaseView,
}

/// What the driver reports back.
pub enum InputView {
    /// Reading the notification channel gave these events. An event is the
    /// name of the created file, or nothing where the notification bears no
    /// name.
    Batch { events: Seq<Option<Seq<char>>> },
    /// Reading the notification channel found nothing queued yet.
    NoEventsYet,
    /// Reading the notification channel failed otherwise.
    ReadFailed,
    /// The watched directory holds these entries.
    Listing { entries: Seq<EntryView> },
    /// The watched directory could not be listed.
    ListingFailed,
    /// The file was renamed.
    Moved,
    /// The file could not be renamed.
    MoveFailed,
}

/// What the driver is asked to do next.
pub enum ActionView {
    /// Read the next batch of change events.
    ReadEvents,
    /// Sleep for `delay_ms` milliseconds, then list `directory`.
    PollDirectory { directory: Seq<char>, delay_ms: u64 },
    /// Rename `source` to `target`.
    Rename { source: Seq<char>, target: Seq<char> },
    /// Stop, and report `failure`.
    Abort { failure: Failure },
}

/// What the pipeline has to tell the operator.
pub enum NoticeView {
    /// A created file matched the pattern.
    Matched { path: Seq<char> },
    /// The pipeline starts to wait for the directory to settle.
    Waiting { path: Seq<char> },
    /// The file is about to be moved into `destination`.
    Moving { path: Seq<char>, destination: Seq<char> },
}

/// An event is accepted if it bears a name and the pattern has a match in the
/// candidate path: the name joined to the watched directory.
pub open spec fn accepts(settings: SettingsView, event: Option<Seq<char>>) -> bool {
    event matches Some(name) && pattern_finds(
        settings.pattern,
        joined(settings.watch_path, name),
    )
}

/// The relocation of the created file `name`: from the watched directory to
/// the destination directory, under the same name.
pub open spec fn relocation_of(settings: SettingsView, name: Seq<char>) -> RelocationView {
    RelocationView {
        source: joined(settings.watch_path, name),
        target: joined(settings.destination_path, name),
    }
}

/// How many events at the front of `events` are passed over: all those
/// before the first accepted one.
pub open spec fn skipped(settings: SettingsView, events: Seq<Option<Seq<char>>>) -> nat
    decreases events.len(),
{
    if events.len() == 0 || accepts(settings, events[0]) {
        0
    } else {
        1 + skipped(settings, events.drop_first())
    }
}

/// The position `at` is what `skipped` counts to, if no event before it is
/// accepted and the event at it, where there is one, is.
pub proof fn lemma_first_accepted_is_skipped(
    settings: SettingsView,
    events: Seq<Option<Seq<char>>>,
    at: int,
)
    requires
        0 <= at <= events.len(),
        forall|i: int| 0 <= i < at ==> !accepts(settings, #[trigger] events[i]),
        at < events.len() ==> accepts(settings, events[at]),
    ensures
        skipped(settings, events) == at,
    decreases at,
{
    if at > 0 {
        lemma_first_accepted_is_skipped(settings, events.drop_first(), at - 1);
    }
}

/// A pipeline that was just set up.
pub open spec fn initial(settings: SettingsView) -> PipelineView {
    PipelineView { settings, pending: Seq::empty(), phase: PhaseView::Idle }
}

/// Looks through `events` in order. The first accepted event starts a
/// relocation and leaves the events behind it pending; without one the
/// pipeline falls idle.
pub open spec fn advance(settings: SettingsView, events: Seq<Option<Seq<char>>>) -> (
    PipelineView,
    Seq<NoticeView>,
) {
    let at = skipped(settings, events) as int;
    if at < events.len() {
        let relocation = relocation_of(settings, events[at].unwrap());
        (
            PipelineView {
                settings,
                pending: events.skip(at + 1),
                phase: PhaseView::Settling { relocation, waited: false },
            },
            seq![
                NoticeView::Matched { path: relocation.source },
                NoticeView::Waiting { path: relocation.source },
            ],
        )
    } else {
        (initial(settings), Seq::empty())
    }
}

/// The pipeline stops with `failure`.
pub open spec fn fail(state: PipelineView, failure: Failure) -> (PipelineView, Seq<NoticeView>) {
    (PipelineView { phase: PhaseView::Failed { failure }, ..state }, Seq::empty())
}

/// One step of the pipeline: the state after `input`, and the notices to
/// print before the next action is taken.
///
/// An input that does not answer the action the pipeline asked for changes
/// nothing.
pub open spec fn step(state: PipelineView, input: InputView) -> (PipelineView, Seq<NoticeView>) {
    match (state.phase, input) {
        (PhaseView::Idle, InputView::Batch { events }) => advance(state.settings, events),
        (PhaseView::Idle, InputView::NoEventsYet) => (state, Seq::empty()),
        (PhaseView::Idle, InputView::ReadFailed) => fail(state, Failure::NotificationChannel),
        (PhaseView::Settling { relocation, waited }, InputView::Listing { entries }) => {
            if is_settled(entries) {
                (
                    PipelineView { phase: PhaseView::Moving { relocation }, ..state },
                    seq![
                        NoticeView::Moving {
                            path: relocation.source,
                            destination: state.settings.destination_path,
                        },
                    ],
                )
            } else {
                (
                    PipelineView {
                        phase: PhaseView::Settling { relocation, waited: true },
                        ..state
                    },
                    Seq::empty(),
                )
            }
        },
        (PhaseView::Settling { .. }, InputView::ListingFailed) => fail(
            state,
            Failure::DirectoryRead,
        ),
        (PhaseView::Moving { .. }, InputView::Moved) => advance(state.settings, state.pending),
        (PhaseView::Moving { .. }, InputView::MoveFailed) => fail(state, Failure::Move),
        _ => (state, Seq::empty()),
    }
}

/// The action a pipeline in `state` asks of the driver.
///
/// The first listing after a match is asked for at once; each further one
/// after the poll interval.
pub open spec fn request(state: PipelineView) -> ActionView {
    match state.phase {
        PhaseView::Idle => ActionView::ReadEvents,
        PhaseView::Settling { relocation, waited } => ActionView::PollDirectory {
            directory: state.settings.watch_path,
            delay_ms: if waited {
                POLL_INTERVAL_MS
            } else {
                0
            },
        },
        PhaseView::Moving { relocation } => ActionView::Rename {
            source: relocation.source,
            target: relocation.target,
        },
        PhaseView::Failed { failure } => ActionView::Abort { failure },
    }
}

} // verus!
