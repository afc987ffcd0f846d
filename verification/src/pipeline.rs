//! The executable pipeline.
//!
//! A `Pipeline` does no I/O. It tells its driver what to do next
//! (`Pipeline::request`), and the driver reports what came of it
//! (`Pipeline::step`). Every step is the step of the machine in
//! `crate::model`.

use crate::filter::PatternFilter;
use crate::listing::{has_partial_files, listing_view, DirectoryEntry};
use crate::model::{
    accepts, initial, lemma_first_accepted_is_skipped, relocation_of, skipped, ActionView,
    Failure, InputView, NoticeView, PhaseView, PipelineView, RelocationView, SettingsView,
    POLL_INTERVAL_MS,
};
use crate::paths::{join, joined};
use vstd::prelude::*;

verus! {

/// A notification that something was created in the watched directory.
#[derive(Debug, Clone, PartialEq, Eq)]
pub struct ChangeEvent {
    /// The name of the created file. Some notifications bear no name.
    pub name: Option<String>,
}

impl View for ChangeEvent {
    type V = Option<Seq<char>>;

    open spec fn view(&self) -> Option<Seq<char>> {
        match self.name {
            Some(name) => Some(name@),
            None => None,
        }
    }
}

/// The views of the events of a batch, in delivery order.
pub open spec fn batch_view(events: Seq<ChangeEvent>) -> Seq<Option<Seq<char>>> {
    events.map_values(|event: ChangeEvent| event@)
}

/// A file to move: where it lies and where it goes.
#[derive(Debug, Clone, PartialEq, Eq)]
pub struct Relocation {
    pub source: String,
    pub target: String,
}

impl View for Relocation {
    type V = RelocationView;

    open spec fn view(&self) -> RelocationView {
        RelocationView { source: self.source@, target: self.target@ }
    }
}

impl Relocation {
    /// The verdict on a created file, once the filter has spoken.
    ///
    /// `candidate` is the path of the created file `name` and `matched` says
    /// whether the filter found a match in it. A matched file goes to
    /// `destination_path` under its own name; any other file stays.
    pub fn when_matched(
        candidate: String,
        destination_path: &str,
        name: &str,
        matched: bool,
    ) -> (verdict: Option<Relocation>)
        ensures
            match verdict {
                Some(relocation) => matched && relocation@ == (RelocationView {
                    source: candidate@,
                    target: joined(destination_path@, name@),
                }),
                None => !matched,
            },
    {
        if matched {
            Some(Relocation { source: candidate, target: join(destination_path, name) })
        } else {
            None
        }
    }
}

/// What the driver reports back to the pipeline.
#[derive(Debug, Clone, PartialEq, Eq)]
pub enum Input {
    /// Reading the notification channel gave these events.
    Batch { events: Vec<ChangeEvent> },
    /// Reading the notification channel found nothing queued yet.
    NoEventsYet,
    /// Reading the notification channel failed otherwise.
    ReadFailed,
    /// The watched directory holds these entries.
    Listing { entries: Vec<DirectoryEntry> },
    /// The watched directory could not be listed.
    ListingFailed,
    /// The file was renamed.
    Moved,
    /// The file could not be renamed.
    MoveFailed,
}

impl View for Input {
    type V = InputView;

    open spec fn view(&self) -> InputView {
        match self {
            Input::Batch { events } => InputView::Batch { events: batch_view(events@) },
            Input::NoEventsYet => InputView::NoEventsYet,
            Input::ReadFailed => InputView::ReadFailed,
            Input::Listing { entries } => InputView::Listing { entries: listing_view(entries@) },
            Input::ListingFailed => InputView::ListingFailed,
            Input::Moved => InputView::Moved,
            Input::MoveFailed => InputView::MoveFailed,
        }
    }
}

/// What the pipeline asks its driver to do next.
#[derive(Debug, Clone, PartialEq, Eq)]
pub enum Action {
    /// Read the next batch of change events, and report `Input::Batch`,
    /// `Input::NoEventsYet` or `Input::ReadFailed`.
    ReadEvents,
    /// Sleep for `delay_ms` milliseconds, then list `directory`, and report
    /// `Input::Listing` or `Input::ListingFailed`.
    PollDirectory { directory: String, delay_ms: u64 },
    /// Rename `source` to `target`, and report `Input::Moved` or
    /// `Input::MoveFailed`.
    Rename { source: String, target: String },
    /// Stop, and report `failure` to the operator.
    Abort { failure: Failure },
}

impl View for Action {
    type V = ActionView;

    open spec fn view(&self) -> ActionView {
        match self {
            Action::ReadEvents => ActionView::ReadEvents,
            Action::PollDirectory { directory, delay_ms } => ActionView::PollDirectory {
                directory: directory@,
                delay_ms: *delay_ms,
            },
            Action::Rename { source, target } => ActionView::Rename {
                source: source@,
                target: target@,
            },
            Action::Abort { failure } => ActionView::Abort { failure: *failure },
        }
    }
}

/// What the pipeline has to tell the operator.
#[derive(Debug, Clone, PartialEq, Eq)]
pub enum Notice {
    /// A created file matched the pattern.
    Matched { path: String },
    /// The pipeline starts to wait for the directory to settle.
    Waiting { path: String },
    /// The file is about to be moved into `destination`.
    Moving { path: String, destination: String },
}

impl View for Notice {
    type V = NoticeView;

    open spec fn view(&self) -> NoticeView {
        match self {
            Notice::Matched { path } => NoticeView::Matched { path: path@ },
            Notice::Waiting { path } => NoticeView::Waiting { path: path@ },
            Notice::Moving { path, destination } => NoticeView::Moving {
                path: path@,
                destination: destination@,
            },
        }
    }
}

/// The views of a list of notices, in order.
pub open spec fn notices_view(notices: Seq<Notice>) -> Seq<NoticeView> {
    notices.map_values(|notice: Notice| notice@)
}

/// What a pipeline is set up with.
#[derive(Debug)]
pub struct Settings {
    /// The directory that is watched.
    pub watch_path: String,
    /// The directory that matched files are moved to.
    pub destination_path: String,
    /// The filter that candidate paths are tested against.
    pub filter: PatternFilter,
}

impl View for Settings {
    type V = SettingsView;

    open spec fn view(&self) -> SettingsView {
        SettingsView {
            watch_path: self.watch_path@,
            destination_path: self.destination_path@,
            pattern: self.filter.pattern(),
        }
    }
}

impl Settings {
    /// The verdict on one event: the relocation it starts, if it is accepted.
    pub fn examine(&self, event: &ChangeEvent) -> (verdict: Option<Relocation>)
        ensures
            match verdict {
                Some(relocation) => accepts(self@, event@) && relocation@ == relocation_of(
                    self@,
                    event@.unwrap(),
                ),
                None => !accepts(self@, event@),
            },
    {
        match &event.name {
            None => None,
            Some(name) => {
                let candidate = join(self.watch_path.as_str(), name.as_str());
                let matched = self.filter.matches(candidate.as_str());
                Relocation::when_matched(
                    candidate,
                    self.destination_path.as_str(),
                    name.as_str(),
                    matched,
                )
            },
        }
    }
}

/// The events of a batch that were not looked at yet.
#[derive(Debug)]
struct Pending {
    batch: Vec<ChangeEvent>,
    /// The events before this position were looked at.
    cursor: usize,
}

impl View for Pending {
    type V = Seq<Option<Seq<char>>>;

    closed spec fn view(&self) -> Seq<Option<Seq<char>>> {
        batch_view(self.batch@).skip(self.cursor as int)
    }
}

impl Pending {
    #[verifier::type_invariant]
    spec fn well_formed(&self) -> bool {
        self.cursor <= self.batch.len()
    }

    /// All events of `batch` are pending.
    fn new(batch: Vec<ChangeEvent>) -> (pending: Pending)
        ensures
            pending@ == batch_view(batch@),
    {
        Pending { batch, cursor: 0 }
    }

    /// Looks at the pending events in order, up to the first one that
    /// `settings` accepts. Returns what is pending after it, and the
    /// relocation it starts; without such an event nothing is left pending.
    fn next_relocation(self, settings: &Settings) -> (next: (Pending, Option<Relocation>))
        ensures
            ({
                let at = skipped(settings@, self@) as int;
                if at < self@.len() {
                    &&& next.0@ == self@.skip(at + 1)
                    &&& next.1 matches Some(relocation)
                    &&& relocation@ == relocation_of(settings@, self@[at].unwrap())
                } else {
                    &&& next.0@ == Seq::<Option<Seq<char>>>::empty()
                    &&& next.1 is None
                }
            }),
    {
        proof {
            use_type_invariant(&self);
        }
        let ghost events = batch_view(self.batch@);
        let mut at: usize = self.cursor;
        while at < self.batch.len()
            invariant
                self.cursor <= at <= self.batch.len(),
                events == batch_view(self.batch@),
                self@ == events.skip(self.cursor as int),
                forall|i: int| self.cursor <= i < at ==> !accepts(settings@, #[trigger] events[i]),
            decreases self.batch.len() - at,
        {
            let verdict = settings.examine(&self.batch[at]);
            if verdict.is_some() {
                let next = Pending { batch: self.batch, cursor: at + 1 };
                proof {
                    let found = at - self.cursor;
                    lemma_first_accepted_is_skipped(settings@, self@, found);
                }
                return (next, verdict);
            }
            at += 1;
        }
        let next = Pending { batch: Vec::new(), cursor: 0 };
        proof {
            lemma_first_accepted_is_skipped(settings@, self@, self@.len() as int);
        }
        (next, None)
    }
}

#[derive(Debug)]
enum Phase {
    Idle,
    Settling { relocation: Relocation, waited: bool },
    Moving { relocation: Relocation },
    Failed { failure: Failure },
}

impl View for Phase {
    type V = PhaseView;

    closed spec fn view(&self) -> PhaseView {
        match self {
            Phase::Idle => PhaseView::Idle,
            Phase::Settling { relocation, waited } => PhaseView::Settling {
                relocation: relocation@,
                waited: *waited,
            },
            Phase::Moving { relocation } => PhaseView::Moving { relocation: relocation@ },
            Phase::Failed { failure } => PhaseView::Failed { failure: *failure },
        }
    }
}

/// The relocation pipeline.
#[derive(Debug)]
pub struct Pipeline {
    settings: Settings,
    pending: Pending,
    phase: Phase,
}

impl View for Pipeline {
    type V = PipelineView;

    closed spec fn view(&self) -> PipelineView {
        PipelineView { settings: self.settings@, pending: self.pending@, phase: self.phase@ }
    }
}

impl Pipeline {
    /// A pipeline with the given settings. It starts idle.
    pub fn new(settings: Settings) -> (pipeline: Pipeline)
        ensures
            pipeline@ == initial(settings@),
    {
        let pending = Pending::new(Vec::new());
        assert(pending@ =~= Seq::empty());
        Pipeline { settings, pending, phase: Phase::Idle }
    }

    /// What the driver is to do next.
    pub fn request(&self) -> (action: Action)
        ensures
            action@ == crate::model::request(self@),
    {
        match &self.phase {
            Phase::Idle => Action::ReadEvents,
            Phase::Settling { relocation: _, waited } => Action::PollDirectory {
                directory: self.settings.watch_path.clone(),
                delay_ms: if *waited {
                    POLL_INTERVAL_MS
                } else {
                    0
                },
            },
            Phase::Moving { relocation } => Action::Rename {
                source: relocation.source.clone(),
                target: relocation.target.clone(),
            },
            Phase::Failed { failure } => Action::Abort { failure: *failure },
        }
    }

    /// Takes the driver's report on the action it was asked for, and moves on.
    ///
    /// Returns the pipeline in its next state and the notices to print, in
    /// order, before the next action is taken. A report that does not answer
    /// the action asked for changes nothing.
    pub fn step(self, input: Input) -> (next: (Pipeline, Vec<Notice>))
        ensures
            next.0@ == crate::model::step(self@, input@).0,
            notices_view(next.1@) == crate::model::step(self@, input@).1,
    {
        let Pipeline { settings, pending, phase } = self;
        match (phase, input) {
            (Phase::Idle, Input::Batch { events }) => Self::advance(settings, Pending::new(events)),
            (Phase::Idle, Input::ReadFailed) => Self::quiet(
                settings,
                pending,
                Phase::Failed { failure: Failure::NotificationChannel },
            ),
            (Phase::Settling { relocation, waited: _ }, Input::Listing { entries }) => {
                if has_partial_files(&entries) {
                    Self::quiet(settings, pending, Phase::Settling { relocation, waited: true })
                } else {
                    let notices = vec![
                        Notice::Moving {
                            path: relocation.source.clone(),
                            destination: settings.destination_path.clone(),
                        },
                    ];
                    (Pipeline { settings, pending, phase: Phase::Moving { relocation } }, notices)
                }
            },
            (Phase::Settling { .. }, Input::ListingFailed) => Self::quiet(
                settings,
                pending,
                Phase::Failed { failure: Failure::DirectoryRead },
            ),
            (Phase::Moving { .. }, Input::Moved) => Self::advance(settings, pending),
            (Phase::Moving { .. }, Input::MoveFailed) => Self::quiet(
                settings,
                pending,
                Phase::Failed { failure: Failure::Move },
            ),
            (phase, _) => Self::quiet(settings, pending, phase),
        }
    }

    /// The pipeline in `phase`, with nothing to tell the operator.
    fn quiet(settings: Settings, pending: Pending, phase: Phase) -> (next: (Pipeline, Vec<Notice>))
        ensures
            next.0@ == (PipelineView { settings: settings@, pending: pending@, phase: phase@ }),
            notices_view(next.1@) == Seq::<NoticeView>::empty(),
    {
        let notices: Vec<Notice> = Vec::new();
        (Pipeline { settings, pending, phase }, notices)
    }

    /// Goes on with the pending events: starts the relocation of the first
    /// accepted one, or falls idle.
    fn advance(settings: Settings, pending: Pending) -> (next: (Pipeline, Vec<Notice>))
        ensures
            next.0@ == crate::model::advance(settings@, pending@).0,
            notices_view(next.1@) == crate::model::advance(settings@, pending@).1,
    {
        let (pending, verdict) = pending.next_relocation(&settings);
        match verdict {
            Some(relocation) => {
                let notices = vec![
                    Notice::Matched { path: relocation.source.clone() },
                    Notice::Waiting { path: relocation.source.clone() },
                ];
                let phase = Phase::Settling { relocation, waited: false };
                (Pipeline { settings, pending, phase }, notices)
            },
            None => Self::quiet(settings, pending, Phase::Idle),
        }
    }
}

} // verus!
