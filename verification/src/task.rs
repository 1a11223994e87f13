//! The extraction of one manifest entry, step by step.
//!
//! Extracting an entry alternates decisions with work on the file system.
//! The decisions are made here: a task is in a `Stage`, each stage but the
//! last asks for one `Action`, and the `Event` that reports how the action
//! went moves the task to its next stage. Whoever drives the task performs
//! the actions; nothing in this module touches a file.

use vstd::prelude::*;
use crate::manifest::{ManifestEntry, ManifestEntryView};
use crate::outcome::{ExtractError, ExtractErrorView, Outcome, OutcomeView, SkipReason};
use crate::paths::{parent, parent_of, resolve, resolved};
use crate::policy::{
    destination_in, destination_of, needs_source_size, upper_extension, upper_extension_of,
    Organizer,
};
use crate::text::owned;

verus! {

/// Where the files come from and where they go.
#[derive(Debug, Clone, PartialEq, Eq)]
pub struct Layout {
    /// The top directory of the backup.
    pub backup_root: String,
    /// The top directory of the extracted files.
    pub output_root: String,
    /// How the extracted files are arranged below `output_root`.
    pub organize: Organizer,
}

/// A `Layout` with its paths as sequences of characters.
pub struct LayoutView {
    pub backup_root: Seq<char>,
    pub output_root: Seq<char>,
    pub organize: Organizer,
}

impl View for Layout {
    type V = LayoutView;

    open spec fn view(&self) -> LayoutView {
        LayoutView {
            backup_root: self.backup_root@,
            output_root: self.output_root@,
            organize: self.organize,
        }
    }
}

/// One copy: from a stored file to its place in the output tree.
#[derive(Debug, Clone, PartialEq, Eq)]
pub struct ExtractionTask {
    pub source_path: String,
    pub destination_path: String,
}

/// An `ExtractionTask` with its paths as sequences of characters.
pub struct ExtractionTaskView {
    pub source_path: Seq<char>,
    pub destination_path: Seq<char>,
}

impl View for ExtractionTask {
    type V = ExtractionTaskView;

    open spec fn view(&self) -> ExtractionTaskView {
        ExtractionTaskView {
            source_path: self.source_path@,
            destination_path: self.destination_path@,
        }
    }
}

/// How far the extraction of one entry has come.
#[derive(Debug, Clone, PartialEq, Eq)]
pub enum Stage {
    /// Waiting to hear whether the stored file exists.
    Probing { source_path: String },
    /// Waiting for the size of the stored file.
    Measuring { source_path: String },
    /// Waiting for the destination's directory to be created.
    Preparing { task: ExtractionTask },
    /// Waiting for the copy.
    Copying { task: ExtractionTask },
    /// Done, with this outcome.
    Finished { outcome: Outcome },
}

/// A `Stage` by view.
pub enum StageView {
    Probing { source_path: Seq<char> },
    Measuring { source_path: Seq<char> },
    Preparing { task: ExtractionTaskView },
    Copying { task: ExtractionTaskView },
    Finished { outcome: OutcomeView },
}

impl View for Stage {
    type V = StageView;

    open spec fn view(&self) -> StageView {
        match *self {
            Stage::Probing { source_path } => StageView::Probing { source_path: source_path@ },
            Stage::Measuring { source_path } => StageView::Measuring { source_path: source_path@ },
            Stage::Preparing { task } => StageView::Preparing { task: task@ },
            Stage::Copying { task } => StageView::Copying { task: task@ },
            Stage::Finished { outcome } => StageView::Finished { outcome: outcome@ },
        }
    }
}

/// Work on the file system that a stage asks for.
#[derive(Debug, Clone, PartialEq, Eq)]
pub enum Action {
    /// Find out whether a file exists at `path`.
    Probe { path: String },
    /// Read the size in bytes of the file at `path`.
    Measure { path: String },
    /// Create the directory `path` and every missing directory above it.
    CreateDirs { path: String },
    /// Copy the bytes of the file at `from` to `to`, replacing what is there.
    Copy { from: String, to: String },
}

/// An `Action` by view.
pub enum ActionView {
    Probe { path: Seq<char> },
    Measure { path: Seq<char> },
    CreateDirs { path: Seq<char> },
    Copy { from: Seq<char>, to: Seq<char> },
}

impl View for Action {
    type V = ActionView;

    open spec fn view(&self) -> ActionView {
        match *self {
            Action::Probe { path } => ActionView::Probe { path: path@ },
            Action::Measure { path } => ActionView::Measure { path: path@ },
            Action::CreateDirs { path } => ActionView::CreateDirs { path: path@ },
            Action::Copy { from, to } => ActionView::Copy { from: from@, to: to@ },
        }
    }
}

/// How an action went.
#[derive(Debug, Clone, PartialEq, Eq)]
pub enum Event {
    /// Answers `Action::Probe`: whether the file exists.
    Found(bool),
    /// Answers `Action::Measure`: the size in bytes.
    Measured(u64),
    /// Answers `Action::CreateDirs` and `Action::Copy`: it is done.
    Completed,
    /// Answers any action: it failed, for the reason given.
    Failed(String),
}

/// An `Event` by view.
pub enum EventView {
    Found(bool),
    Measured(u64),
    Completed,
    Failed(Seq<char>),
}

impl View for Event {
    type V = EventView;

    open spec fn view(&self) -> EventView {
        match *self {
            Event::Found(exists) => EventView::Found(exists),
            Event::Measured(size) => EventView::Measured(size),
            Event::Completed => EventView::Completed,
            Event::Failed(reason) => EventView::Failed(reason@),
        }
    }
}

/// The stage in which a task is finished as failed on the file system.
pub open spec fn failed_with(reason: Seq<char>) -> StageView {
    StageView::Finished { outcome: OutcomeView::Failed(ExtractErrorView::Io(reason)) }
}

/// The stage of a task whose source exists and whose destination is known:
/// the destination's directory is created first, unless the destination has
/// none.
pub open spec fn ready_to_copy(task: ExtractionTaskView) -> StageView {
    if parent_of(task.destination_path).len() == 0 {
        StageView::Copying { task }
    } else {
        StageView::Preparing { task }
    }
}

/// The first stage of the task for `entry`. An identifier too short to name
/// a stored file finishes the task at once; otherwise the task asks whether
/// the stored file exists.
pub open spec fn first_stage(layout: LayoutView, entry: ManifestEntryView) -> StageView {
    if entry.file_id.len() < 2 {
        StageView::Finished { outcome: OutcomeView::Failed(ExtractErrorView::InvalidFileId) }
    } else {
        StageView::Probing { source_path: resolved(layout.backup_root, entry.file_id) }
    }
}

/// The stage that follows `stage` when `event` arrives.
///
/// A missing source finishes the task as skipped. A source that exists is
/// measured where the layout goes by size, and then copied to its
/// destination, whose directory is created first. A reported failure
/// finishes the task as failed with the reason given; so does an event that
/// does not answer the stage's action. A finished task stays as it is.
/// `upper_extension` is the upper-case form of the extension of the entry's
/// relative path.
pub open spec fn next_stage(
    stage: StageView,
    event: EventView,
    layout: LayoutView,
    entry: ManifestEntryView,
    upper_extension: Seq<char>,
) -> StageView {
    match stage {
        StageView::Finished { outcome } => stage,
        _ => match event {
            EventView::Failed(reason) => failed_with(reason),
            _ => match (stage, event) {
                (StageView::Probing { source_path }, EventView::Found(exists)) => {
                    if !exists {
                        StageView::Finished {
                            outcome: OutcomeView::Skipped(SkipReason::SourceMissing),
                        }
                    } else if layout.organize == Organizer::Size {
                        StageView::Measuring { source_path }
                    } else {
                        ready_to_copy(
                            ExtractionTaskView {
                                source_path,
                                destination_path: destination_of(
                                    layout.organize,
                                    layout.output_root,
                                    entry.relative_path,
                                    0,
                                    upper_extension,
                                ),
                            },
                        )
                    }
                },
                (StageView::Measuring { source_path }, EventView::Measured(size)) => ready_to_copy(
                    ExtractionTaskView {
                        source_path,
                        destination_path: destination_of(
                            layout.organize,
                            layout.output_root,
                            entry.relative_path,
                            size,
                            upper_extension,
                        ),
                    },
                ),
                (StageView::Preparing { task }, EventView::Completed) => StageView::Copying {
                    task,
                },
                (StageView::Copying { task }, EventView::Completed) => StageView::Finished {
                    outcome: OutcomeView::Success,
                },
                _ => failed_with("unexpected answer"@),
            },
        },
    }
}

/// The action that `stage` asks for; a finished task asks for none.
pub open spec fn action_of(stage: StageView) -> Option<ActionView> {
    match stage {
        StageView::Probing { source_path } => Some(ActionView::Probe { path: source_path }),
        StageView::Measuring { source_path } => Some(ActionView::Measure { path: source_path }),
        StageView::Preparing { task } => Some(
            ActionView::CreateDirs { path: parent_of(task.destination_path) },
        ),
        StageView::Copying { task } => Some(
            ActionView::Copy { from: task.source_path, to: task.destination_path },
        ),
        StageView::Finished { outcome } => None,
    }
}

/// How many actions a task in `stage` may still ask for.
pub open spec fn steps_left(stage: StageView) -> nat {
    match stage {
        StageView::Probing { .. } => 4,
        StageView::Measuring { .. } => 3,
        StageView::Preparing { .. } => 2,
        StageView::Copying { .. } => 1,
        StageView::Finished { .. } => 0,
    }
}

fn ready(source_path: String, destination_path: String) -> (r: Stage)
    ensures
        r@ == ready_to_copy(
            ExtractionTaskView {
                source_path: source_path@,
                destination_path: destination_path@,
            },
        ),
{
    let directory = parent(destination_path.as_str());
    let task = ExtractionTask { source_path, destination_path };
    if directory.as_str().unicode_len() == 0 {
        Stage::Copying { task }
    } else {
        Stage::Preparing { task }
    }
}

/// The first stage of the task that extracts `entry`.
pub fn start(layout: &Layout, entry: &ManifestEntry) -> (r: Stage)
    ensures
        r@ == first_stage(layout@, entry@),
{
    match resolve(layout.backup_root.as_str(), entry.file_id.as_str()) {
        Ok(source_path) => Stage::Probing { source_path },
        Err(error) => Stage::Finished { outcome: Outcome::Failed(error) },
    }
}

/// The stage that follows `stage` now that `event` has arrived, where the
/// upper-case form of the extension of the entry's relative path is
/// `upper_extension`.
pub fn advance_in(
    stage: Stage,
    event: Event,
    layout: &Layout,
    entry: &ManifestEntry,
    upper_extension: &str,
) -> (r: Stage)
    ensures
        r@ == next_stage(stage@, event@, layout@, entry@, upper_extension@),
{
    match stage {
        Stage::Finished { outcome } => Stage::Finished { outcome },
        Stage::Probing { source_path } => match event {
            Event::Failed(reason) => Stage::Finished {
                outcome: Outcome::Failed(ExtractError::Io(reason)),
            },
            Event::Found(exists) => {
                if !exists {
                    Stage::Finished { outcome: Outcome::Skipped(SkipReason::SourceMissing) }
                } else if needs_source_size(layout.organize) {
                    Stage::Measuring { source_path }
                } else {
                    let destination_path = destination_in(
                        layout.organize,
                        layout.output_root.as_str(),
                        entry.relative_path.as_str(),
                        0,
                        upper_extension,
                    );
                    ready(source_path, destination_path)
                }
            },
            _ => unexpected(),
        },
        Stage::Measuring { source_path } => match event {
            Event::Failed(reason) => Stage::Finished {
                outcome: Outcome::Failed(ExtractError::Io(reason)),
            },
            Event::Measured(size) => {
                let destination_path = destination_in(
                    layout.organize,
                    layout.output_root.as_str(),
                    entry.relative_path.as_str(),
                    size,
                    upper_extension,
                );
                ready(source_path, destination_path)
            },
            _ => unexpected(),
        },
        Stage::Preparing { task } => match event {
            Event::Failed(reason) => Stage::Finished {
                outcome: Outcome::Failed(ExtractError::Io(reason)),
            },
            Event::Completed => Stage::Copying { task },
            _ => unexpected(),
        },
        Stage::Copying { task } => match event {
            Event::Failed(reason) => Stage::Finished {
                outcome: Outcome::Failed(ExtractError::Io(reason)),
            },
            Event::Completed => Stage::Finished { outcome: Outcome::Success },
            _ => unexpected(),
        },
    }
}

/// The stage that follows `stage` now that `event` has arrived.
pub fn advance(stage: Stage, event: Event, layout: &Layout, entry: &ManifestEntry) -> (r: Stage)
    ensures
        r@ == next_stage(
            stage@,
            event@,
            layout@,
            entry@,
            upper_extension_of(entry@.relative_path),
        ),
{
    let upper = upper_extension(entry.relative_path.as_str());
    advance_in(stage, event, layout, entry, upper.as_str())
}

fn unexpected() -> (r: Stage)
    ensures
        r@ == failed_with("unexpected answer"@),
{
    Stage::Finished { outcome: Outcome::Failed(ExtractError::Io(owned("unexpected answer"))) }
}

impl Stage {
    /// The action that this stage asks for; a finished task asks for none.
    pub fn action(&self) -> (r: Option<Action>)
        ensures
            match r {
                Some(action) => action_of(self@) == Some(action@),
                None => action_of(self@) is None,
            },
    {
        match self {
            Stage::Probing { source_path } => Some(Action::Probe { path: source_path.clone() }),
            Stage::Measuring { source_path } => Some(
                Action::Measure { path: source_path.clone() },
            ),
            Stage::Preparing { task } => Some(
                Action::CreateDirs { path: parent(task.destination_path.as_str()) },
            ),
            Stage::Copying { task } => Some(
                Action::Copy {
                    from: task.source_path.clone(),
                    to: task.destination_path.clone(),
                },
            ),
            Stage::Finished { outcome } => None,
        }
    }

    /// The outcome of a finished task.
    pub fn into_outcome(self) -> (r: Option<Outcome>)
        ensures
            match r {
                Some(outcome) => self@ == (StageView::Finished { outcome: outcome@ }),
                None => !(self is Finished),
            },
    {
        match self {
            Stage::Finished { outcome } => Some(outcome),
            _ => None,
        }
    }
}

/// The views of `events`, in order.
pub open spec fn event_views(events: Seq<Event>) -> Seq<EventView> {
    events.map_values(|event: Event| event@)
}

/// The stage that a task reaches from `stage` when the events of `events`
/// arrive in order.
pub open spec fn stage_after(
    stage: StageView,
    events: Seq<EventView>,
    layout: LayoutView,
    entry: ManifestEntryView,
    upper_extension: Seq<char>,
) -> StageView
    decreases events.len(),
{
    if events.len() == 0 {
        stage
    } else {
        next_stage(
            stage_after(stage, events.drop_last(), layout, entry, upper_extension),
            events.last(),
            layout,
            entry,
            upper_extension,
        )
    }
}

/// Whether `events` is what `perform` answered, one by one, to `actions`,
/// and each action is the one that the task for `entry` asks for after the
/// events before it.
pub open spec fn answered<F: Fn(Action) -> Event>(
    perform: F,
    actions: Seq<Action>,
    events: Seq<Event>,
    layout: LayoutView,
    entry: ManifestEntryView,
    upper_extension: Seq<char>,
) -> bool {
    &&& actions.len() == events.len()
    &&& forall|i: int|
        0 <= i < events.len() ==> {
            &&& action_of(
                stage_after(
                    first_stage(layout, entry),
                    event_views(events).take(i),
                    layout,
                    entry,
                    upper_extension,
                ),
            ) == Some((#[trigger] actions[i])@)
            &&& call_ensures(perform, (actions[i],), events[i])
        }
}

/// Whether `outcome` is an outcome of the task for `entry` when `perform`
/// does the work: some answers of `perform` to the task's actions, at most
/// four of them, lead from the first stage to the stage that is finished
/// with `outcome`.
pub open spec fn is_task_outcome<F: Fn(Action) -> Event>(
    perform: F,
    layout: LayoutView,
    entry: ManifestEntryView,
    upper_extension: Seq<char>,
    outcome: OutcomeView,
) -> bool {
    exists|actions: Seq<Action>, events: Seq<Event>|
        {
            &&& #[trigger] answered(perform, actions, events, layout, entry, upper_extension)
            &&& events.len() <= 4
            &&& stage_after(
                first_stage(layout, entry),
                event_views(events),
                layout,
                entry,
                upper_extension,
            ) == (StageView::Finished { outcome })
        }
}

/// Extracts `entry`: asks `perform` for each action in turn and returns the
/// outcome. `perform` is called at most four times, and not at all for an
/// identifier too short to name a stored file.
///
/// The outcome is the one that the stages give for the answers of
/// `perform`, whatever they are.
pub fn run_task<F: Fn(Action) -> Event>(layout: &Layout, entry: &ManifestEntry, perform: &F) -> (r:
    Outcome)
    requires
        forall|action: Action| call_requires(*perform, (action,)),
    ensures
        is_task_outcome(
            *perform,
            layout@,
            entry@,
            upper_extension_of(entry@.relative_path),
            r@,
        ),
{
    let upper_text = upper_extension(entry.relative_path.as_str());
    let ghost upper = upper_text@;
    let ghost first = first_stage(layout@, entry@);
    let ghost mut actions: Seq<Action> = Seq::empty();
    let ghost mut events: Seq<Event> = Seq::empty();
    let mut stage = start(layout, entry);
    loop
        invariant
            forall|action: Action| call_requires(*perform, (action,)),
            upper == upper_text@,
            upper == upper_extension_of(entry@.relative_path),
            first == first_stage(layout@, entry@),
            answered(*perform, actions, events, layout@, entry@, upper),
            stage@ == stage_after(first, event_views(events), layout@, entry@, upper),
            events.len() + steps_left(stage@) <= 4,
        ensures
            stage is Finished,
        decreases steps_left(stage@),
    {
        match stage.action() {
            None => {
                break ;
            },
            Some(action) => {
                let ghost asked = action;
                let ghost before = events;
                let event = perform(action);
                proof {
                    actions = actions.push(asked);
                    events = events.push(event);
                    assert(event_views(events).drop_last() =~= event_views(before));
                    assert forall|i: int| 0 <= i < events.len() implies {
                        &&& action_of(
                            stage_after(first, event_views(events).take(i), layout@, entry@, upper),
                        ) == Some((#[trigger] actions[i])@)
                        &&& call_ensures(*perform, (actions[i],), events[i])
                    } by {
                        if i < before.len() {
                            assert(event_views(events).take(i) =~= event_views(before).take(i));
                        }
                    }
                }
                stage = advance_in(stage, event, layout, entry, upper_text.as_str());
            },
        }
    }
    match stage {
        Stage::Finished { outcome } => outcome,
        _ => Outcome::Failed(ExtractError::InvalidFileId),
    }
}

/// A stored file that is gone is no failure: the task of an entry whose
/// identifier names a file, and whose file is reported missing, finishes as
/// skipped after that one answer.
pub proof fn law_missing_source_is_skipped(
    layout: LayoutView,
    entry: ManifestEntryView,
    upper_extension: Seq<char>,
)
    requires
        entry.file_id.len() >= 2,
    ensures
        stage_after(
            first_stage(layout, entry),
            seq![EventView::Found(false)],
            layout,
            entry,
            upper_extension,
        ) == (StageView::Finished { outcome: OutcomeView::Skipped(SkipReason::SourceMissing) }),
{
    reveal_with_fuel(stage_after, 2);
}

/// A finished task stays finished: once some of `events` have finished the
/// task, the rest of them change nothing.
pub proof fn law_finished_is_final(
    first: StageView,
    events: Seq<EventView>,
    reached: int,
    layout: LayoutView,
    entry: ManifestEntryView,
    upper_extension: Seq<char>,
)
    requires
        0 <= reached <= events.len(),
        stage_after(first, events.take(reached), layout, entry, upper_extension) is Finished,
    ensures
        stage_after(first, events, layout, entry, upper_extension) == stage_after(
            first,
            events.take(reached),
            layout,
            entry,
            upper_extension,
        ),
    decreases events.len() - reached,
{
    if reached == events.len() {
        assert(events.take(reached) =~= events);
    } else {
        assert(events.drop_last().take(reached) =~= events.take(reached));
        law_finished_is_final(first, events.drop_last(), reached, layout, entry, upper_extension);
    }
}

/// Where every probe is answered with a missing source, the task of an
/// entry whose identifier names a file can only end as skipped: the missing
/// source is no failure.
pub proof fn law_absent_source_yields_skipped<F: Fn(Action) -> Event>(
    perform: F,
    layout: LayoutView,
    entry: ManifestEntryView,
    upper_extension: Seq<char>,
    outcome: OutcomeView,
)
    requires
        entry.file_id.len() >= 2,
        is_task_outcome(perform, layout, entry, upper_extension, outcome),
        forall|action: Action, event: Event|
            action is Probe && call_ensures(perform, (action,), event) ==> event == Event::Found(
                false,
            ),
    ensures
        outcome == OutcomeView::Skipped(SkipReason::SourceMissing),
{
    let (actions, events) = choose|actions: Seq<Action>, events: Seq<Event>|
        {
            &&& #[trigger] answered(perform, actions, events, layout, entry, upper_extension)
            &&& events.len() <= 4
            &&& stage_after(
                first_stage(layout, entry),
                event_views(events),
                layout,
                entry,
                upper_extension,
            ) == (StageView::Finished { outcome })
        };
    let first = first_stage(layout, entry);
    let views = event_views(events);
    if events.len() > 0 {
        assert(action_of(stage_after(first, views.take(0), layout, entry, upper_extension))
            == Some(actions[0]@));
        reveal_with_fuel(stage_after, 2);
        law_finished_is_final(first, views, 1, layout, entry, upper_extension);
    }
}

/// Whether `perform` answers alike whenever it is asked alike: the file
/// system is the same each time it is asked.
pub open spec fn answers_alike<F: Fn(Action) -> Event>(perform: F) -> bool {
    forall|asked: Action, again: Action, answer: Event, other: Event|
        asked@ == again@ && #[trigger] call_ensures(perform, (asked,), answer)
            && #[trigger] call_ensures(perform, (again,), other) ==> answer@ == other@
}

/// Two courses of one task, with answers that are alike, agree on their
/// first `upto` events.
pub proof fn lemma_courses_agree<F: Fn(Action) -> Event>(
    perform: F,
    actions: Seq<Action>,
    events: Seq<Event>,
    other_actions: Seq<Action>,
    other_events: Seq<Event>,
    upto: int,
    layout: LayoutView,
    entry: ManifestEntryView,
    upper_extension: Seq<char>,
)
    requires
        answers_alike(perform),
        answered(perform, actions, events, layout, entry, upper_extension),
        answered(perform, other_actions, other_events, layout, entry, upper_extension),
        0 <= upto <= events.len(),
        upto <= other_events.len(),
    ensures
        event_views(events).take(upto) == event_views(other_events).take(upto),
    decreases upto,
{
    if upto > 0 {
        let before = upto - 1;
        lemma_courses_agree(
            perform,
            actions,
            events,
            other_actions,
            other_events,
            before,
            layout,
            entry,
            upper_extension,
        );
        assert(actions[before]@ == other_actions[before]@);
    }
}

/// A task ends alike whenever the file system answers alike: with such a
/// `perform`, a task has one outcome and no other, in every run and on
/// whichever worker it runs.
pub proof fn law_task_outcome_is_determined<F: Fn(Action) -> Event>(
    perform: F,
    layout: LayoutView,
    entry: ManifestEntryView,
    upper_extension: Seq<char>,
    outcome: OutcomeView,
    other: OutcomeView,
)
    requires
        answers_alike(perform),
        is_task_outcome(perform, layout, entry, upper_extension, outcome),
        is_task_outcome(perform, layout, entry, upper_extension, other),
    ensures
        outcome == other,
{
    let first = first_stage(layout, entry);
    let (actions, events) = choose|actions: Seq<Action>, events: Seq<Event>|
        {
            &&& #[trigger] answered(perform, actions, events, layout, entry, upper_extension)
            &&& events.len() <= 4
            &&& stage_after(first, event_views(events), layout, entry, upper_extension) == (
            StageView::Finished { outcome })
        };
    let (other_actions, other_events) = choose|actions: Seq<Action>, events: Seq<Event>|
        {
            &&& #[trigger] answered(perform, actions, events, layout, entry, upper_extension)
            &&& events.len() <= 4
            &&& stage_after(first, event_views(events), layout, entry, upper_extension) == (
            StageView::Finished { outcome: other })
        };
    let views = event_views(events);
    let other_views = event_views(other_events);
    let shared = if events.len() <= other_events.len() {
        events.len() as int
    } else {
        other_events.len() as int
    };
    lemma_courses_agree(
        perform,
        actions,
        events,
        other_actions,
        other_events,
        shared,
        layout,
        entry,
        upper_extension,
    );
    assert(views.take(views.len() as int) =~= views);
    assert(other_views.take(other_views.len() as int) =~= other_views);
    if events.len() < other_events.len() {
        assert(action_of(
            stage_after(first, other_views.take(shared), layout, entry, upper_extension),
        ) == Some(other_actions[shared]@));
    } else if other_events.len() < events.len() {
        assert(action_of(stage_after(first, views.take(shared), layout, entry, upper_extension))
            == Some(actions[shared]@));
    }
}

/// An identifier of fewer than two characters fails its entry before any
/// work is asked for, and nothing else fails an entry in that way.
pub proof fn law_invalid_identifier_fails_at_once(layout: LayoutView, entry: ManifestEntryView)
    ensures
        entry.file_id.len() < 2 <==> first_stage(layout, entry) == (StageView::Finished {
            outcome: OutcomeView::Failed(ExtractErrorView::InvalidFileId),
        }),
{
}

/// Every event moves an unfinished task forward, so a task asks for at most
/// four actions; a finished task stays finished.
pub proof fn law_every_event_advances(
    stage: StageView,
    event: EventView,
    layout: LayoutView,
    entry: ManifestEntryView,
    upper_extension: Seq<char>,
)
    ensures
        !(stage is Finished) ==> steps_left(next_stage(stage, event, layout, entry, upper_extension))
            < steps_left(stage),
        stage is Finished ==> next_stage(stage, event, layout, entry, upper_extension) == stage,
{
}

} // verus!
