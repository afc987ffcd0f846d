//! What holds of every run of the pipeline.

use crate::filter::pattern_finds;
use crate::listing::{is_settled, EntryView};
use crate::model::{
    accepts, advance, initial, lemma_first_accepted_is_skipped, request, skipped, step,
    ActionView, InputView, NoticeView, PhaseView, PipelineView, SettingsView, POLL_INTERVAL_MS,
};
use crate::paths::joined;
use vstd::prelude::*;

verus! {

/// The state after the driver has reported `inputs`, one after the other.
pub open spec fn run(state: PipelineView, inputs: Seq<InputView>) -> PipelineView
    decreases inputs.len(),
{
    if inputs.len() == 0 {
        state
    } else {
        step(run(state, inputs.drop_last()), inputs.last()).0
    }
}

/// The reports of a driver that lists the watched directory again and again
/// and finds `listings`, in this order.
pub open spec fn polls(listings: Seq<Seq<EntryView>>) -> Seq<InputView> {
    listings.map_values(|entries: Seq<EntryView>| InputView::Listing { entries })
}

/// Events are taken in delivery order: the events passed over are exactly
/// those in front of the first accepted event, and all of them where none is
/// accepted.
pub proof fn law_first_accepted_event_is_taken(
    settings: SettingsView,
    events: Seq<Option<Seq<char>>>,
)
    ensures
        skipped(settings, events) <= events.len(),
        forall|i: int|
            0 <= i < skipped(settings, events) ==> !accepts(settings, #[trigger] events[i]),
        skipped(settings, events) < events.len() ==> accepts(
            settings,
            events[skipped(settings, events) as int],
        ),
    decreases events.len(),
{
    if events.len() > 0 && !accepts(settings, events[0]) {
        let rest = events.drop_first();
        law_first_accepted_event_is_taken(settings, rest);
        assert forall|i: int| 0 <= i < skipped(settings, events) implies !accepts(
            settings,
            #[trigger] events[i],
        ) by {
            if i > 0 {
                assert(events[i] == rest[i - 1]);
            }
        }
    }
}

/// An event that is not accepted leaves no trace: a batch with such an event
/// in front is handled like the batch without it.
pub proof fn law_unaccepted_event_is_passed_over(
    settings: SettingsView,
    event: Option<Seq<char>>,
    rest: Seq<Option<Seq<char>>>,
)
    requires
        !accepts(settings, event),
    ensures
        advance(settings, seq![event] + rest) == advance(settings, rest),
{
    let events = seq![event] + rest;
    assert(events.drop_first() =~= rest);
    let at = skipped(settings, rest) as int;
    if at < rest.len() {
        assert(events.skip(at + 2) =~= rest.skip(at + 1));
    }
}

/// An event without a name starts nothing: no notice, no wait and no move
/// come of it, and the pipeline goes on with the events behind it.
pub proof fn law_nameless_event_is_passed_over(
    state: PipelineView,
    rest: Seq<Option<Seq<char>>>,
)
    ensures
        step(state, InputView::Batch { events: seq![None] + rest }) == step(
            state,
            InputView::Batch { events: rest },
        ),
{
    law_unaccepted_event_is_passed_over(state.settings, None, rest);
}

/// An event whose candidate path the pattern does not match starts nothing:
/// no notice, no wait and no move come of it, and the pipeline goes on with
/// the events behind it.
pub proof fn law_unmatched_event_is_passed_over(
    state: PipelineView,
    name: Seq<char>,
    rest: Seq<Option<Seq<char>>>,
)
    requires
        !pattern_finds(state.settings.pattern, joined(state.settings.watch_path, name)),
    ensures
        step(state, InputView::Batch { events: seq![Some(name)] + rest }) == step(
            state,
            InputView::Batch { events: rest },
        ),
{
    law_unaccepted_event_is_passed_over(state.settings, Some(name), rest);
}

/// A batch without an accepted event leaves the pipeline idle and silent:
/// the next thing it asks for is the next batch.
pub proof fn law_batch_without_accepted_event_is_silent(
    state: PipelineView,
    events: Seq<Option<Seq<char>>>,
)
    requires
        state.phase is Idle,
        forall|i: int| 0 <= i < events.len() ==> !accepts(state.settings, #[trigger] events[i]),
    ensures
        step(state, InputView::Batch { events }) == (
            initial(state.settings),
            Seq::<NoticeView>::empty(),
        ),
        request(step(state, InputView::Batch { events }).0) == ActionView::ReadEvents,
{
    lemma_first_accepted_is_skipped(state.settings, events, events.len() as int);
}

/// A directory without partial downloads is not waited for: the one listing
/// asked for after a match is asked for without delay, and on it the pipeline
/// goes on to the move.
pub proof fn law_settled_directory_is_not_waited_for(
    state: PipelineView,
    entries: Seq<EntryView>,
)
    requires
        state.phase matches PhaseView::Settling { waited, .. } && !waited,
        is_settled(entries),
    ensures
        request(state) == (ActionView::PollDirectory {
            directory: state.settings.watch_path,
            delay_ms: 0,
        }),
        step(state, InputView::Listing { entries }).0.phase == (PhaseView::Moving {
            relocation: state.phase->Settling_relocation,
        }),
{
}

/// The move starts only on a settled listing: whatever the state and the
/// report, the pipeline enters the moving phase only from the settling phase,
/// and only on a listing without partial downloads.
pub proof fn law_move_starts_only_on_settled_listing(state: PipelineView, input: InputView)
    requires
        !(state.phase is Moving),
        step(state, input).0.phase is Moving,
    ensures
        state.phase is Settling,
        input matches InputView::Listing { entries } && is_settled(entries),
        step(state, input).0.phase->Moving_relocation == state.phase->Settling_relocation,
{
}

/// Only a pipeline in the moving phase asks for a rename, and it asks for
/// the rename of the file it settled for.
pub proof fn law_rename_is_asked_only_when_moving(state: PipelineView)
    ensures
        request(state) is Rename <==> state.phase is Moving,
        state.phase matches PhaseView::Moving { relocation } ==> request(state) == (
            ActionView::Rename { source: relocation.source, target: relocation.target }
        ),
{
}

/// The wait lasts exactly until the first settled listing.
///
/// After a match, let the driver find `listings`, of which the first `count`
/// hold partial downloads. Then the pipeline is still settling after these
/// `count` listings, and asks for the next listing after the poll interval
/// (at once, if `count` is zero). If the listing after them is settled, the
/// pipeline goes on to the move with it.
pub proof fn law_wait_lasts_until_first_settled_listing(
    state: PipelineView,
    listings: Seq<Seq<EntryView>>,
    count: int,
)
    requires
        state.phase matches PhaseView::Settling { waited, .. } && !waited,
        0 <= count <= listings.len(),
        forall|i: int| 0 <= i < count ==> !is_settled(#[trigger] listings[i]),
    ensures
        run(state, polls(listings.take(count))).phase == (PhaseView::Settling {
            relocation: state.phase->Settling_relocation,
            waited: count > 0,
        }),
        request(run(state, polls(listings.take(count)))) == (ActionView::PollDirectory {
            directory: state.settings.watch_path,
            delay_ms: if count > 0 {
                POLL_INTERVAL_MS
            } else {
                0
            },
        }),
        count < listings.len() && is_settled(listings[count]) ==> run(
            state,
            polls(listings.take(count + 1)),
        ).phase == (PhaseView::Moving { relocation: state.phase->Settling_relocation }),
    decreases count,
{
    law_settings_never_change(state, polls(listings.take(count)));
    if count > 0 {
        law_wait_lasts_until_first_settled_listing(state, listings, count - 1);
        let inputs = polls(listings.take(count));
        assert(inputs.drop_last() =~= polls(listings.take(count - 1)));
    }
    if count < listings.len() && is_settled(listings[count]) {
        let inputs = polls(listings.take(count + 1));
        assert(inputs.drop_last() =~= polls(listings.take(count)));
    }
}

/// The settings of a pipeline never change, whatever the driver reports.
pub proof fn law_settings_never_change(state: PipelineView, inputs: Seq<InputView>)
    ensures
        run(state, inputs).settings == state.settings,
    decreases inputs.len(),
{
    if inputs.len() > 0 {
        law_settings_never_change(state, inputs.drop_last());
    }
}

/// A pipeline that has failed stays as it is, whatever the driver reports,
/// and keeps asking to stop.
pub proof fn law_failure_is_final(state: PipelineView, input: InputView)
    requires
        state.phase is Failed,
    ensures
        step(state, input) == (state, Seq::<NoticeView>::empty()),
        request(state) == (ActionView::Abort { failure: state.phase->failure }),
{
}

/// An idle pipeline has no event pending: this holds of a pipeline that was
/// just set up, and every step keeps it.
pub proof fn law_idle_pipeline_has_nothing_pending(state: PipelineView, input: InputView)
    requires
        state.phase is Idle ==> state.pending.len() == 0,
    ensures
        initial(state.settings).pending.len() == 0,
        step(state, input).0.phase is Idle ==> step(state, input).0.pending.len() == 0,
{
}

} // verus!
