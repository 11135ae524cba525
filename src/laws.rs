use vstd::prelude::*;

use crate::game::GameView;
use crate::split_type::{reconciliation, SplitType};
use crate::splits::{event_met, Event};
use crate::timer::TimerPhase;
use crate::tracker::{
    after_progress, after_published, after_report, after_split, after_sync,
    after_timer_reconnect, timer_run_state, Command, RunState, TimerSync, TrackerState,
    FINAL_BOSS_ROOM, NO_ROOM,
};

verus! {

/// Once the run is finished, a split changes nothing and sends nothing.
pub proof fn lemma_split_is_noop_when_finished(s: TrackerState)
    requires
        s.run_state is Finished,
    ensures
        after_split(s) == (s, Seq::<Command>::empty()),
{
}

/// Every way from a run that has not started into the intro clears the last
/// location: a split, a report of the timer (periodic or on reconnecting), and
/// the start of a new game.
pub proof fn lemma_intro_entry_clears_last_room(
    s: TrackerState,
    sync: TimerSync,
    phase: TimerPhase,
    split_index: i64,
    published: Option<SplitType>,
    route: Option<Seq<Event>>,
    view: GameView,
    event_index: Option<i64>,
)
    requires
        s.run_state is NotStarted,
    ensures
        after_split(s).0.run_state is Intro ==> after_split(s).0.last_room == NO_ROOM,
        after_report(s, phase, split_index, published).0.run_state is Intro ==> after_report(
            s,
            phase,
            split_index,
            published,
        ).0.last_room == NO_ROOM,
        after_sync(s, sync).0.run_state is Intro ==> after_sync(s, sync).0.last_room == NO_ROOM,
        after_timer_reconnect(s, sync).0.run_state is Intro ==> after_timer_reconnect(
            s,
            sync,
        ).0.last_room == NO_ROOM,
        after_progress(s, route, view, event_index).0.run_state is Intro ==> after_progress(
            s,
            route,
            view,
            event_index,
        ).0.last_room == NO_ROOM,
{
}

/// Without a route, a run under way splits exactly once on a change of room
/// and takes the new room as its last location (away from the main menu and
/// before the final encounter, which are handled on their own).
pub proof fn lemma_room_change_splits_once(
    s: TrackerState,
    view: GameView,
    split_index: Option<i64>,
)
    requires
        s.run_state is Active,
        s.last_room != view.location(),
        s.last_room != FINAL_BOSS_ROOM,
        !view.at_main_menu,
    ensures
        after_progress(s, None, view, split_index) == (
            TrackerState { last_room: view.location(), ..s },
            seq![Command::Split],
        ),
{
}

/// Where the user asked for nothing and the timer names another split type
/// than the one in effect, the new one is taken and a started run is reset in
/// the same step.
pub proof fn lemma_published_change_resets(
    s: TrackerState,
    old_type: SplitType,
    new_type: SplitType,
)
    requires
        s.requested is None,
        s.effective == Some(old_type),
        old_type != new_type,
        !(s.run_state is NotStarted),
    ensures
        after_published(s, Some(new_type)) == (
            TrackerState {
                effective: Some(new_type),
                last_published: Some(new_type),
                run_state: RunState::NotStarted,
                ..s
            },
            seq![Command::Reset],
        ),
{
}

/// A timer that reports its run ended makes the run finished, whatever it was
/// before; it stays so unless the same report changes the route, which resets
/// the run.
pub proof fn lemma_ended_timer_finishes_run(
    s: TrackerState,
    split_index: i64,
    published: Option<SplitType>,
)
    ensures
        timer_run_state(s.run_state, TimerPhase::Ended, split_index) is Finished,
        !reconciliation(s.requested, s.effective, published, s.last_published).reset
            ==> after_report(s, TimerPhase::Ended, split_index, published).0.run_state is Finished,
{
}

/// On a route, a run under way splits exactly when the event that the route
/// expects at the timer's split index has been reached, and then only once
/// (away from the main menu and before the final encounter).
pub proof fn lemma_route_event_splits(
    s: TrackerState,
    route: Seq<Event>,
    view: GameView,
    split_index: i64,
)
    requires
        s.run_state is Active,
        s.last_room != FINAL_BOSS_ROOM,
        !view.at_main_menu,
        0 <= split_index < route.len(),
    ensures
        after_progress(s, Some(route), view, Some(split_index)).1 == if event_met(
            route[split_index as int],
            view,
        ) {
            seq![Command::Split]
        } else {
            Seq::<Command>::empty()
        },
{
}

} // verus!
