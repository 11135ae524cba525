use galerians_autosplitter::game::{GameState, GameView, Item, Stage};
use galerians_autosplitter::split_type::SplitType;
use galerians_autosplitter::splits::Event;
use galerians_autosplitter::timer::TimerPhase;
use galerians_autosplitter::tracker::{
    Command, ConnectionState, RunState, TimerSync, Tracker, FINAL_BOSS_ROOM, NO_ROOM, SECOND_ROOM,
};

fn view(room: (u16, u16)) -> GameView {
    GameView {
        map_id: room.0,
        room_id: room.1,
        at_main_menu: false,
        new_game_start: false,
        defeated_final_boss: false,
        flag_words: vec![0; 12],
        held_items: Vec::new(),
    }
}

fn report(phase: TimerPhase, split_index: i64, published: Option<SplitType>) -> TimerSync {
    TimerSync::Report { phase, split_index, published }
}

/// A tracker with a run under way at `room`, splitting by `split_type`.
fn active_at(split_type: SplitType, room: (u16, u16)) -> Tracker {
    let mut t = Tracker::new(Some(split_type));
    assert!(t.keep_alive_due());
    let step = t.apply_timer_sync(report(TimerPhase::Running, 5, None));
    assert!(step.proceed);
    assert_eq!(t.state.run_state, RunState::Active);
    assert_eq!(t.state.effective, Some(split_type));
    t.state.last_room = room;
    t
}

#[test]
fn new_tracker_asks_timer_first() {
    let mut t = Tracker::new(None);
    assert_eq!(t.state.connection_state, ConnectionState::Connected);
    assert_eq!(t.state.run_state, RunState::NotStarted);
    assert_eq!(t.state.last_room, NO_ROOM);
    assert!(t.keep_alive_due());
    assert!(!t.keep_alive_due());
}

#[test]
fn split_starts_run_and_clears_last_room() {
    let mut t = Tracker::new(None);
    t.state.last_room = (4, 4);
    assert_eq!(t.split(), vec![Command::Split]);
    assert_eq!(t.state.run_state, RunState::Intro);
    assert_eq!(t.state.last_room, NO_ROOM);
    assert_eq!(t.split(), vec![Command::Split]);
    assert_eq!(t.state.run_state, RunState::Intro);
}

#[test]
fn split_is_noop_when_finished() {
    let mut t = Tracker::new(None);
    let _ = t.apply_timer_sync(report(TimerPhase::Ended, 10, None));
    assert_eq!(t.state.run_state, RunState::Finished);
    let before = t.state;
    for _ in 0..5 {
        assert_eq!(t.split(), Vec::new());
        assert_eq!(t.state, before);
    }
}

#[test]
fn reset_only_when_started() {
    let mut t = Tracker::new(None);
    assert_eq!(t.reset(), Vec::new());
    assert_eq!(t.state.run_state, RunState::NotStarted);
    let _ = t.split();
    assert_eq!(t.reset(), vec![Command::Reset]);
    assert_eq!(t.state.run_state, RunState::NotStarted);
}

#[test]
fn timer_sync_into_intro_clears_last_room() {
    let mut t = Tracker::new(None);
    t.state.last_room = (5, 5);
    let step = t.apply_timer_sync(report(TimerPhase::Running, 0, None));
    assert!(step.proceed);
    assert_eq!(t.state.run_state, RunState::Intro);
    assert_eq!(t.state.last_room, NO_ROOM);
}

#[test]
fn timer_sync_keeps_active_run_active_at_index_zero() {
    let mut t = active_at(SplitType::AllDoors, (1, 1));
    let _ = t.apply_timer_sync(report(TimerPhase::Paused, 0, None));
    assert_eq!(t.state.run_state, RunState::Active);
    assert_eq!(t.state.last_room, (1, 1));
}

#[test]
fn timer_not_running_means_not_started() {
    let mut t = active_at(SplitType::AllDoors, (1, 1));
    let _ = t.apply_timer_sync(report(TimerPhase::NotRunning, 3, None));
    assert_eq!(t.state.run_state, RunState::NotStarted);
}

#[test]
fn ended_timer_finishes_run_from_any_state() {
    for start in [TimerPhase::NotRunning, TimerPhase::Running] {
        let mut t = Tracker::new(None);
        let _ = t.apply_timer_sync(report(start, 0, None));
        let _ = t.apply_timer_sync(report(TimerPhase::Ended, 7, None));
        assert_eq!(t.state.run_state, RunState::Finished);
    }
    let mut t = active_at(SplitType::KeyEvents, (2, 2));
    let _ = t.apply_timer_sync(report(TimerPhase::Ended, 0, None));
    assert_eq!(t.state.run_state, RunState::Finished);
}

#[test]
fn room_change_without_route_splits_once() {
    let mut t = active_at(SplitType::AllDoors, (1, 2));
    assert!(t.splits.is_none());
    assert!(!t.wants_split_index());
    assert_eq!(t.track_progress(&view((1, 3)), None), vec![Command::Split]);
    assert_eq!(t.state.last_room, (1, 3));
    assert_eq!(t.track_progress(&view((1, 3)), None), Vec::new());
    assert_eq!(t.state.last_room, (1, 3));
}

#[test]
fn item_event_splits_when_held_and_not_before() {
    let mut t = active_at(SplitType::KeyEvents, (0, 3));
    let route = t.splits.clone().unwrap();
    assert_eq!(route[3], Event::Item(Item::Fuse));
    assert!(t.wants_split_index());
    let mut v = view((0, 6));
    assert_eq!(t.track_progress(&v, Some(3)), Vec::new());
    v.held_items = vec![Item::SecurityCard.id(), Item::Beeject.id()];
    assert_eq!(t.track_progress(&v, Some(3)), Vec::new());
    v.held_items.push(Item::Fuse.id());
    assert_eq!(t.track_progress(&v, Some(3)), vec![Command::Split]);
    assert_eq!(t.state.run_state, RunState::Active);
}

#[test]
fn route_index_out_of_range_matches_nothing() {
    let mut t = active_at(SplitType::KeyEvents, (0, 3));
    let mut v = view((0, 6));
    v.held_items = vec![Item::SecurityCard.id()];
    assert_eq!(t.track_progress(&v, Some(-1)), Vec::new());
    assert_eq!(t.track_progress(&v, Some(45)), Vec::new());
    assert_eq!(t.track_progress(&v, None), Vec::new());
    assert_eq!(t.track_progress(&v, Some(0)), vec![Command::Split]);
}

#[test]
fn flag_event_splits_when_flag_set() {
    let mut t = active_at(SplitType::KeyEvents, (5, 0));
    let route = t.splits.clone().unwrap();
    assert_eq!(route[26], Event::Flag(Stage::C, 5));
    let mut v = view((5, 0));
    assert_eq!(t.track_progress(&v, Some(26)), Vec::new());
    // stage C, bank 0: word 2
    v.flag_words[2] = 1 << 5;
    assert_eq!(t.track_progress(&v, Some(26)), vec![Command::Split]);
}

#[test]
fn room_event_on_door_route() {
    let mut t = active_at(SplitType::RouteDoors, (0, 1));
    // the door route's first event is room 1 of the first map
    assert_eq!(t.track_progress(&view((0, 12)), Some(0)), Vec::new());
    assert_eq!(t.track_progress(&view((0, 1)), Some(0)), vec![Command::Split]);
    // its twenty-fourth event is a room mapped twice
    assert_eq!(t.track_progress(&view((1, 5)), Some(23)), vec![Command::Split]);
    assert_eq!(t.track_progress(&view((0, 7)), Some(23)), vec![Command::Split]);
    assert_eq!(t.track_progress(&view((0, 8)), Some(23)), Vec::new());
}

#[test]
fn main_menu_resets_active_run() {
    let mut t = active_at(SplitType::AllDoors, (1, 2));
    let mut v = view((9, 9));
    v.at_main_menu = true;
    assert_eq!(t.track_progress(&v, None), vec![Command::Reset]);
    assert_eq!(t.state.run_state, RunState::NotStarted);
    assert_eq!(t.track_progress(&v, None), Vec::new());
}

#[test]
fn new_game_starts_run_and_intro_waits_for_second_room() {
    let mut t = Tracker::new(None);
    let _ = t.sync_split_type(None);
    let mut v = view((0, 0));
    v.new_game_start = true;
    assert_eq!(t.track_progress(&v, None), vec![Command::Split]);
    assert_eq!(t.state.run_state, RunState::Intro);
    assert_eq!(t.state.last_room, NO_ROOM);
    assert_eq!(t.track_progress(&view((0, 0)), None), Vec::new());
    assert_eq!(t.state.run_state, RunState::Intro);
    assert_eq!(t.track_progress(&view(SECOND_ROOM), None), vec![Command::Split]);
    assert_eq!(t.state.run_state, RunState::Active);
    assert_eq!(t.state.last_room, SECOND_ROOM);
}

#[test]
fn intro_end_does_not_split_on_a_route() {
    let mut t = Tracker::new(Some(SplitType::KeyEvents));
    let _ = t.sync_split_type(None);
    let _ = t.split();
    assert_eq!(t.track_progress(&view(SECOND_ROOM), None), Vec::new());
    assert_eq!(t.state.run_state, RunState::Active);
}

#[test]
fn new_game_after_finish_resets_then_splits() {
    let mut t = Tracker::new(None);
    let _ = t.apply_timer_sync(report(TimerPhase::Ended, 3, None));
    let mut v = view((0, 0));
    v.new_game_start = true;
    assert_eq!(t.track_progress(&v, None), vec![Command::Reset, Command::Split]);
    assert_eq!(t.state.run_state, RunState::Intro);
}

#[test]
fn final_boss_room_waits_for_victory() {
    let mut t = active_at(SplitType::AllDoors, FINAL_BOSS_ROOM);
    assert_eq!(t.track_progress(&view(FINAL_BOSS_ROOM), None), Vec::new());
    let mut v = view(FINAL_BOSS_ROOM);
    v.defeated_final_boss = true;
    assert_eq!(t.track_progress(&v, None), vec![Command::Split]);
    assert_eq!(t.state.run_state, RunState::Finished);
    assert_eq!(t.track_progress(&v, None), Vec::new());
}

#[test]
fn game_changed_resets_and_ends_tick() {
    let mut t = active_at(SplitType::AllDoors, (1, 1));
    let step = t.apply_game_state(GameState::GameChanged, true);
    assert_eq!(step.commands, vec![Command::Reset]);
    assert!(!step.proceed);
    assert_eq!(t.state.connection_state, ConnectionState::Connected);
    let step = t.apply_game_state(GameState::Connected, true);
    assert!(step.commands.is_empty());
    assert!(step.proceed);
}

#[test]
fn lost_game_resets_only_while_timer_listens() {
    let mut t = active_at(SplitType::AllDoors, (1, 1));
    let step = t.apply_game_state(GameState::Disconnected, true);
    assert_eq!(step.commands, vec![Command::Reset]);
    assert!(!step.proceed);
    assert_eq!(t.state.connection_state, ConnectionState::GamePending);
    let mut t = active_at(SplitType::AllDoors, (1, 1));
    let step = t.apply_game_state(GameState::Disconnected, false);
    assert!(step.commands.is_empty());
    assert_eq!(t.state.connection_state, ConnectionState::GamePending);
    assert_eq!(t.state.run_state, RunState::Active);
    t.game_reconnected();
    assert_eq!(t.state.connection_state, ConnectionState::Connected);
}

#[test]
fn lost_timer_never_resets() {
    let mut t = active_at(SplitType::AllDoors, (1, 1));
    let step = t.apply_timer_sync(TimerSync::Lost);
    assert!(step.commands.is_empty());
    assert!(!step.proceed);
    assert_eq!(t.state.connection_state, ConnectionState::LiveSplitPending);
    assert_eq!(t.state.run_state, RunState::Active);
    assert_eq!(t.conn_fail(ConnectionState::LiveSplitPending, false), Vec::new());
}

#[test]
fn garbled_sync_changes_nothing() {
    let mut t = active_at(SplitType::AllDoors, (1, 1));
    let before = t.state;
    let step = t.apply_timer_sync(TimerSync::Garbled);
    assert!(step.proceed);
    assert!(step.commands.is_empty());
    assert_eq!(t.state, before);
}

#[test]
fn reconnecting_to_timer_resyncs_and_advances() {
    let mut t = active_at(SplitType::AllDoors, (1, 1));
    t.timer_lost();
    assert_eq!(t.state.connection_state, ConnectionState::LiveSplitPending);
    assert_eq!(t.timer_reconnected(TimerSync::Lost), Vec::new());
    assert_eq!(t.state.connection_state, ConnectionState::LiveSplitPending);
    let cmds = t.timer_reconnected(report(TimerPhase::NotRunning, 0, None));
    assert!(cmds.is_empty());
    assert_eq!(t.state.run_state, RunState::NotStarted);
    assert_eq!(t.state.connection_state, ConnectionState::GamePending);
    assert_eq!(t.state.live_split_keep_alive.remaining, t.state.live_split_keep_alive.period);
    t.timer_lost();
    let _ = t.timer_reconnected(TimerSync::Garbled);
    assert_eq!(t.state.connection_state, ConnectionState::GamePending);
}

#[test]
fn published_change_resets_in_same_step() {
    let mut t = Tracker::new(None);
    let _ = t.sync_split_type(Some(SplitType::RouteDoors));
    let _ = t.split();
    let cmds = t.sync_split_type(Some(SplitType::KeyEvents));
    assert_eq!(cmds, vec![Command::Reset]);
    assert_eq!(t.state.effective, Some(SplitType::KeyEvents));
    assert_eq!(t.state.run_state, RunState::NotStarted);
    assert_eq!(t.splits.as_ref().map(|s| s.len()), Some(45));
}

#[test]
fn first_published_key_events_is_taken_without_reset() {
    let mut t = Tracker::new(None);
    let _ = t.split();
    let cmds = t.sync_split_type(Some(SplitType::KeyEvents));
    assert!(cmds.is_empty());
    assert_eq!(t.state.effective, Some(SplitType::KeyEvents));
    assert_eq!(t.splits, SplitType::KeyEvents.splits());
    assert_eq!(t.state.run_state, RunState::Intro);
}

#[test]
fn user_choice_beats_first_published_type() {
    let mut t = Tracker::new(Some(SplitType::RouteDoors));
    let _ = t.split();
    let cmds = t.sync_split_type(Some(SplitType::KeyEvents));
    assert!(cmds.is_empty());
    assert_eq!(t.state.effective, Some(SplitType::RouteDoors));
    assert_eq!(t.state.last_published, Some(SplitType::KeyEvents));
    assert_eq!(t.state.run_state, RunState::Intro);
    let cmds = t.sync_split_type(Some(SplitType::AllDoors));
    assert!(cmds.is_empty());
    assert_eq!(t.state.effective, Some(SplitType::RouteDoors));
}

#[test]
fn delays_by_connection_state() {
    assert_eq!(ConnectionState::LiveSplitPending.get_delay(15), 1000);
    assert_eq!(ConnectionState::GamePending.get_delay(15), 5000);
    assert_eq!(ConnectionState::Connected.get_delay(15), 15);
    let mut c = ConnectionState::LiveSplitPending;
    c.advance();
    assert_eq!(c, ConnectionState::GamePending);
    c.advance();
    assert_eq!(c, ConnectionState::Connected);
    c.advance();
    assert_eq!(c, ConnectionState::Connected);
}

#[test]
fn run_state_predicates() {
    assert!(!RunState::NotStarted.is_started());
    assert!(RunState::Intro.is_started());
    assert!(RunState::Active.is_started());
    assert!(RunState::Finished.is_started());
    assert!(!RunState::NotStarted.is_active());
    assert!(RunState::Intro.is_active());
    assert!(RunState::Active.is_active());
    assert!(!RunState::Finished.is_active());
}
