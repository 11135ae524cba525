use vstd::prelude::*;

use crate::game::{GameState, GameView};
use crate::keep_alive::{poll, KeepAliveCounter};
use crate::split_type::{
    reconcile, reconciliation, route_of, route_of_effective, route_view, SplitType,
};
use crate::splits::{event_met, Event};
use crate::timer::TimerPhase;

verus! {

/// Milliseconds between attempts to reach the timer again.
pub const CONNECTION_RETRY_MS: u64 = 1000;

/// Milliseconds between attempts to find the game again.
pub const GAME_RETRY_MS: u64 = 5000;

/// Polls between two checks of the timer (about five seconds at the default
/// polling interval).
pub const LIVE_SPLIT_KEEP_ALIVE: i32 = 334;

/// The location that stands for "no location yet".
pub const NO_ROOM: (u16, u16) = (0, 0);

/// The first location after the intro, from which on locations are tracked.
pub const SECOND_ROOM: (u16, u16) = (0, 1);

/// The location of the final encounter.
pub const FINAL_BOSS_ROOM: (u16, u16) = (8, 7);

/// Which dependency, if any, is still to be (re)connected.
#[derive(Debug, Clone, Copy, PartialEq, Eq, Structural)]
pub enum ConnectionState {
    /// The timer is unreachable.
    LiveSplitPending,
    /// The timer is reachable; the game is not.
    GamePending,
    /// Both are reachable.
    Connected,
}

/// The state one handshake further on.
pub open spec fn advanced(c: ConnectionState) -> ConnectionState {
    match c {
        ConnectionState::LiveSplitPending => ConnectionState::GamePending,
        _ => ConnectionState::Connected,
    }
}

/// Milliseconds to wait before the next poll.
pub open spec fn delay_ms(c: ConnectionState, update_frequency_ms: u64) -> u64 {
    match c {
        ConnectionState::LiveSplitPending => CONNECTION_RETRY_MS,
        ConnectionState::GamePending => GAME_RETRY_MS,
        ConnectionState::Connected => update_frequency_ms,
    }
}

impl ConnectionState {
    /// Moves one handshake further on.
    pub fn advance(&mut self)
        ensures
            *final(self) == advanced(*old(self)),
    {
        *self = match self {
            ConnectionState::LiveSplitPending => ConnectionState::GamePending,
            _ => ConnectionState::Connected,
        };
    }

    /// Milliseconds to wait before the next poll: a short retry interval while
    /// the timer is unreachable, a longer one while the game is, and the
    /// polling interval once both are reachable.
    pub fn get_delay(&self, update_frequency_ms: u64) -> (r: u64)
        ensures
            r == delay_ms(*self, update_frequency_ms),
    {
        match self {
            ConnectionState::LiveSplitPending => CONNECTION_RETRY_MS,
            ConnectionState::GamePending => GAME_RETRY_MS,
            ConnectionState::Connected => update_frequency_ms,
        }
    }
}

/// Where the run stands.
#[derive(Debug, Clone, Copy, PartialEq, Eq, Structural)]
pub enum RunState {
    NotStarted,
    /// Started, but still in the intro, where locations are not tracked.
    Intro,
    Active,
    Finished,
}

pub open spec fn started(r: RunState) -> bool {
    !(r is NotStarted)
}

pub open spec fn active(r: RunState) -> bool {
    r is Intro || r is Active
}

impl RunState {
    pub fn is_started(&self) -> (r: bool)
        ensures
            r == started(*self),
    {
        !matches!(self, RunState::NotStarted)
    }

    /// In the intro or under way.
    pub fn is_active(&self) -> (r: bool)
        ensures
            r == active(*self),
    {
        matches!(self, RunState::Intro | RunState::Active)
    }
}

/// A command for the timer.
#[derive(Debug, Clone, Copy, PartialEq, Eq, Structural)]
pub enum Command {
    /// Start the timer, or end the current segment.
    Split,
    /// Clear the timer.
    Reset,
}

/// What a round of questions to the timer brought.
#[derive(Debug, Clone, Copy, PartialEq, Eq)]
pub enum TimerSync {
    /// The connection dropped.
    Lost,
    /// The connection holds, but a reply made no sense.
    Garbled,
    /// The timer's phase, its split index and the split type it names.
    Report { phase: TimerPhase, split_index: i64, published: Option<SplitType> },
}

/// The state of the tracker, without the route it caches.
#[derive(Debug, Clone, Copy, PartialEq, Eq)]
pub struct TrackerState {
    pub connection_state: ConnectionState,
    pub run_state: RunState,
    /// The last location seen while the run was under way.
    pub last_room: (u16, u16),
    pub live_split_keep_alive: KeepAliveCounter,
    /// The split type the user asked for.
    pub requested: Option<SplitType>,
    /// The split type in effect.
    pub effective: Option<SplitType>,
    /// The split type the timer named last time it was asked.
    pub last_published: Option<SplitType>,
}

/// What a call of `split` leads to: nothing once the run is finished; a start
/// of the run, with the last location cleared, before it started.
pub open spec fn after_split(s: TrackerState) -> (TrackerState, Seq<Command>) {
    if s.run_state is Finished {
        (s, seq![])
    } else if s.run_state is NotStarted {
        (TrackerState { run_state: RunState::Intro, last_room: NO_ROOM, ..s }, seq![Command::Split])
    } else {
        (s, seq![Command::Split])
    }
}

/// What a call of `reset` leads to: a reset of a started run, nothing else.
pub open spec fn after_reset(s: TrackerState) -> (TrackerState, Seq<Command>) {
    if started(s.run_state) {
        (TrackerState { run_state: RunState::NotStarted, ..s }, seq![Command::Reset])
    } else {
        (s, seq![])
    }
}

/// What the loss of a dependency leads to: the tracker waits for it, and
/// resets the run where the timer can still hear it.
pub open spec fn after_conn_fail(
    s: TrackerState,
    new_state: ConnectionState,
    timer_connected: bool,
) -> (TrackerState, Seq<Command>) {
    let s1 = TrackerState { connection_state: new_state, ..s };
    if timer_connected {
        after_reset(s1)
    } else {
        (s1, seq![])
    }
}

/// The run state that mirrors the timer: not started while it does not run,
/// finished once it ended, and otherwise in the intro while it stands at its
/// first split (unless the run was already under way), else under way.
pub open spec fn timer_run_state(current: RunState, phase: TimerPhase, split_index: i64) -> RunState {
    match phase {
        TimerPhase::NotRunning => RunState::NotStarted,
        TimerPhase::Ended => RunState::Finished,
        _ => if !(current is Active) && split_index == 0 {
            RunState::Intro
        } else {
            RunState::Active
        },
    }
}

/// The state with another run state; entering the intro clears the last
/// location.
pub open spec fn with_run_state(s: TrackerState, r: RunState) -> TrackerState {
    TrackerState {
        run_state: r,
        last_room: if r is Intro && !(s.run_state is Intro) {
            NO_ROOM
        } else {
            s.last_room
        },
        ..s
    }
}

/// What the split type that the timer names leads to.
pub open spec fn after_published(s: TrackerState, published: Option<SplitType>) -> (
    TrackerState,
    Seq<Command>,
) {
    let rec = reconciliation(s.requested, s.effective, published, s.last_published);
    let s1 = TrackerState { effective: rec.effective, last_published: published, ..s };
    if rec.reset {
        after_reset(s1)
    } else {
        (s1, seq![])
    }
}

/// What a report of the timer leads to.
pub open spec fn after_report(
    s: TrackerState,
    phase: TimerPhase,
    split_index: i64,
    published: Option<SplitType>,
) -> (TrackerState, Seq<Command>) {
    after_published(with_run_state(s, timer_run_state(s.run_state, phase, split_index)), published)
}

/// What the periodic round of questions to the timer leads to, and whether the
/// tick goes on.
pub open spec fn after_sync(s: TrackerState, sync: TimerSync) -> (TrackerState, Seq<Command>, bool) {
    match sync {
        TimerSync::Lost => {
            let r = after_conn_fail(s, ConnectionState::LiveSplitPending, false);
            (r.0, r.1, false)
        },
        TimerSync::Garbled => (s, seq![], true),
        TimerSync::Report { phase, split_index, published } => {
            let r = after_report(s, phase, split_index, published);
            (r.0, r.1, true)
        },
    }
}

/// What a round of questions to the timer right after reconnecting to it
/// leads to: unless the connection dropped again, the tracker takes what the
/// timer reported and moves on to the game.
pub open spec fn after_timer_reconnect(s: TrackerState, sync: TimerSync) -> (TrackerState, Seq<Command>) {
    let r = match sync {
        TimerSync::Report { phase, split_index, published } => after_report(
            s,
            phase,
            split_index,
            published,
        ),
        _ => (s, seq![]),
    };
    match sync {
        TimerSync::Lost => (s, seq![]),
        _ => (
            TrackerState {
                connection_state: advanced(r.0.connection_state),
                live_split_keep_alive: r.0.live_split_keep_alive.rearmed(),
                ..r.0
            },
            r.1,
        ),
    }
}

/// What the health check of the game leads to, and whether the tick goes on:
/// another game resets the run, a lost game makes the tracker wait for it.
pub open spec fn after_game_state(s: TrackerState, state: GameState, timer_connected: bool) -> (
    TrackerState,
    Seq<Command>,
    bool,
) {
    match state {
        GameState::Connected => (s, seq![], true),
        GameState::GameChanged => {
            let r = after_reset(s);
            (r.0, r.1, false)
        },
        GameState::Disconnected => {
            let r = after_conn_fail(s, ConnectionState::GamePending, timer_connected);
            (r.0, r.1, false)
        },
    }
}

/// Whether the event that the route expects at the timer's split index has
/// been reached. An index out of the route, or none, expects nothing.
pub open spec fn pending_event_met(route: Seq<Event>, split_index: Option<i64>, view: GameView) -> bool {
    match split_index {
        Some(i) => 0 <= i < route.len() && event_met(route[i as int], view),
        None => false,
    }
}

/// The part of a tick that follows the player, once the dependencies are
/// known to be healthy.
pub open spec fn after_progress(
    s: TrackerState,
    route: Option<Seq<Event>>,
    view: GameView,
    split_index: Option<i64>,
) -> (TrackerState, Seq<Command>) {
    let here = view.location();
    if active(s.run_state) && view.at_main_menu {
        after_reset(s)
    } else if !active(s.run_state) && view.new_game_start {
        let r1 = if s.run_state is Finished {
            after_reset(s)
        } else {
            (s, seq![])
        };
        let r2 = after_split(r1.0);
        (r2.0, r1.1 + r2.1)
    } else if s.run_state is Intro {
        if here == SECOND_ROOM {
            let s1 = TrackerState { run_state: RunState::Active, last_room: SECOND_ROOM, ..s };
            if route is None {
                after_split(s1)
            } else {
                (s1, seq![])
            }
        } else {
            (s, seq![])
        }
    } else if !(s.run_state is Active) {
        (s, seq![])
    } else if s.last_room == FINAL_BOSS_ROOM {
        if view.defeated_final_boss {
            let r = after_split(s);
            (TrackerState { run_state: RunState::Finished, last_room: here, ..r.0 }, r.1)
        } else {
            (TrackerState { last_room: here, ..s }, seq![])
        }
    } else {
        let trigger = match route {
            Some(events) => pending_event_met(events, split_index, view),
            None => s.last_room != here,
        };
        let r = if trigger {
            after_split(s)
        } else {
            (s, seq![])
        };
        (TrackerState { last_room: here, ..r.0 }, r.1)
    }
}

/// The run-tracking engine: it turns what the timer and the game report into
/// split and reset commands for the timer. It performs no I/O itself; each
/// method takes what was observed and returns the commands to send, in order.
#[derive(Debug)]
pub struct Tracker {
    pub state: TrackerState,
    /// The route of the split type in effect.
    pub splits: Option<Vec<Event>>,
}

/// What a step of a tick asks for: the commands to send, in order, and
/// whether the rest of the tick goes on.
#[derive(Debug)]
pub struct Step {
    pub commands: Vec<Command>,
    pub proceed: bool,
}

/// Whether two optional split types are the same.
fn same_split_type(a: Option<SplitType>, b: Option<SplitType>) -> (r: bool)
    ensures
        r == (a == b),
{
    match (a, b) {
        (Some(x), Some(y)) => x == y,
        (None, None) => true,
        _ => false,
    }
}

impl Tracker {
    pub open spec fn wf(&self) -> bool {
        &&& self.state.live_split_keep_alive.wf()
        &&& route_view(self.splits) == route_of_effective(self.state.effective)
    }

    /// The route in effect.
    pub open spec fn route(&self) -> Option<Seq<Event>> {
        route_view(self.splits)
    }

    /// A tracker with both dependencies reachable and no run started; the
    /// first tick asks the timer at once, so that the split type is settled.
    pub fn new(requested: Option<SplitType>) -> (r: Tracker)
        ensures
            r.wf(),
            r.state.connection_state == ConnectionState::Connected,
            r.state.run_state == RunState::NotStarted,
            r.state.last_room == NO_ROOM,
            r.state.live_split_keep_alive.period == LIVE_SPLIT_KEEP_ALIVE,
            r.state.live_split_keep_alive.remaining == 0,
            r.state.requested == requested,
            r.state.effective is None,
            r.state.last_published is None,
    {
        Tracker {
            state: TrackerState {
                connection_state: ConnectionState::Connected,
                run_state: RunState::NotStarted,
                last_room: NO_ROOM,
                live_split_keep_alive: KeepAliveCounter::new(
                    LIVE_SPLIT_KEEP_ALIVE,
                ).with_trigger_on_start(),
                requested,
                effective: None,
                last_published: None,
            },
            splits: None,
        }
    }

    fn split_into(&mut self, out: &mut Vec<Command>)
        requires
            old(self).wf(),
        ensures
            final(self).wf(),
            final(self).splits == old(self).splits,
            final(self).state == after_split(old(self).state).0,
            final(out)@ == old(out)@ + after_split(old(self).state).1,
    {
        if self.state.run_state == RunState::Finished {
            return;
        }
        if self.state.run_state == RunState::NotStarted {
            self.state.run_state = RunState::Intro;
            self.state.last_room = NO_ROOM;
        }
        out.push(Command::Split);
    }

    fn reset_into(&mut self, out: &mut Vec<Command>)
        requires
            old(self).wf(),
        ensures
            final(self).wf(),
            final(self).splits == old(self).splits,
            final(self).state == after_reset(old(self).state).0,
            final(out)@ == old(out)@ + after_reset(old(self).state).1,
    {
        if self.state.run_state.is_started() {
            out.push(Command::Reset);
            self.state.run_state = RunState::NotStarted;
        }
    }

    /// Asks for a split: none once the run is finished; before the run
    /// started, the run enters its intro and the last location is cleared.
    pub fn split(&mut self) -> (r: Vec<Command>)
        requires
            old(self).wf(),
        ensures
            final(self).wf(),
            final(self).splits == old(self).splits,
            (final(self).state, r@) == after_split(old(self).state),
    {
        let mut out: Vec<Command> = Vec::new();
        self.split_into(&mut out);
        assert(out@ =~= after_split(old(self).state).1);
        out
    }

    /// Asks for a reset of a started run; a run that has not started is left
    /// alone.
    pub fn reset(&mut self) -> (r: Vec<Command>)
        requires
            old(self).wf(),
        ensures
            final(self).wf(),
            final(self).splits == old(self).splits,
            (final(self).state, r@) == after_reset(old(self).state),
    {
        let mut out: Vec<Command> = Vec::new();
        self.reset_into(&mut out);
        assert(out@ =~= after_reset(old(self).state).1);
        out
    }

    /// A dependency was lost: waits for it, and resets the run where the timer
    /// can still hear it.
    pub fn conn_fail(&mut self, new_state: ConnectionState, timer_connected: bool) -> (r: Vec<
        Command,
    >)
        requires
            old(self).wf(),
        ensures
            final(self).wf(),
            final(self).splits == old(self).splits,
            (final(self).state, r@) == after_conn_fail(old(self).state, new_state, timer_connected),
    {
        self.state.connection_state = new_state;
        if timer_connected {
            self.reset()
        } else {
            Vec::new()
        }
    }

    /// The timer stopped answering in the middle of a tick.
    pub fn timer_lost(&mut self)
        requires
            old(self).wf(),
        ensures
            final(self).wf(),
            final(self).splits == old(self).splits,
            final(self).state == after_conn_fail(
                old(self).state,
                ConnectionState::LiveSplitPending,
                false,
            ).0,
    {
        self.state.connection_state = ConnectionState::LiveSplitPending;
    }

    fn set_split_type(&mut self, effective: Option<SplitType>)
        requires
            old(self).wf(),
            effective is None ==> old(self).state.effective is None,
        ensures
            final(self).wf(),
            final(self).state == (TrackerState { effective, ..old(self).state }),
    {
        if !same_split_type(effective, self.state.effective) {
            self.splits = match effective {
                Some(t) => t.splits(),
                None => None,
            };
        }
        self.state.effective = effective;
    }

    /// Takes the split type that the timer names (none where it names none, or
    /// none that is known) into account; see `reconciliation`.
    pub fn sync_split_type(&mut self, published: Option<SplitType>) -> (r: Vec<Command>)
        requires
            old(self).wf(),
        ensures
            final(self).wf(),
            (final(self).state, r@) == after_published(old(self).state, published),
    {
        let s = self.state;
        let rec = reconcile(s.requested, s.effective, published, s.last_published);
        self.set_split_type(rec.effective);
        self.state.last_published = published;
        if rec.reset {
            self.reset()
        } else {
            Vec::new()
        }
    }

    fn apply_report(&mut self, phase: TimerPhase, split_index: i64, published: Option<SplitType>) -> (r: Vec<
        Command,
    >)
        requires
            old(self).wf(),
        ensures
            final(self).wf(),
            (final(self).state, r@) == after_report(old(self).state, phase, split_index, published),
    {
        let current = self.state.run_state;
        let next = match phase {
            TimerPhase::NotRunning => RunState::NotStarted,
            TimerPhase::Ended => RunState::Finished,
            _ => if current != RunState::Active && split_index == 0 {
                RunState::Intro
            } else {
                RunState::Active
            },
        };
        if next == RunState::Intro && current != RunState::Intro {
            self.state.last_room = NO_ROOM;
        }
        self.state.run_state = next;
        self.sync_split_type(published)
    }

    /// Counts one poll on the timer's keep-alive; true where the timer is due
    /// to be asked how it stands (`apply_timer_sync`).
    pub fn keep_alive_due(&mut self) -> (r: bool)
        requires
            old(self).wf(),
        ensures
            final(self).wf(),
            final(self).splits == old(self).splits,
            final(self).state == (TrackerState {
                live_split_keep_alive: poll(old(self).state.live_split_keep_alive).0,
                ..old(self).state
            }),
            r == poll(old(self).state.live_split_keep_alive).1,
    {
        self.state.live_split_keep_alive.should_check()
    }

    /// Takes in what the periodic questions to the timer brought: a lost
    /// connection ends the tick and waits for the timer; an answer that makes
    /// no sense is passed over; a report brings the run state in line with
    /// the timer and settles the split type.
    pub fn apply_timer_sync(&mut self, sync: TimerSync) -> (r: Step)
        requires
            old(self).wf(),
        ensures
            final(self).wf(),
            (final(self).state, r.commands@, r.proceed) == after_sync(old(self).state, sync),
    {
        match sync {
            TimerSync::Lost => {
                self.timer_lost();
                Step { commands: Vec::new(), proceed: false }
            },
            TimerSync::Garbled => Step { commands: Vec::new(), proceed: true },
            TimerSync::Report { phase, split_index, published } => {
                let commands = self.apply_report(phase, split_index, published);
                Step { commands, proceed: true }
            },
        }
    }

    /// Takes in what the first questions to the timer brought right after it
    /// was reached again: unless the connection dropped again, the tracker
    /// takes what the timer reported and moves on to the game.
    pub fn timer_reconnected(&mut self, sync: TimerSync) -> (r: Vec<Command>)
        requires
            old(self).wf(),
        ensures
            final(self).wf(),
            (final(self).state, r@) == after_timer_reconnect(old(self).state, sync),
    {
        let commands = match sync {
            TimerSync::Lost => {
                return Vec::new();
            },
            TimerSync::Garbled => Vec::new(),
            TimerSync::Report { phase, split_index, published } => self.apply_report(
                phase,
                split_index,
                published,
            ),
        };
        self.state.live_split_keep_alive.reset();
        self.state.connection_state.advance();
        commands
    }

    /// The game was found again.
    pub fn game_reconnected(&mut self)
        requires
            old(self).wf(),
        ensures
            final(self).wf(),
            final(self).splits == old(self).splits,
            final(self).state == (TrackerState {
                connection_state: advanced(old(self).state.connection_state),
                ..old(self).state
            }),
    {
        self.state.connection_state.advance();
    }

    /// Takes in the health check of the game: another game resets the run; a
    /// lost game ends the tick and waits for the game.
    pub fn apply_game_state(&mut self, state: GameState, timer_connected: bool) -> (r: Step)
        requires
            old(self).wf(),
        ensures
            final(self).wf(),
            final(self).splits == old(self).splits,
            (final(self).state, r.commands@, r.proceed) == after_game_state(
                old(self).state,
                state,
                timer_connected,
            ),
    {
        match state {
            GameState::Connected => Step { commands: Vec::new(), proceed: true },
            GameState::GameChanged => Step { commands: self.reset(), proceed: false },
            GameState::Disconnected => Step {
                commands: self.conn_fail(ConnectionState::GamePending, timer_connected),
                proceed: false,
            },
        }
    }

    /// Whether `track_progress` will look at the timer's split index: only
    /// while the run is under way, before the final encounter, on a route.
    pub fn wants_split_index(&self) -> (r: bool)
        ensures
            r == (self.state.run_state is Active && self.state.last_room != FINAL_BOSS_ROOM
                && self.splits is Some),
    {
        self.state.run_state == RunState::Active && !(self.state.last_room.0 == FINAL_BOSS_ROOM.0
            && self.state.last_room.1 == FINAL_BOSS_ROOM.1) && self.splits.is_some()
    }

    fn pending_event_is_met(&self, split_index: Option<i64>, view: &GameView) -> (r: bool)
        requires
            self.splits is Some,
        ensures
            r == pending_event_met(self.splits->Some_0@, split_index, *view),
    {
        match (&self.splits, split_index) {
            (Some(events), Some(i)) => {
                if i < 0 || i as u64 >= events.len() as u64 {
                    false
                } else {
                    events[i as usize].is_met(view)
                }
            },
            _ => false,
        }
    }

    /// Follows the player for one tick: a return to the main menu resets a
    /// run under way; the start of a new game starts a run (resetting a
    /// finished one first); the intro ends at the second room; and under way,
    /// the route's next event, or without a route any change of room, splits,
    /// until the final encounter is won.
    pub fn track_progress(&mut self, view: &GameView, split_index: Option<i64>) -> (r: Vec<
        Command,
    >)
        requires
            old(self).wf(),
        ensures
            final(self).wf(),
            final(self).splits == old(self).splits,
            (final(self).state, r@) == after_progress(
                old(self).state,
                old(self).route(),
                *view,
                split_index,
            ),
    {
        let mut out: Vec<Command> = Vec::new();
        let run_state = self.state.run_state;
        let here = view.room();
        if run_state.is_active() && view.at_main_menu {
            self.reset_into(&mut out);
        } else if !run_state.is_active() && view.new_game_start {
            if run_state == RunState::Finished {
                self.reset_into(&mut out);
            }
            self.split_into(&mut out);
        } else if run_state == RunState::Intro {
            if here.0 == SECOND_ROOM.0 && here.1 == SECOND_ROOM.1 {
                self.state.run_state = RunState::Active;
                self.state.last_room = SECOND_ROOM;
                if self.splits.is_none() {
                    self.split_into(&mut out);
                }
            }
        } else if run_state != RunState::Active {
        } else if self.state.last_room.0 == FINAL_BOSS_ROOM.0 && self.state.last_room.1
            == FINAL_BOSS_ROOM.1 {
            if view.defeated_final_boss {
                self.split_into(&mut out);
                self.state.run_state = RunState::Finished;
            }
            self.state.last_room = here;
        } else {
            let trigger = if self.splits.is_some() {
                self.pending_event_is_met(split_index, view)
            } else {
                !(self.state.last_room.0 == here.0 && self.state.last_room.1 == here.1)
            };
            if trigger {
                self.split_into(&mut out);
            }
            self.state.last_room = here;
        }
        out
    }
}

} // verus!
