//! Run tracking for an automatic split timer: the decisions that turn what a
//! running game and a split-timer service report into split and reset
//! commands for the timer.
//!
//! The library performs no I/O. A caller owns the timer connection and the
//! game state source, and drives a [`tracker::Tracker`] once per poll:
//!
//! - while the timer is unreachable, it reconnects and hands the first round
//!   of answers to `timer_reconnected`;
//! - while the game is unreachable, it waits for it and calls
//!   `game_reconnected`;
//! - once both are reachable, a tick asks `keep_alive_due` whether to question
//!   the timer (`apply_timer_sync`), then hands the game's health check to
//!   `apply_game_state`, and last the game's view and, where
//!   `wants_split_index` says so, the timer's split index to
//!   `track_progress`.
//!
//! Each step returns the commands to send, in order. A step whose `proceed`
//! is false ends the tick, and a command that cannot be sent ends it too
//! (`timer_lost` where the connection dropped). The caller then waits
//! `ConnectionState::get_delay` milliseconds.
pub mod emulator;
pub mod game;
pub mod keep_alive;
pub mod laws;
pub mod split_type;
pub mod splits;
pub mod text;
pub mod timer;
pub mod tracker;
