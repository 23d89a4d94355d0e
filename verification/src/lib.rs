//! Decisions of a session watchdog.
use vstd::prelude::*;

pub mod api_retry;
pub mod ask_question;
pub mod backoff;
pub mod config;
pub mod context;
pub mod context_monitor;
pub mod cycle;
pub mod foreground;
pub mod fresh_clear;
pub mod hang;
pub mod interrupts;
pub mod liveness;
pub mod login;
pub mod login_messages;
pub mod malformed;
pub mod obligation;
pub mod relaunch;
pub mod respawn;
pub mod session;
pub mod state;
pub mod stuck;
pub mod suppression;
pub mod text;
pub mod time;
pub mod tokens;
pub mod update;
pub mod watcher_health;
pub mod watcher_inject;
pub mod watcher_round;
pub mod watchers;
pub mod wedged;

verus! {

} // verus!
