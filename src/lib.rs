//! Timer scheduling and update-dispatch engine of the `rimer` daemon.
//!
//! The daemon keeps a set of named countdown timers. Each timer is a state
//! machine driven by its own thread; a shared updater debounces the timers'
//! snapshots and runs an external notifier program; a dispatcher owns the set
//! of live timers and answers client requests. This crate holds the decisions
//! of all three as verified functions over plain values: the threads, the
//! channels, the clock and the notifier process are driven from outside.

pub mod config;
pub mod dispatcher;
pub mod flag;
pub mod request;
pub mod response;
pub mod snapshot;
pub mod state;
pub mod timer;
pub mod updater;

pub use config::Config;
pub use dispatcher::{collect_report, quit_plan, Step, TimerSet};
pub use flag::{TimerState, TimerStateFlag};
pub use request::Request;
pub use response::{Error, Response};
pub use snapshot::{secs_text, Snapshot, NANOS_PER_SEC};
pub use state::State;
pub use timer::{Command, Effects, Event, Outcome, TimerCore, TimerView, Wait};
pub use updater::{command_args, handle_update, Message};
