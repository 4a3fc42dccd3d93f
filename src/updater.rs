use crate::snapshot::{decimal, secs_text, whole_secs, Snapshot, NANOS_PER_SEC};
use crate::state::State;
use vstd::prelude::*;

verus! {

/// What the timers send to the updater.
pub enum Message {
    Update { snapshot: Snapshot },
    Quit,
}

/// The debounce rule: the notifier runs for the first second of a timer, when
/// nothing has been announced in the last second, when the remaining time has
/// come down to the last announced one, and on every pause and halt.
///
/// `last_update` is shared by all timers that go through the updater.
pub open spec fn should_notify(s: Snapshot, last_update: u128) -> bool {
    ||| whole_secs(s.elapsed) == 0
    ||| whole_secs(last_update) == 0
    ||| s.remaining() <= last_update
    ||| s.state == State::Halted
    ||| s.state == State::Paused
}

/// The last announced remaining time after `s` has been handled.
pub open spec fn next_last_update(s: Snapshot, last_update: u128) -> u128 {
    if !should_notify(s, last_update) {
        last_update
    } else if s.state == State::Paused {
        0
    } else {
        s.remaining()
    }
}

/// The notifier's arguments for `s`: name, elapsed and total whole seconds,
/// state and the timer's argument.
pub open spec fn notifier_args(s: Snapshot) -> Seq<Seq<char>> {
    seq![
        s.name@,
        decimal(whole_secs(s.elapsed)),
        decimal(whole_secs(s.duration)),
        s.state.text(),
        s.arg@,
    ]
}

pub open spec fn texts(v: Seq<String>) -> Seq<Seq<char>> {
    v.map_values(|x: String| x@)
}

/// The arguments with which the notifier is started for `s`.
pub fn command_args(s: &Snapshot) -> (r: Vec<String>)
    ensures
        texts(r@) == notifier_args(*s),
{
    let mut r: Vec<String> = Vec::new();
    r.push(s.name.clone());
    r.push(secs_text(s.elapsed));
    r.push(secs_text(s.duration));
    r.push(s.state.to_string());
    r.push(s.arg.clone());
    assert(texts(r@) =~= notifier_args(*s));
    r
}

/// Applies the debounce rule to one snapshot. Returns the notifier's
/// arguments when it is to run, and updates the last announced remaining time.
pub fn handle_update(s: &Snapshot, last_update: &mut u128) -> (r: Option<Vec<String>>)
    ensures
        r is Some == should_notify(*s, *old(last_update)),
        r is Some ==> texts(r->0@) == notifier_args(*s),
        *final(last_update) == next_last_update(*s, *old(last_update)),
{
    let remaining = if s.duration > s.elapsed {
        s.duration - s.elapsed
    } else {
        0
    };
    if s.elapsed / NANOS_PER_SEC == 0 || *last_update / NANOS_PER_SEC == 0 || remaining
        <= *last_update || s.state.is_halted() || s.state.is_paused() {
        *last_update = if s.state.is_paused() {
            0
        } else {
            remaining
        };
        Some(command_args(s))
    } else {
        None
    }
}

/// A running snapshot past its first second, whose remaining time is above a
/// last announced remaining time of a second or more, starts no notifier and
/// leaves that value as it was. So a second such snapshot of the same timer,
/// with the same remaining time, starts none either.
pub proof fn lemma_unchanged_remaining_is_quiet(s1: Snapshot, s2: Snapshot, last_update: u128)
    requires
        s1.name@ == s2.name@,
        s1.remaining() == s2.remaining(),
        s1.remaining() > last_update,
        whole_secs(last_update) > 0,
        whole_secs(s1.elapsed) > 0,
        whole_secs(s2.elapsed) > 0,
        s1.state == State::Running,
        s2.state == State::Running,
    ensures
        !should_notify(s1, last_update),
        next_last_update(s1, last_update) == last_update,
        !should_notify(s2, next_last_update(s1, last_update)),
{
}

/// A paused snapshot always starts the notifier, whatever was announced
/// before, and resets the last announced remaining time to zero.
pub proof fn lemma_pause_always_notifies(s: Snapshot, last_update: u128)
    requires
        s.state == State::Paused,
    ensures
        should_notify(s, last_update),
        next_last_update(s, last_update) == 0,
{
}

} // verus!
