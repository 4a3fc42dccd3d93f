use crate::state::State;
use vstd::prelude::*;
use vstd::string::StringExecFns;

verus! {

/// Nanoseconds in one second. Every span of time in this crate, and every
/// instant of the wall clock, is a count of nanoseconds.
pub const NANOS_PER_SEC: u128 = 1_000_000_000;

/// Whole seconds in a span of nanoseconds.
pub open spec fn whole_secs(n: u128) -> nat {
    (n / NANOS_PER_SEC) as nat
}

/// Decimal digits of `n`, most significant first, without leading zeros.
pub open spec fn decimal(n: nat) -> Seq<char>
    decreases n,
{
    if n < 10 {
        seq!["0123456789"@[n as int]]
    } else {
        decimal(n / 10).push("0123456789"@[(n % 10) as int])
    }
}

/// Relies on `ToString::to_string` of `u128`, which writes the number in
/// decimal as `Display` does: digits only, no sign, no leading zeros.
#[verifier::external_body]
pub(crate) fn decimal_text(n: u128) -> (r: String)
    ensures
        r@ == decimal(n as nat),
{
    n.to_string()
}

/// Whole seconds of a span, in decimal.
pub fn secs_text(n: u128) -> (r: String)
    ensures
        r@ == decimal(whole_secs(n)),
{
    decimal_text(n / NANOS_PER_SEC)
}

/// What one timer looked like at one instant.
///
/// Two snapshots are equal when they describe the timer of the same name.
pub struct Snapshot {
    pub name: String,
    /// Total duration, in nanoseconds.
    pub duration: u128,
    /// Time run so far, in nanoseconds.
    pub elapsed: u128,
    pub state: State,
    /// Passed through to the notifier as its fifth argument.
    pub arg: String,
}

impl Snapshot {
    /// Time left before the timer completes; zero once it has.
    pub open spec fn remaining(&self) -> u128 {
        if self.duration > self.elapsed {
            (self.duration - self.elapsed) as u128
        } else {
            0
        }
    }

    /// The line by which a report shows this snapshot: name, elapsed and
    /// total whole seconds, state and argument, separated by single spaces.
    pub open spec fn line(&self) -> Seq<char> {
        self.name@ + " "@ + decimal(whole_secs(self.elapsed)) + " "@ + decimal(
            whole_secs(self.duration),
        ) + " "@ + self.state.text() + " "@ + self.arg@
    }

    pub fn to_string(&self) -> (r: String)
        ensures
            r@ == self.line(),
    {
        let elapsed = secs_text(self.elapsed);
        let duration = secs_text(self.duration);
        let state = self.state.to_string();
        let mut r = self.name.clone();
        r.append(" ");
        r.append(elapsed.as_str());
        r.append(" ");
        r.append(duration.as_str());
        r.append(" ");
        r.append(state.as_str());
        r.append(" ");
        r.append(self.arg.as_str());
        r
    }
}

impl Clone for Snapshot {
    fn clone(&self) -> (r: Snapshot)
        ensures
            r == *self,
    {
        Snapshot {
            name: self.name.clone(),
            duration: self.duration,
            elapsed: self.elapsed,
            state: self.state,
            arg: self.arg.clone(),
        }
    }
}

impl PartialEq for Snapshot {
    fn eq(&self, other: &Snapshot) -> (r: bool)
        ensures
            r == (self.name@ == other.name@),
    {
        self.name == other.name
    }
}

impl vstd::std_specs::cmp::PartialEqSpecImpl for Snapshot {
    open spec fn obeys_eq_spec() -> bool {
        true
    }

    open spec fn eq_spec(&self, other: &Snapshot) -> bool {
        self.name@ == other.name@
    }
}

impl Eq for Snapshot {

}

} // verus!
