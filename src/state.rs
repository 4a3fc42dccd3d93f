use vstd::prelude::*;
use vstd::string::StringExecFns;

verus! {

/// Lifecycle state of a timer.
#[derive(Clone, Copy, PartialEq, Eq, Structural, Hash, Debug)]
pub enum State {
    Running,
    Paused,
    Halted,
}

impl State {
    pub fn is_paused(self) -> (r: bool)
        ensures
            r == (self == State::Paused),
    {
        if let State::Paused = self {
            true
        } else {
            false
        }
    }

    pub fn is_halted(self) -> (r: bool)
        ensures
            r == (self == State::Halted),
    {
        if let State::Halted = self {
            true
        } else {
            false
        }
    }

    /// The word by which the state is shown to users and to the notifier.
    pub open spec fn text(self) -> Seq<char> {
        match self {
            State::Running => "running"@,
            State::Paused => "paused"@,
            State::Halted => "halted"@,
        }
    }

    /// Renders the state as `running`, `paused` or `halted`.
    pub fn to_string(self) -> (r: String)
        ensures
            r@ == self.text(),
    {
        match self {
            State::Running => String::from_str("running"),
            State::Paused => String::from_str("paused"),
            State::Halted => String::from_str("halted"),
        }
    }
}

} // verus!
