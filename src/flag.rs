use vstd::prelude::*;
use vstd::string::StringExecFns;

verus! {

/// A timer's state as stored in a [`TimerStateFlag`].
#[derive(Clone, Copy, PartialEq, Eq, Structural, Debug)]
pub enum TimerState {
    Running,
    Paused,
    Halted,
}

impl TimerState {
    pub fn is_halted(&self) -> (r: bool)
        ensures
            r == (*self == TimerState::Halted),
    {
        if let Self::Halted = self {
            true
        } else {
            false
        }
    }

    pub open spec fn text(self) -> Seq<char> {
        match self {
            TimerState::Running => "running"@,
            TimerState::Paused => "paused"@,
            TimerState::Halted => "halted"@,
        }
    }

    pub fn to_string(&self) -> (r: String)
        ensures
            r@ == self.text(),
    {
        match self {
            Self::Running => String::from_str("running"),
            Self::Paused => String::from_str("paused"),
            Self::Halted => String::from_str("halted"),
        }
    }
}

/// A timer's state kept as a numeric code (0 running, 1 paused, 2 halted),
/// starting as running.
pub struct TimerStateFlag(usize);

impl View for TimerStateFlag {
    type V = TimerState;

    closed spec fn view(&self) -> TimerState {
        // The type invariant keeps the code at 2 or below.
        if self.0 == 0 {
            TimerState::Running
        } else if self.0 == 1 {
            TimerState::Paused
        } else {
            TimerState::Halted
        }
    }
}

impl TimerStateFlag {
    #[verifier::type_invariant]
    spec fn inv(self) -> bool {
        self.0 <= 2
    }

    pub fn new() -> (r: Self)
        ensures
            r@ == TimerState::Running,
    {
        Self(0)
    }

    pub fn resume(&mut self)
        ensures
            final(self)@ == TimerState::Running,
    {
        self.0 = 0;
    }

    pub fn pause(&mut self)
        ensures
            final(self)@ == TimerState::Paused,
    {
        self.0 = 1;
    }

    pub fn halt(&mut self)
        ensures
            final(self)@ == TimerState::Halted,
    {
        self.0 = 2;
    }

    pub fn get(&self) -> (r: TimerState)
        ensures
            r == self@,
    {
        proof {
            use_type_invariant(self);
        }
        match self.0 {
            0 => TimerState::Running,
            1 => TimerState::Paused,
            _ => TimerState::Halted,
        }
    }

    pub fn is_halted(&self) -> (r: bool)
        ensures
            r == (self@ == TimerState::Halted),
    {
        self.get().is_halted()
    }
}

} // verus!
