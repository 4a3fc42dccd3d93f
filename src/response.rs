use crate::snapshot::Snapshot;
use vstd::prelude::*;
use vstd::string::StringExecFns;

verus! {

/// Why a request failed.
#[derive(Debug)]
pub enum Error {
    NameExists,
    NameNotExists,
    InvalidDuration,
    /// A request that could not be read; the message says why.
    Generic { message: String },
}

/// The answer to a request: a report carries the snapshots of the timers that
/// have not halted, one per name; other requests succeed with nothing.
pub type Response = Result<Option<Vec<Snapshot>>, Error>;

impl Error {
    pub open spec fn text(&self) -> Seq<char> {
        match self {
            Error::NameExists => "Timer with this name already exists"@,
            Error::NameNotExists => "Timer with this name does not exist yet"@,
            Error::InvalidDuration => "Provided duration is zero or bigger than max u64"@,
            Error::Generic { message } => message@,
        }
    }

    /// The sentence by which the error is shown to the user.
    pub fn to_string(&self) -> (r: String)
        ensures
            r@ == self.text(),
    {
        match self {
            Error::NameExists => String::from_str("Timer with this name already exists"),
            Error::NameNotExists => String::from_str("Timer with this name does not exist yet"),
            Error::InvalidDuration => String::from_str(
                "Provided duration is zero or bigger than max u64",
            ),
            Error::Generic { message } => message.clone(),
        }
    }
}

} // verus!
