use vstd::prelude::*;

verus! {

/// A client's request to the daemon. Durations are in nanoseconds.
#[derive(Debug)]
pub enum Request {
    Add { name: String, duration: u128, step: u128, arg: String },
    Pause { name: String },
    Halt { name: String },
    Resume { name: String },
    /// `json` asks the client to print the report as one JSON document.
    Report { json: bool },
    Quit,
}

} // verus!
