use crate::request::Request;
use vstd::prelude::*;

verus! {

/// What the program was asked to do: serve as the daemon, running `callback`
/// as its notifier, or send one request to it.
#[derive(Debug)]
pub enum Config {
    Server { callback: String },
    Client { request: Request },
}

} // verus!
