//! What the hub's answer to a command document means.
use vstd::prelude::*;

verus! {

/// The outcome of posting a command, by HTTP status.
#[derive(Clone, Copy, Debug, PartialEq, Eq, Structural)]
pub enum Outcome {
    /// 200: the hub took the command.
    Accepted,
    /// 401: the key was refused; every later command would be refused too.
    Unauthorized,
    /// Another 4xx status: the hub's answer explains the fault.
    ClientError,
    /// A 5xx status: the hub's answer explains the fault.
    ServerError,
    /// Any other status.
    Unexpected,
}

pub open spec fn outcome_of(status: u16) -> Outcome {
    if status == 200 {
        Outcome::Accepted
    } else if status == 401 {
        Outcome::Unauthorized
    } else if 400 <= status < 500 {
        Outcome::ClientError
    } else if 500 <= status < 600 {
        Outcome::ServerError
    } else {
        Outcome::Unexpected
    }
}

/// Classifies the hub's HTTP status.
pub fn classify_status(status: u16) -> (r: Outcome)
    ensures
        r == outcome_of(status),
{
    if status == 200 {
        Outcome::Accepted
    } else if status == 401 {
        Outcome::Unauthorized
    } else if 400 <= status && status < 500 {
        Outcome::ClientError
    } else if 500 <= status && status < 600 {
        Outcome::ServerError
    } else {
        Outcome::Unexpected
    }
}

/// Whether an outcome ends the whole session rather than one command.
pub fn is_fatal(o: Outcome) -> (r: bool)
    ensures
        r == (o == Outcome::Unauthorized),
{
    o == Outcome::Unauthorized
}

} // verus!
