//! Verified core of a role-based thesis-management service.
//!
//! The crate holds the rules of the service as functions on plain values: who may
//! call an endpoint, what each request does to the records it touches, and which
//! error answers a request that breaks a rule.  Storage and transport stay outside;
//! a caller hands in the rows it read and carries out the change that comes back.

pub mod assignments;
pub mod database;
pub mod defenses;
pub mod error;
pub mod model;
pub mod paging;
pub mod progress;
pub mod password;
pub mod session;
pub mod topics;
pub mod users;

use vstd::prelude::*;
use vstd::string::StringExecFns;

verus! {

/// The answer to a liveness probe.
pub fn ping() -> (answer: String)
    ensures
        answer@ == "pong"@,
{
    String::from_str("pong")
}

} // verus!
