//! Entity managers for a small job-application tracker.
//!
//! The managers hold the decision logic of the backend: which requests are
//! rejected, how a partial update merges with an existing row, and how a
//! caller's identity limits what may be mutated. Rows travel as plain values;
//! the surrounding application fetches and stores them in the database.

use vstd::prelude::*;

pub mod auth;
pub mod jobs;
pub mod users;

verus! {

/// The closed set of errors the managers can return.
#[derive(Debug)]
pub enum Error {
    /// The caller does not own the row it asked to mutate.
    NotAuthorized,
    /// The email in a create request is already bound to another account.
    EmailTaken(String),
    /// A create or update request carried no data at all.
    MissingData,
}

} // verus!
