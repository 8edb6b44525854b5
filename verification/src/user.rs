//! The user endpoint's logic: mapping the outcome of one point lookup
//! against the `users` store to the response the caller sees.

use vstd::prelude::*;

use crate::pool::PoolCounters;
use crate::timestamp::timestamp_text;
use crate::timestamp::Timestamp;

verus! {

/// The status of every successful response.
pub const STATUS_OK: u16 = 200;

/// One row of the `users` table, as plain values.
pub struct UserRecord {
    pub id: i32,
    pub name: String,
    pub email: String,
    pub created_at: Timestamp,
}

/// What one point lookup by id came back with.
pub enum LookupOutcome {
    /// Exactly one row matched the id.
    Found(UserRecord),
    /// No row matched: an expected, recoverable outcome.
    NotFound,
    /// Any other database-layer failure; the detail is for an operator's
    /// log only and must never reach the caller.
    Fault(String),
}

/// The success payload of the user endpoint: a projection of the row, with
/// `created_at` rendered as text.
#[derive(Debug)]
pub struct UserResponse {
    pub id: i32,
    pub name: String,
    pub email: String,
    pub created_at: String,
}

/// The closed set of failures the user endpoint can surface.
#[derive(Clone, Copy, PartialEq, Eq, Structural, Debug)]
pub enum UserError {
    /// The id matched no row.
    NotFound,
    /// Any other database-layer failure.
    Database,
}

impl UserError {
    /// The HTTP status this failure is surfaced with.
    pub fn status_code(&self) -> (r: u16)
        ensures
            *self == UserError::NotFound ==> r == 404,
            *self == UserError::Database ==> r == 500,
    {
        match self {
            UserError::NotFound => 404,
            UserError::Database => 500,
        }
    }

    /// The fixed client-facing message; it carries no internal detail.
    pub fn message(&self) -> (r: String)
        ensures
            *self == UserError::NotFound ==> r@ == "User not found"@,
            *self == UserError::Database ==> r@ == "Database error"@,
    {
        match self {
            UserError::NotFound => "User not found".to_owned(),
            UserError::Database => "Database error".to_owned(),
        }
    }
}

/// What the endpoint must answer for a given lookup outcome: the row's four
/// fields on a match, `NotFound` on zero rows, and `Database` — with the
/// fault's detail discarded, whatever it was — on any other failure.
pub open spec fn response_matches(outcome: LookupOutcome, r: Result<UserResponse, UserError>) -> bool {
    match outcome {
        LookupOutcome::Found(rec) => {
            &&& r matches Ok(resp)
            &&& resp.id == rec.id
            &&& resp.name@ == rec.name@
            &&& resp.email@ == rec.email@
            &&& resp.created_at@ == timestamp_text(
                rec.created_at.year as int,
                rec.created_at.month as int,
                rec.created_at.day as int,
                rec.created_at.hour as int,
                rec.created_at.minute as int,
                rec.created_at.second as int,
            )
        },
        LookupOutcome::NotFound => r == Err::<UserResponse, UserError>(UserError::NotFound),
        LookupOutcome::Fault(_) => r == Err::<UserResponse, UserError>(UserError::Database),
    }
}

/// Maps one lookup outcome to the endpoint's answer.
pub fn user_response_for(outcome: LookupOutcome) -> (r: Result<UserResponse, UserError>)
    requires
        outcome matches LookupOutcome::Found(rec) ==> rec.created_at.wf(),
    ensures
        response_matches(outcome, r),
{
    match outcome {
        LookupOutcome::Found(rec) => {
            let created_at = rec.created_at.render();
            Ok(UserResponse { id: rec.id, name: rec.name, email: rec.email, created_at })
        },
        LookupOutcome::NotFound => Err(UserError::NotFound),
        LookupOutcome::Fault(_) => Err(UserError::Database),
    }
}

/// One whole call of the user endpoint against the pool's accounting: borrow
/// a connection, consult the store — `outcome` stands for whatever the query
/// came back with — and return the connection, whatever the outcome was.
/// A borrow refused at the maximum is an infrastructure fault. Whatever
/// happens, the accounting leaves exactly as it entered: every borrowed
/// connection is returned, failed queries included.
pub fn handle_user_lookup(pool: &mut PoolCounters, outcome: LookupOutcome) -> (r: Result<
    UserResponse,
    UserError,
>)
    requires
        old(pool).wf(),
        outcome matches LookupOutcome::Found(rec) ==> rec.created_at.wf(),
    ensures
        *final(pool) == *old(pool),
        old(pool).borrowed < old(pool).max ==> response_matches(outcome, r),
        old(pool).borrowed >= old(pool).max ==> r == Err::<UserResponse, UserError>(
            UserError::Database,
        ),
{
    let granted = pool.acquire();
    if !granted {
        return Err(UserError::Database);
    }
    let r = user_response_for(outcome);
    pool.release();
    r
}

} // verus!
