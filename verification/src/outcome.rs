//! How the results of database statements become answers: the HTTP status of
//! each kind of change, and what a missing row means for each lookup.

use vstd::prelude::*;

verus! {

/// The HTTP statuses that the endpoints answer with.
#[derive(Clone, Copy, Debug, PartialEq, Eq, Structural)]
pub enum Status {
    Okay,
    Accepted,
    BadRequest,
    Unauthorized,
    NotAcceptable,
    Conflict,
    InternalServerError,
}

/// The numeric code of each status.
pub open spec fn status_code(s: Status) -> u16 {
    match s {
        Status::Okay => 200,
        Status::Accepted => 202,
        Status::BadRequest => 400,
        Status::Unauthorized => 401,
        Status::NotAcceptable => 406,
        Status::Conflict => 409,
        Status::InternalServerError => 500,
    }
}

impl Status {
    /// The numeric HTTP code.
    pub fn code(&self) -> (r: u16)
        ensures
            r == status_code(*self),
    {
        match self {
            Status::Okay => 200,
            Status::Accepted => 202,
            Status::BadRequest => 400,
            Status::Unauthorized => 401,
            Status::NotAcceptable => 406,
            Status::Conflict => 409,
            Status::InternalServerError => 500,
        }
    }
}

/// Why a statement that should have produced a row did not.
#[derive(Clone, Copy, Debug, PartialEq, Eq, Structural)]
pub enum DbFailure {
    /// The statement ran and matched no row.
    NoRows,
    /// Any other database error.
    Other,
}

/// A change that must touch exactly one row to count: one row is `Accepted`,
/// any other count `NotAcceptable`.
pub fn single_row_change(affected: usize) -> (r: Status)
    ensures
        r == if affected == 1 {
            Status::Accepted
        } else {
            Status::NotAcceptable
        },
{
    if affected == 1 {
        Status::Accepted
    } else {
        Status::NotAcceptable
    }
}

/// A removal that should remove one row: none is a server error, one is
/// `Accepted`, more is a bad request.
pub fn removal(affected: usize) -> (r: Status)
    ensures
        r == if affected == 0 {
            Status::InternalServerError
        } else if affected == 1 {
            Status::Accepted
        } else {
            Status::BadRequest
        },
{
    match affected {
        0 => Status::InternalServerError,
        1 => Status::Accepted,
        _ => Status::BadRequest,
    }
}

/// A change that only the owners may make: one row is `Accepted`, any other
/// count means the caller had no right to it.
pub fn owner_change(affected: usize) -> (r: Status)
    ensures
        r == if affected == 1 {
            Status::Accepted
        } else {
            Status::Unauthorized
        },
{
    if affected == 1 {
        Status::Accepted
    } else {
        Status::Unauthorized
    }
}

/// Leaving a chat: one membership gone is `Ok`, anything else (not a member,
/// or an owner, who cannot leave) is `NotAcceptable`.
pub fn chat_departure(affected: usize) -> (r: Status)
    ensures
        r == if affected == 1 {
            Status::Okay
        } else {
            Status::NotAcceptable
        },
{
    if affected == 1 {
        Status::Okay
    } else {
        Status::NotAcceptable
    }
}

/// A lookup of one row's id: a missing row is no answer rather than an error.
pub fn lookup(found: Result<i64, DbFailure>) -> (r: Result<Option<i64>, DbFailure>)
    ensures
        r == match found {
            Ok(id) => Ok(Some(id)),
            Err(DbFailure::NoRows) => Ok(None),
            Err(DbFailure::Other) => Err(DbFailure::Other),
        },
{
    match found {
        Ok(id) => Ok(Some(id)),
        Err(DbFailure::NoRows) => Ok(None),
        Err(DbFailure::Other) => Err(DbFailure::Other),
    }
}

/// What a refused or accepted creation means: the new row's id, or, when the
/// insertion produced no row (a clash with an existing row), `Conflict`.
pub fn creation(created: Result<i64, DbFailure>) -> (r: Result<Result<i64, Status>, DbFailure>)
    ensures
        r == match created {
            Ok(id) => Ok(Ok(id)),
            Err(DbFailure::NoRows) => Ok(Err(Status::Conflict)),
            Err(DbFailure::Other) => Err(DbFailure::Other),
        },
{
    match created {
        Ok(id) => Ok(Ok(id)),
        Err(DbFailure::NoRows) => Ok(Err(Status::Conflict)),
        Err(DbFailure::Other) => Err(DbFailure::Other),
    }
}

} // verus!
