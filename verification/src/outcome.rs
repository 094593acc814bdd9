//! The error taxonomy of the service and the mapping from repository
//! outcomes to it: a failed validation answers 400, an absent identifier
//! answers 404, a storage failure answers 500, and nothing else does.

use vstd::prelude::*;

verus! {

/// HTTP status for a plain success.
pub const STATUS_OK: u16 = 200;

/// HTTP status for a creation.
pub const STATUS_CREATED: u16 = 201;

/// HTTP status for a deletion, which carries no body.
pub const STATUS_NO_CONTENT: u16 = 204;

/// The three ways a request fails, each carrying its message.
#[derive(Debug, Clone, PartialEq)]
pub enum ApiError {
    /// The payload broke a declared rule: status 400.
    Validation(String),
    /// The identifier names no row: status 404.
    NotFound(String),
    /// The storage layer failed: status 500.
    Storage(String),
}

impl ApiError {
    /// The status code of this error.
    pub open spec fn status_spec(self) -> u16 {
        match self {
            ApiError::Validation(_) => 400,
            ApiError::NotFound(_) => 404,
            ApiError::Storage(_) => 500,
        }
    }

    /// Map the error to its HTTP status code.
    pub fn status(&self) -> (r: u16)
        ensures
            r == self.status_spec(),
    {
        match self {
            ApiError::Validation(_) => 400,
            ApiError::NotFound(_) => 404,
            ApiError::Storage(_) => 500,
        }
    }

    /// The human-readable message carried by the error.
    pub fn message(&self) -> (r: &str)
        ensures
            (self matches ApiError::Validation(m) ==> r@ == m@),
            (self matches ApiError::NotFound(m) ==> r@ == m@),
            (self matches ApiError::Storage(m) ==> r@ == m@),
    {
        match self {
            ApiError::Validation(m) => m.as_str(),
            ApiError::NotFound(m) => m.as_str(),
            ApiError::Storage(m) => m.as_str(),
        }
    }
}

/// Law: the status mapping is one-to-one over the error kinds — an absent
/// identifier always answers 404 and can never answer as a storage error.
pub proof fn lemma_error_status(e: ApiError)
    ensures
        e is NotFound <==> e.status_spec() == 404,
        e is Validation <==> e.status_spec() == 400,
        e is Storage <==> e.status_spec() == 500,
{
}

/// The outcome of a fetch by identifier: a row, or not-found with the given
/// message — never a storage error.
pub fn found_or_missing<T>(found: Option<T>, missing_msg: &str) -> (r: Result<T, ApiError>)
    ensures
        (found matches Some(v) ==> r matches Ok(x) && x == v),
        found is None ==> (r matches Err(e) && e matches ApiError::NotFound(m) && m@
            == missing_msg@),
{
    match found {
        Some(v) => Ok(v),
        None => Err(ApiError::NotFound(String::from_str(missing_msg))),
    }
}

/// The outcome of a deletion: deleting zero rows is not-found with the given
/// message — never success, and never a storage error.
pub fn delete_outcome(rows_affected: u64, missing_msg: &str) -> (r: Result<(), ApiError>)
    ensures
        rows_affected > 0 ==> r is Ok,
        rows_affected == 0 ==> (r matches Err(e) && e matches ApiError::NotFound(m) && m@
            == missing_msg@),
{
    if rows_affected == 0 {
        Err(ApiError::NotFound(String::from_str(missing_msg)))
    } else {
        Ok(())
    }
}

} // verus!
