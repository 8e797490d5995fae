//! The error type every fallible operation of the library reports.

use vstd::prelude::*;
use crate::text::{push_uuid, uuid_text};

verus! {

/// Why an operation failed, with a message for the user.
#[derive(Debug, Clone)]
pub enum AppError {
    /// A failure inside the library or a rejected request.
    Internal(String),
    /// The named thing (data source, query, job, pending write) does not exist.
    NotFound(String),
    /// The database reported an error.
    Database(String),
    /// The connection to the database could not be made or was lost.
    Connection(String),
    /// The request reaches outside what it is allowed to touch.
    PermissionDenied(String),
    /// A local file operation failed.
    Io(String),
}

impl AppError {
    /// The message carried by the error, whatever its kind.
    pub open spec fn message_view(&self) -> Seq<char> {
        match self {
            AppError::Internal(m) => m@,
            AppError::NotFound(m) => m@,
            AppError::Database(m) => m@,
            AppError::Connection(m) => m@,
            AppError::PermissionDenied(m) => m@,
            AppError::Io(m) => m@,
        }
    }

    /// A copy of the message carried by the error.
    pub fn message(&self) -> (m: String)
        ensures
            m@ == self.message_view(),
    {
        match self {
            AppError::Internal(m) => m.clone(),
            AppError::NotFound(m) => m.clone(),
            AppError::Database(m) => m.clone(),
            AppError::Connection(m) => m.clone(),
            AppError::PermissionDenied(m) => m.clone(),
            AppError::Io(m) => m.clone(),
        }
    }
}

/// `NotFound` with `what` followed by the hyphenated id.
pub open spec fn not_found_with(e: AppError, what: Seq<char>, id: u128) -> bool {
    e matches AppError::NotFound(m) && m@ == what + uuid_text(id)
}

fn not_found(what: &str, id: u128) -> (e: AppError)
    ensures
        not_found_with(e, what@, id),
{
    let mut m = String::from_str(what);
    push_uuid(&mut m, id);
    AppError::NotFound(m)
}

/// The data source `id` does not exist.
pub fn data_source_not_found(id: u128) -> (e: AppError)
    ensures
        not_found_with(e, "data source not found: "@, id),
{
    not_found("data source not found: ", id)
}

/// No write of this id waits for confirmation.
pub fn pending_write_not_found(id: u128) -> (e: AppError)
    ensures
        not_found_with(e, "pending write not found: "@, id),
{
    not_found("pending write not found: ", id)
}

/// No export or import job has this id.
pub fn transfer_not_found(id: u128) -> (e: AppError)
    ensures
        not_found_with(e, "transfer job not found: "@, id),
{
    not_found("transfer job not found: ", id)
}

} // verus!
