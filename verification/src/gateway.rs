//! Per-step decisions of the persistence gateway, shared by both store
//! variants. A driver call's raw outcome (rows matched, a re-read, an
//! assigned identifier) is turned here into a domain result or a
//! normalized error; no raw driver condition crosses this boundary.

use vstd::prelude::*;

use crate::doc_id::DocId;
use crate::doc_id::valid_object_id;
use crate::errors::AppError;

verus! {

/// Validates a caller-supplied document identifier string: a malformed
/// identifier is a `BadRequest`, before any store operation is issued.
pub fn check_object_id(id: &str) -> (r: Result<DocId, AppError>)
    ensures
        valid_object_id(id@) ==> (r matches Ok(d) && d@ == id@),
        !valid_object_id(id@) ==> (r matches Err(e) && e is BadRequest
            && e.spec_message() == "Invalid ID format"@),
{
    match DocId::parse(id) {
        Some(d) => Ok(d),
        None => Err(AppError::BadRequest("Invalid ID format".to_owned())),
    }
}

/// Decides the outcome of a mutating store operation from the number of
/// records it matched or removed: zero is a `NotFound`, anything else is
/// success.
pub fn matched_count_outcome(count: u64) -> (r: Result<(), AppError>)
    ensures
        count == 0 ==> (r matches Err(e) && e is NotFound
            && e.spec_message() == "User not found"@),
        count > 0 ==> r is Ok,
{
    if count == 0 {
        Err(AppError::NotFound("User not found".to_owned()))
    } else {
        Ok(())
    }
}

/// Decides the outcome of the post-write re-read: a record that cannot
/// be read back is a write/read inconsistency, an `InternalServerError`.
pub fn reread_outcome<T>(found: Option<T>) -> (r: Result<T, AppError>)
    ensures
        found matches Some(u) ==> (r matches Ok(v) && v == u),
        found is None ==> (r matches Err(e) && e is InternalServerError
            && e.spec_message() == "Failed to retrieve record"@),
{
    match found {
        Some(u) => Ok(u),
        None => Err(AppError::InternalServerError("Failed to retrieve record".to_owned())),
    }
}

/// Decides the outcome of an insert from the identifier the store
/// reports for the new record: a missing identifier is an
/// `InternalServerError`.
pub fn inserted_id_outcome(id: Option<DocId>) -> (r: Result<DocId, AppError>)
    ensures
        id matches Some(d) ==> (r matches Ok(v) && v@ == d@),
        id is None ==> (r matches Err(e) && e is InternalServerError
            && e.spec_message() == "Failed to get inserted ObjectId"@),
{
    match id {
        Some(d) => Ok(d),
        None => Err(AppError::InternalServerError("Failed to get inserted ObjectId".to_owned())),
    }
}

} // verus!
