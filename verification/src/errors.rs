//! The normalized error taxonomy: a closed set of error kinds, each
//! carrying a human-readable message, with a stable mapping to HTTP
//! status codes. Every failure surfaced to the HTTP boundary is first
//! converted to exactly one of these kinds.

use vstd::prelude::*;
use vstd::string::StringExecFns;

verus! {

/// The normalized application error. Heterogeneous driver-level failures
/// are translated into this closed taxonomy before crossing the gateway
/// boundary.
#[derive(Debug)]
pub enum AppError {
    DatabaseError(String),
    NotFound(String),
    BadRequest(String),
    Unauthorized(String),
    Forbidden(String),
    InternalServerError(String),
}

impl AppError {
    /// The message carried by the error, whichever kind it is.
    pub open spec fn spec_message(&self) -> Seq<char> {
        match self {
            AppError::DatabaseError(m) => m@,
            AppError::NotFound(m) => m@,
            AppError::BadRequest(m) => m@,
            AppError::Unauthorized(m) => m@,
            AppError::Forbidden(m) => m@,
            AppError::InternalServerError(m) => m@,
        }
    }

    /// The HTTP status code each kind maps to. The mapping is total and
    /// stable: the same kind always yields the same status, regardless of
    /// which operation produced the error.
    pub fn http_status(&self) -> (s: u16)
        ensures
            self is DatabaseError ==> s == 500,
            self is NotFound ==> s == 404,
            self is BadRequest ==> s == 400,
            self is Unauthorized ==> s == 401,
            self is Forbidden ==> s == 403,
            self is InternalServerError ==> s == 500,
    {
        match self {
            AppError::DatabaseError(_) => 500,
            AppError::NotFound(_) => 404,
            AppError::BadRequest(_) => 400,
            AppError::Unauthorized(_) => 401,
            AppError::Forbidden(_) => 403,
            AppError::InternalServerError(_) => 500,
        }
    }

    /// The standard status text for the mapped HTTP status, used as the
    /// `error` field of the structured response body.
    pub fn status_text(&self) -> (t: &'static str)
        ensures
            self is DatabaseError ==> t@ == "Internal Server Error"@,
            self is NotFound ==> t@ == "Not Found"@,
            self is BadRequest ==> t@ == "Bad Request"@,
            self is Unauthorized ==> t@ == "Unauthorized"@,
            self is Forbidden ==> t@ == "Forbidden"@,
            self is InternalServerError ==> t@ == "Internal Server Error"@,
    {
        match self {
            AppError::DatabaseError(_) => "Internal Server Error",
            AppError::NotFound(_) => "Not Found",
            AppError::BadRequest(_) => "Bad Request",
            AppError::Unauthorized(_) => "Unauthorized",
            AppError::Forbidden(_) => "Forbidden",
            AppError::InternalServerError(_) => "Internal Server Error",
        }
    }

    /// The human-readable message, used as the `message` field of the
    /// structured response body.
    pub fn message(&self) -> (m: &String)
        ensures
            m@ == self.spec_message(),
    {
        match self {
            AppError::DatabaseError(m) => m,
            AppError::NotFound(m) => m,
            AppError::BadRequest(m) => m,
            AppError::Unauthorized(m) => m,
            AppError::Forbidden(m) => m,
            AppError::InternalServerError(m) => m,
        }
    }
}

/// Document-store operation failures, before normalization into the
/// application taxonomy.
#[derive(Debug)]
pub enum MongoDbError {
    DatabaseError(String),
    UserNotFound,
    InvalidId,
    InsertionFailed,
    UpdateFailed,
    DeletionFailed,
}

impl MongoDbError {
    /// The diagnostic text of the failure.
    pub open spec fn spec_text(&self) -> Seq<char> {
        match self {
            MongoDbError::DatabaseError(m) => "Database error: "@ + m@,
            MongoDbError::UserNotFound => "User not found"@,
            MongoDbError::InvalidId => "Invalid ID format"@,
            MongoDbError::InsertionFailed => "Insertion failed"@,
            MongoDbError::UpdateFailed => "Update failed"@,
            MongoDbError::DeletionFailed => "Deletion failed"@,
        }
    }

    /// Renders the diagnostic text of the failure.
    pub fn error_text(&self) -> (t: String)
        ensures
            t@ == self.spec_text(),
    {
        match self {
            MongoDbError::DatabaseError(m) => "Database error: ".to_owned().concat(m.as_str()),
            MongoDbError::UserNotFound => "User not found".to_owned(),
            MongoDbError::InvalidId => "Invalid ID format".to_owned(),
            MongoDbError::InsertionFailed => "Insertion failed".to_owned(),
            MongoDbError::UpdateFailed => "Update failed".to_owned(),
            MongoDbError::DeletionFailed => "Deletion failed".to_owned(),
        }
    }

    /// The HTTP response this failure maps to: status code and text.
    /// A missing record is 404 and a malformed identifier 400; every
    /// other failure is an internal error, 500.
    pub fn to_rocket_error(&self) -> (r: (u16, String))
        ensures
            self is UserNotFound ==> r.0 == 404,
            self is InvalidId ==> r.0 == 400,
            (self is DatabaseError || self is InsertionFailed || self is UpdateFailed
                || self is DeletionFailed) ==> r.0 == 500,
            r.1@ == self.spec_text(),
    {
        let status: u16 = match self {
            MongoDbError::DatabaseError(_) => 500,
            MongoDbError::UserNotFound => 404,
            MongoDbError::InvalidId => 400,
            MongoDbError::InsertionFailed => 500,
            MongoDbError::UpdateFailed => 500,
            MongoDbError::DeletionFailed => 500,
        };
        (status, self.error_text())
    }
}

/// Relies on `tokio_postgres::Error`, the relational driver's failure
/// type, declared opaquely so conversions can take it.
#[verifier::external_type_specification]
#[verifier::external_body]
pub struct ExPostgresError(tokio_postgres::Error);

/// Relies on `mongodb::error::Error`, the document driver's failure
/// type, declared opaquely so conversions can take it.
#[verifier::external_type_specification]
#[verifier::external_body]
pub struct ExMongoError(mongodb::error::Error);

/// Relies on the `Display` rendering of `tokio_postgres::Error` for a
/// diagnostic message; nothing is promised of its content.
#[verifier::external_body]
fn postgres_error_text(e: &tokio_postgres::Error) -> String {
    e.to_string()
}

/// Relies on the `Display` rendering of `mongodb::error::Error` for a
/// diagnostic message; nothing is promised of its content.
#[verifier::external_body]
fn mongo_error_text(e: &mongodb::error::Error) -> String {
    e.to_string()
}

/// Converts a relational driver failure into the taxonomy: every such
/// failure is the database kind, whatever operation raised it.
pub fn from_postgres_error(e: &tokio_postgres::Error) -> (r: AppError)
    ensures
        r is DatabaseError,
{
    AppError::DatabaseError(postgres_error_text(e))
}

/// Converts a document-store driver failure into the taxonomy: every
/// such failure is the database kind, whatever operation raised it.
pub fn from_mongo_error(e: &mongodb::error::Error) -> (r: AppError)
    ensures
        r is DatabaseError,
{
    AppError::DatabaseError(mongo_error_text(e))
}

/// Classifies a bare status-text message into the taxonomy, as when a
/// collaborator hands over a plain HTTP status string: the four named
/// statuses map to their kinds and anything else is an internal error.
/// The message is preserved verbatim.
pub fn classify_status_message(msg: String) -> (e: AppError)
    ensures
        msg@ == "Not Found"@ ==> e is NotFound,
        msg@ == "Bad Request"@ ==> e is BadRequest,
        msg@ == "Unauthorized"@ ==> e is Unauthorized,
        msg@ == "Forbidden"@ ==> e is Forbidden,
        (msg@ != "Not Found"@ && msg@ != "Bad Request"@ && msg@ != "Unauthorized"@
            && msg@ != "Forbidden"@) ==> e is InternalServerError,
        e.spec_message() == msg@,
{
    proof {
        reveal_strlit("Not Found");
        reveal_strlit("Bad Request");
        reveal_strlit("Unauthorized");
        reveal_strlit("Forbidden");
        assert("Not Found"@.len() == 9);
        assert("Bad Request"@.len() == 11);
        assert("Unauthorized"@.len() == 12);
        assert("Forbidden"@.len() == 9);
        assert("Not Found"@[0] == 'N');
        assert("Forbidden"@[0] == 'F');
    }
    let not_found: String = "Not Found".to_owned();
    let bad_request: String = "Bad Request".to_owned();
    let unauthorized: String = "Unauthorized".to_owned();
    let forbidden: String = "Forbidden".to_owned();
    if msg == not_found {
        AppError::NotFound(msg)
    } else if msg == bad_request {
        AppError::BadRequest(msg)
    } else if msg == unauthorized {
        AppError::Unauthorized(msg)
    } else if msg == forbidden {
        AppError::Forbidden(msg)
    } else {
        AppError::InternalServerError(msg)
    }
}

} // verus!
