//! The application's errors, their status codes and texts, and the replies made of them.
use vstd::prelude::*;

use crate::text::{decimal, u64_text};

verus! {

/// An error of the application.
#[derive(Clone, Debug)]
pub enum AppError {
    BadRequest { cause: String },
    Unauthorized,
    Forbidden { cause: String },
    NotFound { entity: String, id: String },
    ValidationError { cause: String },
    ServerError { cause: String },
}

/// The text that stands between the entity and the id of a `NotFound` error.
pub const NOT_FOUND_WITH_ID: &'static str = " not found with id: ";

/// The text of an `Unauthorized` error.
pub const UNAUTHORIZED_TEXT: &'static str = "Unauthorized";

impl AppError {
    /// The HTTP status code of the error.
    pub open spec fn status(self) -> u16 {
        match self {
            AppError::ValidationError { .. } => 400,
            AppError::ServerError { .. } => 500,
            AppError::NotFound { .. } => 404,
            AppError::Forbidden { .. } => 403,
            AppError::BadRequest { .. } => 400,
            AppError::Unauthorized => 401,
        }
    }

    /// The text of the error, as its `Display` writes it.
    pub open spec fn text(self) -> Seq<char> {
        match self {
            AppError::BadRequest { cause } => cause@,
            AppError::Unauthorized => UNAUTHORIZED_TEXT@,
            AppError::Forbidden { cause } => cause@,
            AppError::NotFound { entity, id } => entity@ + NOT_FOUND_WITH_ID@ + id@,
            AppError::ValidationError { cause } => cause@,
            AppError::ServerError { cause } => cause@,
        }
    }

    /// A `ValidationError` with the given cause.
    pub fn validation_error(cause: &str) -> (e: AppError)
        ensures
            e matches AppError::ValidationError { cause: c } && c@ == cause@,
    {
        AppError::ValidationError { cause: String::from_str(cause) }
    }

    /// A `BadRequest` with the given cause.
    pub fn bad_request(cause: &str) -> (e: AppError)
        ensures
            e matches AppError::BadRequest { cause: c } && c@ == cause@,
    {
        AppError::BadRequest { cause: String::from_str(cause) }
    }

    /// A `ServerError` with the given cause.
    pub fn server_error(cause: &str) -> (e: AppError)
        ensures
            e matches AppError::ServerError { cause: c } && c@ == cause@,
    {
        AppError::ServerError { cause: String::from_str(cause) }
    }

    /// A `NotFound` for the given entity and id.
    pub fn not_found(entity: &str, id: &str) -> (e: AppError)
        ensures
            e matches AppError::NotFound { entity: en, id: i } && en@ == entity@ && i@ == id@,
    {
        AppError::NotFound { entity: String::from_str(entity), id: String::from_str(id) }
    }

    /// A `Forbidden` with the given cause.
    pub fn forbidden(cause: &str) -> (e: AppError)
        ensures
            e matches AppError::Forbidden { cause: c } && c@ == cause@,
    {
        AppError::Forbidden { cause: String::from_str(cause) }
    }

    /// An `Unauthorized` error.
    pub fn unauthorized() -> (e: AppError)
        ensures
            e is Unauthorized,
    {
        AppError::Unauthorized
    }

    /// The HTTP status code of the error.
    pub fn status_code(&self) -> (s: u16)
        ensures
            s == self.status(),
    {
        match self {
            AppError::ValidationError { .. } => 400,
            AppError::ServerError { .. } => 500,
            AppError::NotFound { .. } => 404,
            AppError::Forbidden { .. } => 403,
            AppError::BadRequest { .. } => 400,
            AppError::Unauthorized => 401,
        }
    }

    /// The name of the error's variant, as the `type` field of its JSON form holds it.
    pub fn kind_name(&self) -> (s: &'static str)
        ensures
            s@ == match *self {
                AppError::ValidationError { .. } => "ValidationError"@,
                AppError::ServerError { .. } => "ServerError"@,
                AppError::NotFound { .. } => "NotFound"@,
                AppError::Forbidden { .. } => "Forbidden"@,
                AppError::BadRequest { .. } => "BadRequest"@,
                AppError::Unauthorized => "Unauthorized"@,
            },
    {
        match self {
            AppError::ValidationError { .. } => "ValidationError",
            AppError::ServerError { .. } => "ServerError",
            AppError::NotFound { .. } => "NotFound",
            AppError::Forbidden { .. } => "Forbidden",
            AppError::BadRequest { .. } => "BadRequest",
            AppError::Unauthorized => "Unauthorized",
        }
    }

    /// The text of the error, as its `Display` writes it.
    pub fn to_string(&self) -> (s: String)
        ensures
            s@ == self.text(),
    {
        match self {
            AppError::BadRequest { cause } => cause.clone(),
            AppError::Unauthorized => String::from_str(UNAUTHORIZED_TEXT),
            AppError::Forbidden { cause } => cause.clone(),
            AppError::NotFound { entity, id } => {
                let mut s = entity.clone();
                s.append(NOT_FOUND_WITH_ID);
                s.append(id.as_str());
                s
            },
            AppError::ValidationError { cause } => cause.clone(),
            AppError::ServerError { cause } => cause.clone(),
        }
    }
}

/// The kind of a failed database statement, as the database reports it.
#[derive(Clone, Copy, Debug, PartialEq, Eq)]
pub enum DbErrorKind {
    UniqueViolation,
    ForeignKeyViolation,
    NotNullViolation,
    CheckViolation,
    Other,
}

/// A failure of the database layer, by what the application reads of it.
#[derive(Clone, Debug)]
pub enum DbFailure {
    /// No row matched a query that asked for one.
    NotFound,
    /// The database refused a statement; `message` is its message.
    Database { kind: DbErrorKind, message: String },
    /// Any other failure; `description` is its text.
    Other { description: String },
}

impl AppError {
    /// The error that a database failure becomes.
    pub open spec fn db_failure_error_spec(f: DbFailure) -> (u16, Seq<char>) {
        match f {
            DbFailure::NotFound => (404, "Entity"@ + NOT_FOUND_WITH_ID@ + "Unknown"@),
            DbFailure::Database { kind, message } => match kind {
                DbErrorKind::UniqueViolation => (403, message@),
                DbErrorKind::ForeignKeyViolation => (400, message@),
                DbErrorKind::NotNullViolation => (400, message@),
                DbErrorKind::CheckViolation => (400, message@),
                DbErrorKind::Other => (500, message@),
            },
            DbFailure::Other { description } => (500, description@),
        }
    }

    /// The error that a database failure becomes: a missing row is `NotFound`, a unique
    /// violation `Forbidden`, a foreign key, not-null or check violation `BadRequest`,
    /// anything else a `ServerError`; each keeps the database's message.
    pub fn from_db_failure(f: DbFailure) -> (e: AppError)
        ensures
            match f {
                DbFailure::NotFound => e matches AppError::NotFound { entity, id } && entity@
                    == "Entity"@ && id@ == "Unknown"@,
                DbFailure::Database { kind, message } => match kind {
                    DbErrorKind::UniqueViolation => e matches AppError::Forbidden { cause }
                        && cause@ == message@,
                    DbErrorKind::ForeignKeyViolation => e matches AppError::BadRequest { cause }
                        && cause@ == message@,
                    DbErrorKind::NotNullViolation => e matches AppError::BadRequest { cause }
                        && cause@ == message@,
                    DbErrorKind::CheckViolation => e matches AppError::BadRequest { cause }
                        && cause@ == message@,
                    DbErrorKind::Other => e matches AppError::ServerError { cause } && cause@
                        == message@,
                },
                DbFailure::Other { description } => e matches AppError::ServerError { cause }
                    && cause@ == description@,
            },
            (e.status(), e.text()) == Self::db_failure_error_spec(f),
    {
        match f {
            DbFailure::NotFound => AppError::NotFound {
                entity: String::from_str("Entity"),
                id: String::from_str("Unknown"),
            },
            DbFailure::Database { kind, message } => match kind {
                DbErrorKind::UniqueViolation => AppError::Forbidden { cause: message },
                DbErrorKind::ForeignKeyViolation => AppError::BadRequest { cause: message },
                DbErrorKind::NotNullViolation => AppError::BadRequest { cause: message },
                DbErrorKind::CheckViolation => AppError::BadRequest { cause: message },
                DbErrorKind::Other => AppError::ServerError { cause: message },
            },
            DbFailure::Other { description } => AppError::ServerError { cause: description },
        }
    }
}

/// An error answered with a JSON body.
#[derive(Debug)]
pub struct JsonErrorResponse(pub AppError);

/// An error answered with an HTML page, or with a redirect to the login page.
#[derive(Clone, Debug)]
pub struct HtmlErrorResponse(pub AppError);

/// The text of the error page before the status code.
pub const PAGE_HEAD: &'static str = "<html>\n                <head>\n                    <title>Error</title>\n                </head>\n                <body>\n                    <h1>Error - ";

/// The text of the error page between the status code and the error's text.
pub const PAGE_MIDDLE: &'static str = "</h1>\n                    <p>";

/// The text of the error page after the error's text.
pub const PAGE_TAIL: &'static str = "</p>\n                </body>\n            </html>";

/// The login page, where an unauthorized request is sent.
pub const LOGIN_LOCATION: &'static str = "/login";

/// The error page for a status code and an error text.
pub open spec fn error_page(status: u16, message: Seq<char>) -> Seq<char> {
    PAGE_HEAD@ + decimal(status as nat) + PAGE_MIDDLE@ + message + PAGE_TAIL@
}

/// What is answered for an error of an HTML page.
#[derive(Debug)]
pub enum HtmlReply {
    /// A `302 Found` to `location`.
    Redirect { location: String },
    /// A page with the given status and body.
    Page { status: u16, body: String },
}

impl HtmlErrorResponse {
    /// The error page: the status code and the error's text in an HTML document.
    pub fn to_html(&self) -> (s: String)
        ensures
            s@ == error_page(self.0.status(), self.0.text()),
    {
        let mut s = String::from_str(PAGE_HEAD);
        let code = u64_text(self.0.status_code() as u64);
        s.append(code.as_str());
        s.append(PAGE_MIDDLE);
        let message = self.0.to_string();
        s.append(message.as_str());
        s.append(PAGE_TAIL);
        s
    }

    /// What is answered: a redirect to the login page where the error is `Unauthorized`,
    /// else the error page under the error's status code.
    pub fn reply(&self) -> (r: HtmlReply)
        ensures
            match r {
                HtmlReply::Redirect { location } => self.0 is Unauthorized && location@
                    == "/login"@,
                HtmlReply::Page { status, body } => !(self.0 is Unauthorized) && status
                    == self.0.status() && body@ == error_page(self.0.status(), self.0.text()),
            },
    {
        match self.0 {
            AppError::Unauthorized => HtmlReply::Redirect { location: String::from_str(LOGIN_LOCATION) },
            _ => HtmlReply::Page { status: self.0.status_code(), body: self.to_html() },
        }
    }
}

impl From<AppError> for HtmlErrorResponse {
    fn from(err: AppError) -> (r: HtmlErrorResponse) {
        HtmlErrorResponse(err)
    }
}

impl vstd::std_specs::convert::FromSpecImpl<AppError> for HtmlErrorResponse {
    open spec fn obeys_from_spec() -> bool {
        true
    }

    open spec fn from_spec(err: AppError) -> HtmlErrorResponse {
        HtmlErrorResponse(err)
    }
}

impl From<AppError> for JsonErrorResponse {
    fn from(err: AppError) -> (r: JsonErrorResponse) {
        JsonErrorResponse(err)
    }
}

impl vstd::std_specs::convert::FromSpecImpl<AppError> for JsonErrorResponse {
    open spec fn obeys_from_spec() -> bool {
        true
    }

    open spec fn from_spec(err: AppError) -> JsonErrorResponse {
        JsonErrorResponse(err)
    }
}

/// The error page shows the status code in decimal in its heading and the error's text,
/// unchanged, in its paragraph, for every status code and every text.
pub proof fn law_error_page(status: u16, message: Seq<char>)
    ensures
        error_page(status, message) == "<html>\n                <head>\n                    <title>Error</title>\n                </head>\n                <body>\n                    <h1>Error - "@ + decimal(status as nat)
            + "</h1>\n                    <p>"@ + message + "</p>\n                </body>\n            </html>"@,
{
}

/// An error that has a cause shows exactly that cause as its text, whatever its status
/// code; a `NotFound` names its entity and id; `Unauthorized` says so.
pub proof fn law_error_text(e: AppError)
    ensures
        match e {
            AppError::BadRequest { cause } => e.text() == cause@ && e.status() == 400,
            AppError::Unauthorized => e.text() == "Unauthorized"@ && e.status() == 401,
            AppError::Forbidden { cause } => e.text() == cause@ && e.status() == 403,
            AppError::NotFound { entity, id } => e.text() == entity@ + " not found with id: "@ + id@
                && e.status() == 404,
            AppError::ValidationError { cause } => e.text() == cause@ && e.status() == 400,
            AppError::ServerError { cause } => e.text() == cause@ && e.status() == 500,
        },
{
}

} // verus!
