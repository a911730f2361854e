use vstd::prelude::*;

verus! {

/// The four classes of failure that a workflow can report.
#[derive(Clone, Copy, Debug, PartialEq, Eq, Structural)]
pub enum ErrorKind {
    Validation,
    Auth,
    Store,
    Hashing,
}

/// A failure of a workflow, with the message shown to the client.
#[derive(Clone, Debug)]
pub enum AppError {
    /// Malformed or conflicting input.
    ValidationError(String),
    /// Bad credentials, or an invalid or expired token.
    AuthError(String),
    /// The document store was unavailable or could not serialise a record.
    StoreError(String),
    /// The password hasher failed, or a stored hash is malformed.
    HashingError(String),
}

impl AppError {
    pub open spec fn spec_kind(&self) -> ErrorKind {
        match self {
            AppError::ValidationError(_) => ErrorKind::Validation,
            AppError::AuthError(_) => ErrorKind::Auth,
            AppError::StoreError(_) => ErrorKind::Store,
            AppError::HashingError(_) => ErrorKind::Hashing,
        }
    }

    /// The message carried by the error.
    pub open spec fn text(&self) -> Seq<char> {
        match self {
            AppError::ValidationError(m) => m@,
            AppError::AuthError(m) => m@,
            AppError::StoreError(m) => m@,
            AppError::HashingError(m) => m@,
        }
    }

    /// The text of the error as the client sees it. Validation and authentication
    /// errors show their message after the class; store and hashing errors show a
    /// fixed text, so that no internal detail (such as a stored hash) reaches the client.
    pub open spec fn client_text(&self) -> Seq<char> {
        match self {
            AppError::ValidationError(m) => "Validation error: "@ + m@,
            AppError::AuthError(m) => "Authentication error: "@ + m@,
            AppError::StoreError(_) => "Internal server error: database failure"@,
            AppError::HashingError(_) => "Internal server error: password hashing failure"@,
        }
    }

    /// The HTTP status that the error is reported with.
    pub open spec fn spec_status(k: ErrorKind) -> u16 {
        match k {
            ErrorKind::Validation => 400,
            ErrorKind::Auth => 401,
            ErrorKind::Store => 500,
            ErrorKind::Hashing => 500,
        }
    }

    pub fn kind(&self) -> (k: ErrorKind)
        ensures
            k == self.spec_kind(),
    {
        match self {
            AppError::ValidationError(_) => ErrorKind::Validation,
            AppError::AuthError(_) => ErrorKind::Auth,
            AppError::StoreError(_) => ErrorKind::Store,
            AppError::HashingError(_) => ErrorKind::Hashing,
        }
    }

    pub fn message(&self) -> (m: &String)
        ensures
            m@ == self.text(),
    {
        match self {
            AppError::ValidationError(m) => m,
            AppError::AuthError(m) => m,
            AppError::StoreError(m) => m,
            AppError::HashingError(m) => m,
        }
    }

    /// The HTTP status code: client errors for validation (400) and
    /// authentication (401), server errors (500) for the store and the hasher.
    pub fn status_code(&self) -> (s: u16)
        ensures
            s == Self::spec_status(self.spec_kind()),
    {
        match self {
            AppError::ValidationError(_) => 400,
            AppError::AuthError(_) => 401,
            AppError::StoreError(_) => 500,
            AppError::HashingError(_) => 500,
        }
    }

    /// The text of the error as the client sees it; see `client_text`.
    pub fn to_display_string(&self) -> (s: String)
        ensures
            s@ == self.client_text(),
    {
        match self {
            AppError::ValidationError(m) => String::from_str("Validation error: ").concat(m.as_str()),
            AppError::AuthError(m) => String::from_str("Authentication error: ").concat(m.as_str()),
            AppError::StoreError(_) => String::from_str("Internal server error: database failure"),
            AppError::HashingError(_) => String::from_str("Internal server error: password hashing failure"),
        }
    }
}

/// Errors of the store and of the hasher render the same whatever their message.
pub proof fn lemma_server_errors_hide_detail(m1: String, m2: String)
    ensures
        AppError::StoreError(m1).client_text() == AppError::StoreError(m2).client_text(),
        AppError::HashingError(m1).client_text() == AppError::HashingError(m2).client_text(),
{
}

} // verus!
