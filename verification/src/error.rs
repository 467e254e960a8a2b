//! The two-kind error taxonomy: internal failures and business rejections.

use vstd::prelude::*;
use vstd::string::*;

verus! {

/// Why a request was rejected by a business rule.
#[derive(Clone, Copy, Debug, PartialEq, Eq, Structural)]
pub enum Classification {
    /// The account does not exist.
    NotFound,
    /// The input was malformed or incomplete.
    Validation,
    /// A rule of the ledger forbids the operation.
    RuleViolation,
}

impl Classification {
    /// The HTTP status a caller sees for this classification.
    pub open spec fn spec_status_code(self) -> u16 {
        match self {
            Classification::NotFound => 404,
            Classification::Validation => 400,
            Classification::RuleViolation => 422,
        }
    }

    #[verifier::when_used_as_spec(spec_status_code)]
    pub fn status_code(self) -> (code: u16)
        ensures
            code == self.spec_status_code(),
    {
        match self {
            Classification::NotFound => 404,
            Classification::Validation => 400,
            Classification::RuleViolation => 422,
        }
    }
}

/// The text that `http` writes for the status with the given code: the code
/// and its canonical reason.
pub uninterp spec fn status_line(code: u16) -> Seq<char>;

/// Calls `http::StatusCode::from_u16` and the status's `to_string`. There is
/// a status exactly for the codes from 100 to 999, and the result is then the
/// text that `http` writes for it.
#[verifier::external_body]
fn status_text(code: u16) -> (text: Option<String>)
    ensures
        text.is_some() <==> 100 <= code <= 999,
        text matches Some(t) ==> t@ == status_line(code),
{
    http::StatusCode::from_u16(code).ok().map(|status| status.to_string())
}

/// Error used throughout the ledger.
#[derive(Debug)]
pub enum AppError {
    /// An unexpected condition; carries the text of its cause, which is never
    /// shown to a caller.
    Internal(String),
    /// The operation was prevented by a business rule; the message is safe to
    /// return verbatim.
    Business(String, Classification),
}

/// The mathematical content of an [`AppError`].
pub enum ErrorView {
    Internal(Seq<char>),
    Business(Seq<char>, Classification),
}

impl View for AppError {
    type V = ErrorView;

    open spec fn view(&self) -> ErrorView {
        match *self {
            AppError::Internal(cause) => ErrorView::Internal(cause@),
            AppError::Business(message, class) => ErrorView::Business(message@, class),
        }
    }
}

impl AppError {
    /// A validation failure with the given message.
    pub fn bad_request_str(message: &str) -> (err: AppError)
        ensures
            err@ == ErrorView::Business(message@, Classification::Validation),
    {
        AppError::bad_request(message.to_owned())
    }

    /// A validation failure with the given message.
    pub fn bad_request(message: String) -> (err: AppError)
        ensures
            err@ == ErrorView::Business(message@, Classification::Validation),
    {
        AppError::Business(message, Classification::Validation)
    }

    /// The rejection for an account that does not exist.
    pub fn not_found() -> (err: AppError)
        ensures
            err@ == ErrorView::Business("not found"@, Classification::NotFound),
    {
        AppError::Business("not found".to_owned(), Classification::NotFound)
    }

    /// A rule violation with the given message.
    pub fn unprocessable(message: &str) -> (err: AppError)
        ensures
            err@ == ErrorView::Business(message@, Classification::RuleViolation),
    {
        AppError::Business(message.to_owned(), Classification::RuleViolation)
    }

    /// An internal failure whose cause is described by `message`.
    pub fn internal_s(message: String) -> (err: AppError)
        ensures
            err@ == ErrorView::Internal(message@),
    {
        AppError::Internal(message)
    }

    /// An internal failure whose cause is described by `message`.
    pub fn internal(message: &'static str) -> (err: AppError)
        ensures
            err@ == ErrorView::Internal(message@),
    {
        AppError::Internal(message.to_owned())
    }

    /// The HTTP status of the response for this error: 500 for an internal
    /// failure, else the status of the classification.
    pub open spec fn spec_status_code(&self) -> u16 {
        match *self {
            AppError::Internal(_) => 500,
            AppError::Business(_, class) => class.spec_status_code(),
        }
    }

    #[verifier::when_used_as_spec(spec_status_code)]
    pub fn status_code(&self) -> (code: u16)
        ensures
            code == self.spec_status_code(),
    {
        match self {
            AppError::Internal(_) => 500,
            AppError::Business(_, class) => class.status_code(),
        }
    }

    /// The error as a line of text: the cause of an internal failure; for a
    /// business rejection its message and its status.
    pub fn describe(&self) -> (text: String)
        ensures
            match self@ {
                ErrorView::Internal(cause) => text@ == cause,
                ErrorView::Business(message, class) => text@ == "Business: "@ + message + " "@
                    + status_line(class.spec_status_code()),
            },
    {
        match self {
            AppError::Internal(cause) => cause.clone(),
            AppError::Business(message, class) => {
                let line = "Business: ".to_owned().concat(message.as_str()).concat(" ");
                match status_text(class.status_code()) {
                    Some(status) => line.concat(status.as_str()),
                    None => {
                        proof {
                            assert(false);
                        }
                        line
                    },
                }
            },
        }
    }

    /// The message that may be shown to the caller: the business message, and
    /// nothing for an internal failure.
    pub fn client_message(&self) -> (message: Option<String>)
        ensures
            match self@ {
                ErrorView::Internal(_) => message.is_none(),
                ErrorView::Business(text, _) => message.is_some() && message.unwrap()@ == text,
            },
    {
        match self {
            AppError::Internal(_) => None,
            AppError::Business(text, _) => Some(text.clone()),
        }
    }
}

} // verus!
