//! The failures an operation can report.

use crate::primitives::push_text;
use vstd::prelude::*;

verus! {

/// Why an operation was refused or could not be carried out.
#[derive(Debug, PartialEq, Eq)]
pub enum Error {
    InvalidToken,
    UsernameAlreadyExists(String),
    UsernameDoesntExist(String),
    IncorrectPassword(String),
    NotSenior,
    NotVolunteer,
    AlreadyRequestedHelp,
    DidntRequestHelp,
    RequestDoesntExist,
    RequestNotAcceptedByUser,
    /// A request body could not be decoded; the text says why.
    Json(String),
    /// A failure that no caller can act on; the text is for the operator.
    Unexpected(String),
}

pub enum ErrorView {
    InvalidToken,
    UsernameAlreadyExists(Seq<char>),
    UsernameDoesntExist(Seq<char>),
    IncorrectPassword(Seq<char>),
    NotSenior,
    NotVolunteer,
    AlreadyRequestedHelp,
    DidntRequestHelp,
    RequestDoesntExist,
    RequestNotAcceptedByUser,
    Json(Seq<char>),
    Unexpected(Seq<char>),
}

impl View for Error {
    type V = ErrorView;

    open spec fn view(&self) -> ErrorView {
        match self {
            Error::InvalidToken => ErrorView::InvalidToken,
            Error::UsernameAlreadyExists(u) => ErrorView::UsernameAlreadyExists(u@),
            Error::UsernameDoesntExist(u) => ErrorView::UsernameDoesntExist(u@),
            Error::IncorrectPassword(u) => ErrorView::IncorrectPassword(u@),
            Error::NotSenior => ErrorView::NotSenior,
            Error::NotVolunteer => ErrorView::NotVolunteer,
            Error::AlreadyRequestedHelp => ErrorView::AlreadyRequestedHelp,
            Error::DidntRequestHelp => ErrorView::DidntRequestHelp,
            Error::RequestDoesntExist => ErrorView::RequestDoesntExist,
            Error::RequestNotAcceptedByUser => ErrorView::RequestNotAcceptedByUser,
            Error::Json(m) => ErrorView::Json(m@),
            Error::Unexpected(m) => ErrorView::Unexpected(m@),
        }
    }
}

/// How a unit of work on the stored collections failed: it was aborted
/// with an error of its own, or the storage failed under it.
#[derive(Debug, PartialEq, Eq)]
pub enum TransactionFailure {
    Abort(Error),
    /// The text says what the storage reported.
    Storage(String),
}

/// How loudly a failure is to be logged, loudest first.
#[derive(Clone, Copy, Debug, PartialEq, Eq, Structural)]
pub enum Level {
    Error,
    Warn,
    Info,
    Debug,
    Trace,
}

/// What is to be written to the log for a failure.
#[derive(Debug, PartialEq, Eq)]
pub struct LogRecord {
    pub level: Level,
    pub message: String,
}

/// Joins three pieces of text.
pub fn framed(before: &str, inner: &str, after: &str) -> (text: String)
    ensures
        text@ == before@ + inner@ + after@,
{
    let mut text = before.to_owned();
    push_text(&mut text, inner);
    push_text(&mut text, after);
    text
}

/// Joins two pieces of text.
pub fn joined(before: &str, after: &str) -> (text: String)
    ensures
        text@ == before@ + after@,
{
    let mut text = before.to_owned();
    push_text(&mut text, after);
    text
}

/// The sentence that tells a caller what went wrong. Of an unexpected
/// failure it tells no more than that: the text the failure carries is for
/// the log alone.
pub open spec fn description_of(e: ErrorView) -> Seq<char> {
    match e {
        ErrorView::InvalidToken => "The authentication string was invalid"@,
        ErrorView::UsernameAlreadyExists(u) => "The username `"@ + u + "` already exists"@,
        ErrorView::UsernameDoesntExist(u) => "The username `"@ + u + "` doesn't exist"@,
        ErrorView::IncorrectPassword(u) => "The password for `"@ + u + " is incorrect`"@,
        ErrorView::NotSenior => "You must have a Senior account to invoke help request endpoints"@,
        ErrorView::NotVolunteer =>
            "You must have a Volunteer account to invoke volunteering endpoints"@,
        ErrorView::AlreadyRequestedHelp => "You already requested help"@,
        ErrorView::DidntRequestHelp => "You never requested help"@,
        ErrorView::RequestDoesntExist => "That request doesn't exist"@,
        ErrorView::RequestNotAcceptedByUser => "That request wasn't accepted by the user"@,
        ErrorView::Json(m) => "Failed to decode body: "@ + m,
        ErrorView::Unexpected(_) => "Unexpected server error"@,
    }
}

/// The line that goes to the log for a failure: the sentence for the
/// caller, and for an unexpected failure also the text it carries.
pub open spec fn log_message_of(e: ErrorView) -> Seq<char> {
    match e {
        ErrorView::Unexpected(m) => "Unexpected server error: "@ + m,
        _ => description_of(e),
    }
}

/// The HTTP status code that goes with a failure.
pub open spec fn status_of(e: ErrorView) -> u16 {
    match e {
        ErrorView::InvalidToken => 403,
        ErrorView::UsernameAlreadyExists(_) => 409,
        ErrorView::UsernameDoesntExist(_) => 409,
        ErrorView::IncorrectPassword(_) => 403,
        ErrorView::NotSenior => 405,
        ErrorView::NotVolunteer => 405,
        ErrorView::AlreadyRequestedHelp => 409,
        ErrorView::DidntRequestHelp => 409,
        ErrorView::RequestDoesntExist => 409,
        ErrorView::RequestNotAcceptedByUser => 409,
        ErrorView::Json(_) => 400,
        ErrorView::Unexpected(_) => 500,
    }
}

/// How loudly a failure is logged: unexpected failures loudest, failed
/// authentication next, then refusals by role or by the state of a request,
/// then undecodable bodies, and routine conflicts quietest.
pub open spec fn level_of(e: ErrorView) -> Level {
    match e {
        ErrorView::Unexpected(_) => Level::Error,
        ErrorView::InvalidToken | ErrorView::IncorrectPassword(_) => Level::Warn,
        ErrorView::NotSenior
        | ErrorView::NotVolunteer
        | ErrorView::RequestDoesntExist
        | ErrorView::RequestNotAcceptedByUser => Level::Info,
        ErrorView::Json(_) => Level::Debug,
        ErrorView::UsernameAlreadyExists(_)
        | ErrorView::UsernameDoesntExist(_)
        | ErrorView::AlreadyRequestedHelp
        | ErrorView::DidntRequestHelp => Level::Trace,
    }
}

impl Error {
    /// An unexpected failure that carries `m` as its text.
    pub fn msg(m: &str) -> (e: Error)
        ensures
            e@ == ErrorView::Unexpected(m@),
    {
        Error::Unexpected(m.to_owned())
    }

    /// An unexpected failure that carries the text of `e`.
    pub fn unexpected(e: String) -> (res: Error)
        ensures
            res@ == ErrorView::Unexpected(e@),
    {
        Error::Unexpected(e)
    }

    /// The error a failed unit of work comes to: the error it was aborted
    /// with, or an unexpected failure that carries what the storage reported.
    pub fn from_failure(failure: TransactionFailure) -> (e: Error)
        ensures
            e@ == match failure {
                TransactionFailure::Abort(inner) => inner@,
                TransactionFailure::Storage(text) => ErrorView::Unexpected(text@),
            },
    {
        match failure {
            TransactionFailure::Abort(inner) => inner,
            TransactionFailure::Storage(text) => Error::Unexpected(text),
        }
    }

    /// The sentence that tells a caller what went wrong. It never holds the
    /// text of an unexpected failure.
    pub fn description(&self) -> (text: String)
        ensures
            text@ == description_of(self@),
    {
        match self {
            Error::InvalidToken => "The authentication string was invalid".to_owned(),
            Error::UsernameAlreadyExists(username) => framed(
                "The username `",
                username.as_str(),
                "` already exists",
            ),
            Error::UsernameDoesntExist(username) => framed(
                "The username `",
                username.as_str(),
                "` doesn't exist",
            ),
            Error::IncorrectPassword(username) => framed(
                "The password for `",
                username.as_str(),
                " is incorrect`",
            ),
            Error::NotSenior => {
                "You must have a Senior account to invoke help request endpoints".to_owned()
            },
            Error::NotVolunteer => {
                "You must have a Volunteer account to invoke volunteering endpoints".to_owned()
            },
            Error::AlreadyRequestedHelp => "You already requested help".to_owned(),
            Error::DidntRequestHelp => "You never requested help".to_owned(),
            Error::RequestDoesntExist => "That request doesn't exist".to_owned(),
            Error::RequestNotAcceptedByUser => {
                "That request wasn't accepted by the user".to_owned()
            },
            Error::Json(e) => joined("Failed to decode body: ", e.as_str()),
            Error::Unexpected(_) => "Unexpected server error".to_owned(),
        }
    }

    /// The HTTP status code that goes with the failure.
    pub fn status(&self) -> (code: u16)
        ensures
            code == status_of(self@),
    {
        match self {
            Error::InvalidToken => 403,
            Error::UsernameAlreadyExists(_) => 409,
            Error::UsernameDoesntExist(_) => 409,
            Error::IncorrectPassword(_) => 403,
            Error::NotSenior => 405,
            Error::NotVolunteer => 405,
            Error::AlreadyRequestedHelp => 409,
            Error::DidntRequestHelp => 409,
            Error::RequestDoesntExist => 409,
            Error::RequestNotAcceptedByUser => 409,
            Error::Json(_) => 400,
            Error::Unexpected(_) => 500,
        }
    }

    /// What to write to the log for the failure, and how loudly.
    pub fn log(&self) -> (record: LogRecord)
        ensures
            record.level == level_of(self@),
            record.message@ == log_message_of(self@),
    {
        let level = match self {
            Error::Unexpected(_) => Level::Error,
            Error::InvalidToken | Error::IncorrectPassword(_) => Level::Warn,
            Error::NotSenior
            | Error::NotVolunteer
            | Error::RequestDoesntExist
            | Error::RequestNotAcceptedByUser => Level::Info,
            Error::Json(_) => Level::Debug,
            Error::UsernameAlreadyExists(_)
            | Error::UsernameDoesntExist(_)
            | Error::AlreadyRequestedHelp
            | Error::DidntRequestHelp => Level::Trace,
        };
        let message = match self {
            Error::Unexpected(e) => joined("Unexpected server error: ", e.as_str()),
            _ => self.description(),
        };
        LogRecord { level, message }
    }
}

/// No text that an unexpected failure carries reaches the caller: all
/// unexpected failures are described by one and the same sentence.
pub proof fn law_unexpected_failures_are_opaque(first: Seq<char>, second: Seq<char>)
    ensures
        description_of(ErrorView::Unexpected(first)) == description_of(
            ErrorView::Unexpected(second),
        ),
{
}

} // verus!
