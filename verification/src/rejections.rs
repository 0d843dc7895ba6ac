//! Why a request is turned away before any operation runs on it: by the
//! token check, by the role guard, or by the account directory.

use crate::errors::{framed, joined, Level, LogRecord};
use vstd::prelude::*;

verus! {

/// The reason a request is turned away at the door.
#[derive(Debug, PartialEq, Eq)]
pub enum CustomRejection {
    InvalidToken,
    UsernameAlreadyExists(String),
    UsernameDoesntExist(String),
    IncorrectPassword(String),
    NotSenior,
    NotVolunteer,
    AlreadyRequestedHelp,
    DidntRequestHelp,
    /// A failure that no caller can act on; the text is for the operator.
    Unexpected(String),
}

pub enum CustomRejectionView {
    InvalidToken,
    UsernameAlreadyExists(Seq<char>),
    UsernameDoesntExist(Seq<char>),
    IncorrectPassword(Seq<char>),
    NotSenior,
    NotVolunteer,
    AlreadyRequestedHelp,
    DidntRequestHelp,
    Unexpected(Seq<char>),
}

impl View for CustomRejection {
    type V = CustomRejectionView;

    open spec fn view(&self) -> CustomRejectionView {
        match self {
            CustomRejection::InvalidToken => CustomRejectionView::InvalidToken,
            CustomRejection::UsernameAlreadyExists(u) => CustomRejectionView::UsernameAlreadyExists(
                u@,
            ),
            CustomRejection::UsernameDoesntExist(u) => CustomRejectionView::UsernameDoesntExist(u@),
            CustomRejection::IncorrectPassword(u) => CustomRejectionView::IncorrectPassword(u@),
            CustomRejection::NotSenior => CustomRejectionView::NotSenior,
            CustomRejection::NotVolunteer => CustomRejectionView::NotVolunteer,
            CustomRejection::AlreadyRequestedHelp => CustomRejectionView::AlreadyRequestedHelp,
            CustomRejection::DidntRequestHelp => CustomRejectionView::DidntRequestHelp,
            CustomRejection::Unexpected(m) => CustomRejectionView::Unexpected(m@),
        }
    }
}

/// The sentence that tells a caller why the request was turned away. Of an
/// unexpected failure it tells no more than that: the text the failure
/// carries is for the log alone.
pub open spec fn rejection_text(r: CustomRejectionView) -> Seq<char> {
    match r {
        CustomRejectionView::InvalidToken => "The authentication string was invalid"@,
        CustomRejectionView::UsernameAlreadyExists(u) => "The username `"@ + u
            + "` already exists"@,
        CustomRejectionView::UsernameDoesntExist(u) => "The username `"@ + u + "` doesn't exist"@,
        CustomRejectionView::IncorrectPassword(u) => "The password for `"@ + u
            + " is incorrect`"@,
        CustomRejectionView::NotSenior =>
            "You must have a Senior account to invoke help request endpoints"@,
        CustomRejectionView::NotVolunteer =>
            "You must have a Volunteer account to invoke volunteering endpoints"@,
        CustomRejectionView::AlreadyRequestedHelp => "You already requested help"@,
        CustomRejectionView::DidntRequestHelp => "You never requested help"@,
        CustomRejectionView::Unexpected(_) => "Unexpected server error"@,
    }
}

/// The line that goes to the log for a rejection: the sentence for the
/// caller, and for an unexpected failure also the text it carries.
pub open spec fn rejection_log_message(r: CustomRejectionView) -> Seq<char> {
    match r {
        CustomRejectionView::Unexpected(m) => "Unexpected server error: "@ + m,
        _ => rejection_text(r),
    }
}

/// The HTTP status code that goes with a rejection.
pub open spec fn rejection_status(r: CustomRejectionView) -> u16 {
    match r {
        CustomRejectionView::InvalidToken => 403,
        CustomRejectionView::UsernameAlreadyExists(_) => 409,
        CustomRejectionView::UsernameDoesntExist(_) => 409,
        CustomRejectionView::IncorrectPassword(_) => 403,
        CustomRejectionView::NotSenior => 405,
        CustomRejectionView::NotVolunteer => 405,
        CustomRejectionView::AlreadyRequestedHelp => 409,
        CustomRejectionView::DidntRequestHelp => 409,
        CustomRejectionView::Unexpected(_) => 500,
    }
}

/// How loudly a rejection is logged: unexpected failures loudest, failed
/// authentication next, then a wrong role, and routine conflicts quietest.
pub open spec fn rejection_level(r: CustomRejectionView) -> Level {
    match r {
        CustomRejectionView::Unexpected(_) => Level::Error,
        CustomRejectionView::InvalidToken
        | CustomRejectionView::IncorrectPassword(_) => Level::Warn,
        CustomRejectionView::NotSenior | CustomRejectionView::NotVolunteer => Level::Info,
        CustomRejectionView::UsernameAlreadyExists(_)
        | CustomRejectionView::UsernameDoesntExist(_)
        | CustomRejectionView::AlreadyRequestedHelp
        | CustomRejectionView::DidntRequestHelp => Level::Trace,
    }
}

impl CustomRejection {
    /// The sentence that tells a caller why the request was turned away. It
    /// never holds the text of an unexpected failure.
    pub fn description(&self) -> (text: String)
        ensures
            text@ == rejection_text(self@),
    {
        match self {
            CustomRejection::InvalidToken => "The authentication string was invalid".to_owned(),
            CustomRejection::UsernameAlreadyExists(username) => framed(
                "The username `",
                username.as_str(),
                "` already exists",
            ),
            CustomRejection::UsernameDoesntExist(username) => framed(
                "The username `",
                username.as_str(),
                "` doesn't exist",
            ),
            CustomRejection::IncorrectPassword(username) => framed(
                "The password for `",
                username.as_str(),
                " is incorrect`",
            ),
            CustomRejection::NotSenior => {
                "You must have a Senior account to invoke help request endpoints".to_owned()
            },
            CustomRejection::NotVolunteer => {
                "You must have a Volunteer account to invoke volunteering endpoints".to_owned()
            },
            CustomRejection::AlreadyRequestedHelp => "You already requested help".to_owned(),
            CustomRejection::DidntRequestHelp => "You never requested help".to_owned(),
            CustomRejection::Unexpected(_) => "Unexpected server error".to_owned(),
        }
    }

    /// The HTTP status code that goes with the rejection.
    pub fn status(&self) -> (code: u16)
        ensures
            code == rejection_status(self@),
    {
        match self {
            CustomRejection::InvalidToken => 403,
            CustomRejection::UsernameAlreadyExists(_) => 409,
            CustomRejection::UsernameDoesntExist(_) => 409,
            CustomRejection::IncorrectPassword(_) => 403,
            CustomRejection::NotSenior => 405,
            CustomRejection::NotVolunteer => 405,
            CustomRejection::AlreadyRequestedHelp => 409,
            CustomRejection::DidntRequestHelp => 409,
            CustomRejection::Unexpected(_) => 500,
        }
    }

    /// What to write to the log for the rejection, and how loudly.
    pub fn log(&self) -> (record: LogRecord)
        ensures
            record.level == rejection_level(self@),
            record.message@ == rejection_log_message(self@),
    {
        let level = match self {
            CustomRejection::Unexpected(_) => Level::Error,
            CustomRejection::InvalidToken | CustomRejection::IncorrectPassword(_) => Level::Warn,
            CustomRejection::NotSenior | CustomRejection::NotVolunteer => Level::Info,
            CustomRejection::UsernameAlreadyExists(_)
            | CustomRejection::UsernameDoesntExist(_)
            | CustomRejection::AlreadyRequestedHelp
            | CustomRejection::DidntRequestHelp => Level::Trace,
        };
        let message = match self {
            CustomRejection::Unexpected(e) => joined("Unexpected server error: ", e.as_str()),
            _ => self.description(),
        };
        LogRecord { level, message }
    }
}

} // verus!
