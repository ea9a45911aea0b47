//! Answers, and the messages that are kept for the user's next page.

use crate::utils::{ErrorResponse, INTERNAL_SERVER_ERROR};
use vstd::prelude::*;

verus! {

/// The HTTP status "see other".
pub const SEE_OTHER: u16 = 303;

/// The HTTP status "ok".
pub const OK: u16 = 200;

/// How a message for the user is meant.
#[derive(Clone, Copy, Debug, PartialEq, Eq, Structural)]
pub enum Level {
    Success,
    Error,
}

/// A message that is kept in the session and shown on the user's next page.
#[derive(Debug)]
pub struct Flash {
    pub level: Level,
    pub text: String,
}

/// A flash message as contracts speak of it.
pub struct FlashView {
    pub level: Level,
    pub text: Seq<char>,
}

impl View for Flash {
    type V = FlashView;

    open spec fn view(&self) -> FlashView {
        FlashView { level: self.level, text: self.text@ }
    }
}

/// The flash message, if any, as contracts speak of it.
pub open spec fn shown(flash: Option<Flash>) -> Option<FlashView> {
    match flash {
        Some(flash) => Some(flash@),
        None => None,
    }
}

impl Flash {
    /// A message of success.
    pub fn success(text: String) -> (flash: Flash)
        ensures
            flash@ == (FlashView { level: Level::Success, text: text@ }),
    {
        Flash { level: Level::Success, text }
    }

    /// A message of failure.
    pub fn error(text: String) -> (flash: Flash)
        ensures
            flash@ == (FlashView { level: Level::Error, text: text@ }),
    {
        Flash { level: Level::Error, text }
    }
}

/// What a request is answered with.
#[derive(Debug)]
pub enum Reply {
    /// Status "see other", and the place to go to.
    Redirect { to: String },
    /// Status "ok", and a page made from the template, which is shown the
    /// place to go to after a login, if there is one.
    Page { template: &'static str, next: Option<String> },
    /// A failure, with its status and text.
    Failure(ErrorResponse),
}

/// An answer as contracts speak of it.
pub enum ReplyView {
    Redirect { to: Seq<char> },
    Page { template: Seq<char>, next: Option<Seq<char>> },
    Failure { status_code: u16, message: Seq<char> },
}

/// The text, if any, as contracts speak of it.
pub open spec fn text_of(text: Option<String>) -> Option<Seq<char>> {
    match text {
        Some(text) => Some(text@),
        None => None,
    }
}

impl View for Reply {
    type V = ReplyView;

    open spec fn view(&self) -> ReplyView {
        match self {
            Reply::Redirect { to } => ReplyView::Redirect { to: to@ },
            Reply::Page { template, next } => ReplyView::Page {
                template: template@,
                next: text_of(*next),
            },
            Reply::Failure(e) => ReplyView::Failure {
                status_code: e.status_code,
                message: e.message@,
            },
        }
    }
}

impl ReplyView {
    /// The HTTP status of the answer.
    pub open spec fn status(self) -> u16 {
        match self {
            ReplyView::Redirect { .. } => SEE_OTHER,
            ReplyView::Page { .. } => OK,
            ReplyView::Failure { status_code, .. } => status_code,
        }
    }

    /// Where the answer sends the client.
    pub open spec fn location(self) -> Option<Seq<char>> {
        match self {
            ReplyView::Redirect { to } => Some(to),
            _ => None,
        }
    }

    /// The failure without a text: status "internal server error".
    pub open spec fn internal_error() -> ReplyView {
        ReplyView::Failure { status_code: INTERNAL_SERVER_ERROR, message: Seq::empty() }
    }
}

impl Reply {
    /// A redirect to the place.
    pub fn redirect(to: &str) -> (reply: Reply)
        ensures
            reply@ == (ReplyView::Redirect { to: to@ }),
    {
        Reply::Redirect { to: to.to_owned() }
    }

    /// The failure without a text: status "internal server error".
    pub fn internal_error() -> (reply: Reply)
        ensures
            reply@ == ReplyView::internal_error(),
    {
        Reply::Failure(ErrorResponse { status_code: INTERNAL_SERVER_ERROR, message: String::new() })
    }

    /// The HTTP status of the answer.
    pub fn status(&self) -> (status: u16)
        ensures
            status == self@.status(),
    {
        match self {
            Reply::Redirect { .. } => SEE_OTHER,
            Reply::Page { .. } => OK,
            Reply::Failure(e) => e.status_code,
        }
    }

    /// Where the answer sends the client.
    pub fn location(&self) -> (to: Option<&str>)
        ensures
            match to {
                Some(to) => self@.location() == Some(to@),
                None => self@.location() is None,
            },
    {
        match self {
            Reply::Redirect { to } => Some(to.as_str()),
            _ => None,
        }
    }
}

} // verus!
