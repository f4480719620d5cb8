//! The ways in which a request can fail, and how each is reported.

use crate::text::{decimal, extend_chars, from_chars, push_decimal, to_chars};
use vstd::prelude::*;
use vstd::string::*;

verus! {

/// Why a request was not answered with an image.
#[derive(Debug, PartialEq, Eq)]
pub enum AppError {
    /// The path of the request does not name a work, or an image of one.
    InvalidUrl,
    /// The work does not exist, is deleted or restricted, or no file could be
    /// found for the image. `message` is what the service said about it,
    /// where it said anything, and a general explanation otherwise.
    ArtworkUnavailable { message: String },
    /// Nothing is stored at the address that was asked. It is reported like
    /// `ArtworkUnavailable`, and tells a remembered address that has gone
    /// stale from one that is refused.
    WrongArtworkUrl,
    /// The service did not answer, or its answer could not be read.
    ServerUnreachable,
    /// Image zero was asked for; images are counted from one.
    ZeroQuery,
    /// The work has only `max` images, and a later one was asked for.
    TooHighQuery { max: u16 },
    /// The store of remembered addresses could not be reached, or the
    /// exchange with the outside went out of step.
    Internal,
}

/// `AppError` as a mathematical value.
pub enum AppErrorView {
    InvalidUrl,
    ArtworkUnavailable { message: Seq<char> },
    WrongArtworkUrl,
    ServerUnreachable,
    ZeroQuery,
    TooHighQuery { max: u16 },
    Internal,
}

impl View for AppError {
    type V = AppErrorView;

    open spec fn view(&self) -> AppErrorView {
        match *self {
            AppError::InvalidUrl => AppErrorView::InvalidUrl,
            AppError::ArtworkUnavailable { message } => AppErrorView::ArtworkUnavailable {
                message: message@,
            },
            AppError::WrongArtworkUrl => AppErrorView::WrongArtworkUrl,
            AppError::ServerUnreachable => AppErrorView::ServerUnreachable,
            AppError::ZeroQuery => AppErrorView::ZeroQuery,
            AppError::TooHighQuery { max } => AppErrorView::TooHighQuery { max },
            AppError::Internal => AppErrorView::Internal,
        }
    }
}

/// What is said of an unavailable work where the service gave no reason.
pub open spec fn unavailable_text() -> Seq<char> {
    "Information of the requested work could not be retrieved. The work might be deleted or have limited visibility."@
}

/// The message that an unavailable work carries: the reason that the service
/// gave, unless it gave none or an empty one.
pub open spec fn unavailable_message(reason: Option<Seq<char>>) -> Seq<char> {
    match reason {
        Some(text) if text.len() > 0 => text,
        _ => unavailable_text(),
    }
}

/// How the count of images is put into words.
pub open spec fn too_high_text(max: u16) -> Seq<char> {
    if max == 1 {
        "The index of the requested image is too high; there is 1 image in this collection."@
    } else {
        "The index of the requested image is too high; there are "@ + decimal(max as nat)
            + " images in this collection."@
    }
}

impl AppErrorView {
    /// The HTTP status under which the failure is reported.
    pub open spec fn status(self) -> u16 {
        match self {
            AppErrorView::InvalidUrl => 404,
            AppErrorView::ArtworkUnavailable { .. } => 404,
            AppErrorView::WrongArtworkUrl => 404,
            AppErrorView::ServerUnreachable => 502,
            AppErrorView::ZeroQuery => 400,
            AppErrorView::TooHighQuery { .. } => 400,
            AppErrorView::Internal => 500,
        }
    }

    /// The sentence that tells the caller what went wrong.
    pub open spec fn text(self) -> Seq<char> {
        match self {
            AppErrorView::InvalidUrl => "The requested URL is invalid."@,
            AppErrorView::ArtworkUnavailable { message } => message,
            AppErrorView::WrongArtworkUrl => unavailable_text(),
            AppErrorView::ServerUnreachable => "Failed to get response from Pixiv server."@,
            AppErrorView::ZeroQuery => "The index of the requested image must be at least 1."@,
            AppErrorView::TooHighQuery { max } => too_high_text(max),
            AppErrorView::Internal => "An internal server error occurred."@,
        }
    }
}

impl AppError {
    /// The failure for an unavailable work, with the reason that the service
    /// gave, if any.
    pub fn unavailable(reason: Option<&str>) -> (error: AppError)
        ensures
            error@ == (AppErrorView::ArtworkUnavailable {
                message: unavailable_message(
                    match reason {
                        Some(text) => Some(text@),
                        None => None,
                    },
                ),
            }),
    {
        let message = match reason {
            Some(text) if !text.is_empty() => text.to_owned(),
            _ => "Information of the requested work could not be retrieved. The work might be deleted or have limited visibility.".to_owned(),
        };
        AppError::ArtworkUnavailable { message }
    }

    /// The HTTP status under which the failure is reported.
    pub fn status_code(&self) -> (code: u16)
        ensures
            code == self@.status(),
    {
        match self {
            AppError::InvalidUrl => 404,
            AppError::ArtworkUnavailable { .. } => 404,
            AppError::WrongArtworkUrl => 404,
            AppError::ServerUnreachable => 502,
            AppError::ZeroQuery => 400,
            AppError::TooHighQuery { .. } => 400,
            AppError::Internal => 500,
        }
    }

    /// The sentence that tells the caller what went wrong.
    pub fn message(&self) -> (text: String)
        ensures
            text@ == self@.text(),
    {
        match self {
            AppError::InvalidUrl => "The requested URL is invalid.".to_owned(),
            AppError::ArtworkUnavailable { message } => message.clone(),
            AppError::WrongArtworkUrl => "Information of the requested work could not be retrieved. The work might be deleted or have limited visibility.".to_owned(),
            AppError::ServerUnreachable => "Failed to get response from Pixiv server.".to_owned(),
            AppError::ZeroQuery => "The index of the requested image must be at least 1.".to_owned(),
            AppError::TooHighQuery { max } => {
                if *max == 1 {
                    "The index of the requested image is too high; there is 1 image in this collection.".to_owned()
                } else {
                    let mut out = to_chars(
                        "The index of the requested image is too high; there are ",
                    );
                    push_decimal(&mut out, *max as u32);
                    let tail = to_chars(" images in this collection.");
                    extend_chars(&mut out, &tail);
                    from_chars(&out)
                }
            },
            AppError::Internal => "An internal server error occurred.".to_owned(),
        }
    }
}

} // verus!
