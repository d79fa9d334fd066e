//! The ways in which a scrape can fail.

use crate::decimal::{decimal, i32_text, signed_decimal, u64_text};
use vstd::prelude::*;
use vstd::string::*;

verus! {

/// Why no usable reply came from the device.
#[derive(Clone, Debug, PartialEq, Eq)]
pub enum TransportFailure {
    /// The request could not be carried out; `detail` is the transport's own
    /// account of it.
    Unreachable { detail: String },
    /// The device answered with a status other than one of success.
    Status { code: u16 },
}

/// Why a scrape failed.
#[derive(Clone, Debug, PartialEq, Eq)]
pub enum ScrapeError {
    /// The device was not reached, or refused the request.
    Transport(TransportFailure),
    /// The body of a reply is not the document that was expected.
    Parse,
    /// The device reported a failure of its own, handed on as it came.
    Api { code: i32, message: String },
    /// The metrics document could not be written.
    Encoding,
}

/// The four kinds of failure.
#[derive(Clone, Copy, Debug, PartialEq, Eq, Structural)]
pub enum ErrorCategory {
    Transport,
    Parse,
    Api,
    Encoding,
}

pub enum TransportFailureView {
    Unreachable { detail: Seq<char> },
    Status { code: u16 },
}

pub enum ScrapeErrorView {
    Transport(TransportFailureView),
    Parse,
    Api { code: i32, message: Seq<char> },
    Encoding,
}

impl View for TransportFailure {
    type V = TransportFailureView;

    open spec fn view(&self) -> TransportFailureView {
        match *self {
            TransportFailure::Unreachable { detail } => TransportFailureView::Unreachable {
                detail: detail@,
            },
            TransportFailure::Status { code } => TransportFailureView::Status { code },
        }
    }
}

impl View for ScrapeError {
    type V = ScrapeErrorView;

    open spec fn view(&self) -> ScrapeErrorView {
        match *self {
            ScrapeError::Transport(failure) => ScrapeErrorView::Transport(failure@),
            ScrapeError::Parse => ScrapeErrorView::Parse,
            ScrapeError::Api { code, message } => ScrapeErrorView::Api { code, message: message@ },
            ScrapeError::Encoding => ScrapeErrorView::Encoding,
        }
    }
}

/// Whether a status of a reply reports a failure: any status outside the
/// class of success.
pub open spec fn status_is_failure(status: u16) -> bool {
    !(200 <= status < 300)
}

impl ScrapeErrorView {
    pub open spec fn category(self) -> ErrorCategory {
        match self {
            ScrapeErrorView::Transport(_) => ErrorCategory::Transport,
            ScrapeErrorView::Parse => ErrorCategory::Parse,
            ScrapeErrorView::Api { .. } => ErrorCategory::Api,
            ScrapeErrorView::Encoding => ErrorCategory::Encoding,
        }
    }

    /// The account of the failure that is shown to whoever asked for the
    /// metrics.
    pub open spec fn description(self) -> Seq<char> {
        match self {
            ScrapeErrorView::Transport(TransportFailureView::Unreachable { detail }) =>
                "transport error: "@ + detail,
            ScrapeErrorView::Transport(TransportFailureView::Status { code }) =>
                "transport error: status "@ + decimal(code as nat),
            ScrapeErrorView::Parse => "parse error: malformed response body"@,
            ScrapeErrorView::Api { code, message } =>
                "api error: code="@ + signed_decimal(code as int) + " message="@ + message,
            ScrapeErrorView::Encoding => "encoding error: failed to encode"@,
        }
    }
}

impl ScrapeError {
    /// The kind of the failure.
    pub fn category(&self) -> (r: ErrorCategory)
        ensures
            r == self@.category(),
    {
        match self {
            ScrapeError::Transport(_) => ErrorCategory::Transport,
            ScrapeError::Parse => ErrorCategory::Parse,
            ScrapeError::Api { .. } => ErrorCategory::Api,
            ScrapeError::Encoding => ErrorCategory::Encoding,
        }
    }

    /// The account of the failure as text. A failure of the device's own
    /// shows its code and its message.
    pub fn describe(&self) -> (r: String)
        ensures
            r@ == self@.description(),
    {
        match self {
            ScrapeError::Transport(TransportFailure::Unreachable { detail }) => {
                String::from_str("transport error: ").concat(detail.as_str())
            },
            ScrapeError::Transport(TransportFailure::Status { code }) => {
                let digits = u64_text(*code as u64);
                String::from_str("transport error: status ").concat(digits.as_str())
            },
            ScrapeError::Parse => String::from_str("parse error: malformed response body"),
            ScrapeError::Api { code, message } => {
                let digits = i32_text(*code);
                String::from_str("api error: code=").concat(digits.as_str()).concat(
                    " message=",
                ).concat(message.as_str())
            },
            ScrapeError::Encoding => String::from_str("encoding error: failed to encode"),
        }
    }
}

} // verus!
