//! The wrapper that the device puts around every reply.

use crate::error::{ScrapeError, ScrapeErrorView};
use vstd::prelude::*;

verus! {

/// A reply of the device: the value that was asked for, or the device's
/// report of a failure.
#[derive(Clone, Debug, PartialEq, Eq)]
pub enum ModemResponse<T = ()> {
    Response(T),
    Error { code: i32, message: String },
}

impl<T> ModemResponse<T> {
    /// The value of a reply, or the device's failure as an error that
    /// carries its code and message unchanged.
    pub fn ok(self) -> (r: Result<T, ScrapeError>)
        ensures
            match self {
                ModemResponse::Response(value) => r == Ok::<T, ScrapeError>(value),
                ModemResponse::Error { code, message } => r is Err && r->Err_0@ == (
                ScrapeErrorView::Api { code, message: message@ }),
            },
    {
        match self {
            ModemResponse::Response(value) => Ok(value),
            ModemResponse::Error { code, message } => Err(ScrapeError::Api { code, message }),
        }
    }
}

} // verus!
