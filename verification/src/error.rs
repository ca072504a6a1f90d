//! The error that callers see.

use vstd::prelude::*;

use crate::text::concat;

verus! {

/// A refusal or a failure, with the reason that is shown to the caller.
#[derive(Debug)]
pub struct Error {
    pub reason: String,
}

impl View for Error {
    type V = Seq<char>;

    open spec fn view(&self) -> Seq<char> {
        self.reason@
    }
}

/// How an error with the reason `reason` reads when it is printed.
pub open spec fn printed(reason: Seq<char>) -> Seq<char> {
    if reason.len() == 0 {
        "GenericFailure"@
    } else {
        "GenericFailure, "@ + reason
    }
}

impl Error {
    pub fn from_reason(reason: &str) -> (e: Error)
        ensures
            e@ == reason@,
    {
        Error { reason: reason.to_owned() }
    }

    /// The error whose reason is `prefix` followed by `detail`.
    pub fn with_detail(prefix: &str, detail: &str) -> (e: Error)
        ensures
            e@ == prefix@ + detail@,
    {
        Error { reason: concat(prefix, detail) }
    }

    /// The text that stands for this error where an error is printed.
    pub fn to_text(&self) -> (text: String)
        ensures
            text@ == printed(self@),
    {
        if self.reason.as_str().is_empty() {
            "GenericFailure".to_owned()
        } else {
            concat("GenericFailure, ", self.reason.as_str())
        }
    }
}

/// `r` is an error with the given reason.
pub open spec fn failed<T>(r: Result<T, Error>, reason: Seq<char>) -> bool {
    r is Err && r->Err_0@ == reason
}

} // verus!
