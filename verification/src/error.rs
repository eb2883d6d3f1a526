//! Application error types.
//!
//! Add domain-specific variants here as the application grows.

use vstd::prelude::*;
use vstd::string::StringExecFns;

verus! {

/// Top-level application error.
///
/// The variant set is open: further kinds of failure may be added later
/// without notice, so callers that match on it should keep a fallback arm.
#[derive(Debug)]
#[non_exhaustive]
pub enum AppError {
    /// An unexpected internal error.
    ///
    /// The inner string is a human-readable description of what went wrong.
    Internal(String),
}

impl AppError {
    /// The rendered display text: `Internal(m)` renders as
    /// `internal error: {m}`. This format is a stability contract.
    pub open spec fn display_view(&self) -> Seq<char> {
        match self {
            AppError::Internal(m) => "internal error: "@ + m@,
        }
    }

    /// The stable machine-readable code attached to the error.
    pub open spec fn code_view(&self) -> Seq<char> {
        match self {
            AppError::Internal(_) => "app::internal"@,
        }
    }

    /// The fixed remediation hint attached to the error.
    pub open spec fn help_view(&self) -> Seq<char> {
        match self {
            AppError::Internal(_) => "This is a bug; please file an issue"@,
        }
    }

    /// Render the error as its display text, with the carried message
    /// unaltered: no truncation, no escaping.
    pub fn render(&self) -> (r: String)
        ensures
            r@ == self.display_view(),
    {
        match self {
            AppError::Internal(m) => {
                let mut r = "internal error: ".to_owned();
                r.append(m.as_str());
                r
            },
        }
    }

    /// The stable identifier of this kind of error, for presentation
    /// layers that distinguish error codes from messages.
    pub fn code(&self) -> (r: String)
        ensures
            r@ == self.code_view(),
    {
        match self {
            AppError::Internal(_) => "app::internal".to_owned(),
        }
    }

    /// The remediation hint shown beside the rendered error.
    pub fn help(&self) -> (r: String)
        ensures
            r@ == self.help_view(),
    {
        match self {
            AppError::Internal(_) => "This is a bug; please file an issue".to_owned(),
        }
    }
}

} // verus!
