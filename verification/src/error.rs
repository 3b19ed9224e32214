//! The failure taxonomy of the library. Every failure is terminal for the
//! single request and is handed to the caller unchanged; no variant wraps or
//! discards another cause.

use vstd::prelude::*;
use vstd::string::*;

use crate::text::{dec_digits, u32_to_string};

verus! {

/// Everything that can go wrong between building a prompt and reducing a
/// backend reply to text.
#[derive(Debug, PartialEq, Eq)]
pub enum Error {
    /// The external diff tool exited non-zero; carries its diagnostic text.
    DiffFailed { detail: String },
    /// The diff between the two revisions is empty: nothing to summarize.
    NoChanges { base: String, head: String },
    /// No profile of the requested name exists in the settings.
    ProfileNotFound { name: String },
    /// The backend answered with a non-success HTTP status; carries the
    /// status and the reply body verbatim.
    ApiRequestFailed { status: u16, body: String },
    /// The backend answered success, but the body was not a well-formed
    /// structured document.
    MalformedResponse,
}

/// The human-readable text of `e`, as `Error::message` renders it.
pub open spec fn message_spec(e: Error) -> Seq<char> {
    match e {
        Error::DiffFailed { detail } => "Git diff failed: "@ + detail@,
        Error::NoChanges { base, head } => "No differences between `"@ + base@ + "` and `"@
            + head@ + "`"@,
        Error::ProfileNotFound { name } => "Unable to find profile `"@ + name@ + "`"@,
        Error::ApiRequestFailed { status, body } => "API request failed with status: "@
            + dec_digits(status as nat) + ": "@ + body@,
        Error::MalformedResponse => "API response was not valid JSON"@,
    }
}

impl Error {
    /// One line describing the failure, fit for the process boundary.
    pub fn message(&self) -> (r: String)
        ensures
            r@ == message_spec(*self),
    {
        match self {
            Error::DiffFailed { detail } => {
                let mut m = String::new();
                m.append("Git diff failed: ");
                m.append(detail.as_str());
                proof {
                    assert(Seq::<char>::empty() + "Git diff failed: "@ =~= "Git diff failed: "@);
                }
                m
            },
            Error::NoChanges { base, head } => {
                let mut m = String::new();
                m.append("No differences between `");
                m.append(base.as_str());
                m.append("` and `");
                m.append(head.as_str());
                m.append("`");
                proof {
                    assert(Seq::<char>::empty() + "No differences between `"@
                        =~= "No differences between `"@);
                }
                m
            },
            Error::ProfileNotFound { name } => {
                let mut m = String::new();
                m.append("Unable to find profile `");
                m.append(name.as_str());
                m.append("`");
                proof {
                    assert(Seq::<char>::empty() + "Unable to find profile `"@
                        =~= "Unable to find profile `"@);
                }
                m
            },
            Error::ApiRequestFailed { status, body } => {
                let mut m = String::new();
                m.append("API request failed with status: ");
                let digits = u32_to_string(*status as u32);
                m.append(digits.as_str());
                m.append(": ");
                m.append(body.as_str());
                proof {
                    assert(Seq::<char>::empty() + "API request failed with status: "@
                        =~= "API request failed with status: "@);
                }
                m
            },
            Error::MalformedResponse => {
                let mut m = String::new();
                m.append("API response was not valid JSON");
                proof {
                    assert(Seq::<char>::empty() + "API response was not valid JSON"@
                        =~= "API response was not valid JSON"@);
                }
                m
            },
        }
    }
}

} // verus!
