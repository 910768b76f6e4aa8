//! Per-cell probe replies and classified outcomes.

use vstd::prelude::*;

use crate::text::decimal_of;
use crate::text::error_string;
use crate::text::error_text;
use crate::text::decimal_string;

verus! {

/// What one HEAD probe of a URL came back with: either a response, with its
/// status code and the value of its `Location` header if one was present,
/// or a failure (timeout or transport error; the reason is not recorded).
#[derive(Clone)]
pub enum ProbeReply {
    Reply { status: u16, location: Option<String> },
    Failed,
}

/// The replies of the two independent probes made for one eligible cell:
/// one for the status check, one for the redirect check.
#[derive(Clone)]
pub struct CellProbes {
    pub status_probe: ProbeReply,
    pub redirect_probe: ProbeReply,
}

/// The status facet of a cell's outcome: the HTTP status code verbatim,
/// or the error sentinel.
#[derive(Clone, Debug, PartialEq, Eq, Structural)]
pub enum StatusOutcome {
    Code(u16),
    Error,
}

/// The redirect facet of a cell's outcome: an absolute target URL, no
/// redirect at all (rendered as the empty string), or the error sentinel.
#[derive(Clone)]
pub enum RedirectOutcome {
    Target(String),
    NoRedirect,
    Error,
}

impl ProbeReply {
    /// A reply is well formed when its status code is a valid HTTP code.
    pub open spec fn wf(self) -> bool {
        match self {
            ProbeReply::Reply { status, .. } => status <= 999,
            ProbeReply::Failed => true,
        }
    }
}

impl StatusOutcome {
    /// An outcome is well formed when its code is a valid HTTP code.
    pub open spec fn wf(self) -> bool {
        match self {
            StatusOutcome::Code(c) => c <= 999,
            StatusOutcome::Error => true,
        }
    }

    /// The text this outcome renders to in an output cell.
    pub open spec fn text_spec(self) -> Seq<char> {
        match self {
            StatusOutcome::Code(c) => decimal_of(c as nat),
            StatusOutcome::Error => error_text(),
        }
    }

    /// Render the outcome: the code in decimal, or the sentinel.
    pub fn render(&self) -> (r: String)
        ensures
            r@ == self.text_spec(),
    {
        match self {
            StatusOutcome::Code(c) => decimal_string(*c as u64),
            StatusOutcome::Error => error_string(),
        }
    }
}

impl RedirectOutcome {
    /// The text this outcome renders to in an output cell.
    pub open spec fn text_spec(self) -> Seq<char> {
        match self {
            RedirectOutcome::Target(t) => t@,
            RedirectOutcome::NoRedirect => Seq::empty(),
            RedirectOutcome::Error => error_text(),
        }
    }

    /// Render the outcome: the absolute target URL, the empty string for
    /// "no redirect", or the sentinel.
    pub fn render(&self) -> (r: String)
        ensures
            r@ == self.text_spec(),
    {
        match self {
            RedirectOutcome::Target(t) => t.clone(),
            RedirectOutcome::NoRedirect => String::new(),
            RedirectOutcome::Error => error_string(),
        }
    }
}

} // verus!
