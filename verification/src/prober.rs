//! Classification of probe replies into per-cell outcomes.
//!
//! A cell is probed only when its text begins with the literal scheme prefix
//! `https://`. The status check returns the HTTP status code verbatim, or
//! the error sentinel when the probe failed. The redirect check resolves the
//! reply's `Location` value, if any, against the probed URL; an absent
//! header is a success meaning "no redirect", and a failed probe or an
//! unresolvable `Location` value is the error sentinel.

use vstd::prelude::*;
use vstd::string::StrSliceExecFns;

use crate::outcome::ProbeReply;
use crate::outcome::RedirectOutcome;
use crate::outcome::StatusOutcome;
use crate::text::error_text;

verus! {

/// A cell's text makes it eligible for probing exactly when it begins with
/// the literal prefix `https://`.
pub open spec fn is_eligible_spec(s: Seq<char>) -> bool {
    &&& s.len() >= 8
    &&& s[0] == 'h'
    &&& s[1] == 't'
    &&& s[2] == 't'
    &&& s[3] == 'p'
    &&& s[4] == 's'
    &&& s[5] == ':'
    &&& s[6] == '/'
    &&& s[7] == '/'
}

/// Decide whether a cell's text is eligible for probing.
pub fn is_eligible(cell: &String) -> (r: bool)
    ensures
        r == is_eligible_spec(cell@),
{
    let s = cell.as_str();
    let n = s.unicode_len();
    if n < 8 {
        return false;
    }
    s.get_char(0) == 'h' && s.get_char(1) == 't' && s.get_char(2) == 't' && s.get_char(3) == 'p'
        && s.get_char(4) == 's' && s.get_char(5) == ':' && s.get_char(6) == '/' && s.get_char(7)
        == '/'
}

/// The absolute serialized URL that a `Location` value resolves to against
/// a base URL, or `None` when the base cannot be parsed as an absolute URL
/// or the value cannot be parsed relative to it.
pub uninterp spec fn resolve_of(base: Seq<char>, location: Seq<char>) -> Option<Seq<char>>;

/// Relies on `url::Url::parse` and `url::Url::join`: parsing the base as an
/// absolute URL, resolving `location` against it (RFC 3986 reference
/// resolution), and serializing the result; the outcome depends on the two
/// strings alone.
#[verifier::external_body]
fn resolve_location(base: &str, location: &str) -> (r: Option<String>)
    ensures
        r is Some <==> resolve_of(base@, location@) is Some,
        r matches Some(abs) ==> resolve_of(base@, location@) == Some(abs@),
{
    match url::Url::parse(base) {
        Ok(b) => match b.join(location) {
            Ok(u) => Some(u.to_string()),
            Err(_) => None,
        },
        Err(_) => None,
    }
}

/// The status outcome determined by one probe reply: the received status
/// code verbatim, or the sentinel when the probe failed.
pub open spec fn status_outcome_spec(reply: ProbeReply) -> StatusOutcome {
    match reply {
        ProbeReply::Reply { status, .. } => StatusOutcome::Code(status),
        ProbeReply::Failed => StatusOutcome::Error,
    }
}

/// Classify the reply of a status probe.
pub fn check_status(reply: &ProbeReply) -> (r: StatusOutcome)
    ensures
        r == status_outcome_spec(*reply),
        reply.wf() ==> r.wf(),
{
    match reply {
        ProbeReply::Reply { status, location: _ } => StatusOutcome::Code(*status),
        ProbeReply::Failed => StatusOutcome::Error,
    }
}

/// The text that the redirect outcome of one probe reply renders to:
/// the sentinel for a failed probe or an unresolvable `Location` value,
/// the empty text when no `Location` header was present, and the resolved
/// absolute URL otherwise.
pub open spec fn redirect_text_spec(base: Seq<char>, reply: ProbeReply) -> Seq<char> {
    match reply {
        ProbeReply::Failed => error_text(),
        ProbeReply::Reply { status: _, location } => match location {
            None => Seq::empty(),
            Some(loc) => match resolve_of(base, loc@) {
                Some(abs) => abs,
                None => error_text(),
            },
        },
    }
}

/// How a redirect outcome is determined by the probed URL and the reply:
/// failure gives the sentinel; a reply without a `Location` header gives
/// "no redirect"; a reply with one gives its resolution against the probed
/// URL, or the sentinel when it does not resolve.
pub open spec fn redirect_outcome_matches(base: Seq<char>, reply: ProbeReply, r: RedirectOutcome) -> bool {
    match reply {
        ProbeReply::Failed => r is Error,
        ProbeReply::Reply { status: _, location } => match location {
            None => r is NoRedirect,
            Some(loc) => match resolve_of(base, loc@) {
                Some(abs) => r matches RedirectOutcome::Target(t) && t@ == abs,
                None => r is Error,
            },
        },
    }
}

/// Classify the reply of a redirect probe of `base`.
pub fn check_redirect(base: &String, reply: &ProbeReply) -> (r: RedirectOutcome)
    ensures
        redirect_outcome_matches(base@, *reply, r),
        r.text_spec() == redirect_text_spec(base@, *reply),
{
    match reply {
        ProbeReply::Failed => RedirectOutcome::Error,
        ProbeReply::Reply { status: _, location } => match location {
            Option::None => RedirectOutcome::NoRedirect,
            Option::Some(loc) => match resolve_location(base.as_str(), loc.as_str()) {
                Option::Some(abs) => RedirectOutcome::Target(abs),
                Option::None => RedirectOutcome::Error,
            },
        },
    }
}

} // verus!
