//! The redirect status codes a rule can ask for.
use vstd::prelude::*;

use crate::text::text_eq;

verus! {

/// An HTTP redirect status.
#[derive(Clone, Copy, Debug, PartialEq, Eq, Structural)]
pub enum Status {
    MovedPermanently,
    Found,
    SeeOther,
    TemporaryRedirect,
    PermanentRedirect,
}

/// The numeric HTTP code of a status.
pub open spec fn code_of(s: Status) -> u16 {
    match s {
        Status::MovedPermanently => 301,
        Status::Found => 302,
        Status::SeeOther => 303,
        Status::TemporaryRedirect => 307,
        Status::PermanentRedirect => 308,
    }
}

/// The status that a rule's status token names; an unknown token means
/// "moved permanently". Tokens are matched exactly, case included.
pub open spec fn status_of_token(t: Seq<char>) -> Status {
    if t == "301"@ || t == "moved"@ {
        Status::MovedPermanently
    } else if t == "302"@ || t == "found"@ {
        Status::Found
    } else if t == "303"@ || t == "see_other"@ {
        Status::SeeOther
    } else if t == "307"@ || t == "temporary"@ {
        Status::TemporaryRedirect
    } else if t == "308"@ || t == "permanent"@ {
        Status::PermanentRedirect
    } else {
        Status::MovedPermanently
    }
}

impl Status {
    /// The numeric HTTP code.
    pub fn code(&self) -> (r: u16)
        ensures
            r == code_of(*self),
    {
        match self {
            Status::MovedPermanently => 301,
            Status::Found => 302,
            Status::SeeOther => 303,
            Status::TemporaryRedirect => 307,
            Status::PermanentRedirect => 308,
        }
    }
}

/// Maps a status token of a `rewrite` rule to its status.
pub fn match_status(token: &str) -> (r: Status)
    ensures
        r == status_of_token(token@),
{
    if text_eq(token, "301") || text_eq(token, "moved") {
        Status::MovedPermanently
    } else if text_eq(token, "302") || text_eq(token, "found") {
        Status::Found
    } else if text_eq(token, "303") || text_eq(token, "see_other") {
        Status::SeeOther
    } else if text_eq(token, "307") || text_eq(token, "temporary") {
        Status::TemporaryRedirect
    } else if text_eq(token, "308") || text_eq(token, "permanent") {
        Status::PermanentRedirect
    } else {
        Status::MovedPermanently
    }
}

/// A token outside the table means "moved permanently".
pub proof fn lemma_unknown_token_is_moved_permanently(t: Seq<char>)
    requires
        t != "301"@ && t != "moved"@ && t != "302"@ && t != "found"@ && t != "303"@ && t
            != "see_other"@ && t != "307"@ && t != "temporary"@ && t != "308"@ && t
            != "permanent"@,
    ensures
        status_of_token(t) == Status::MovedPermanently,
        code_of(status_of_token(t)) == 301,
{
}

} // verus!
