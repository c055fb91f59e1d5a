//! Client-side core of a REST API client in the style of GitHub's v3 API:
//! typed request construction with credential attachment, classification of
//! responses into a small error taxonomy, a cursor-following pagination
//! engine, and the option builders and data records of the resources.

use vstd::prelude::*;

pub mod errors;
pub mod executor;
pub mod hooks;
pub mod issues;
pub mod json;
pub mod json_parse;
pub mod pagination;
pub mod params;
pub mod rep;
pub mod repositories;
pub mod search;

verus! {

/// Direction that results of a list call are sorted in.
pub enum SortDirection {
    Asc,
    Desc,
}

impl SortDirection {
    /// The value this direction takes in a query string.
    pub open spec fn param_view(self) -> Seq<char> {
        match self {
            SortDirection::Asc => "asc"@,
            SortDirection::Desc => "desc"@,
        }
    }

    /// The value this direction takes in a query string.
    pub fn to_param(&self) -> (r: String)
        ensures
            r@ == self.param_view(),
    {
        match self {
            SortDirection::Asc => String::from_str("asc"),
            SortDirection::Desc => String::from_str("desc"),
        }
    }
}

/// Issue or pull-request state that a list call filters by.
pub enum State {
    Open,
    Closed,
    All,
}

impl State {
    /// The value this state takes in a query string.
    pub open spec fn param_view(self) -> Seq<char> {
        match self {
            State::Open => "open"@,
            State::Closed => "closed"@,
            State::All => "all"@,
        }
    }

    /// The value this state takes in a query string.
    pub fn to_param(&self) -> (r: String)
        ensures
            r@ == self.param_view(),
    {
        match self {
            State::Open => String::from_str("open"),
            State::Closed => String::from_str("closed"),
            State::All => String::from_str("all"),
        }
    }
}

/// How the client authenticates itself: not at all, with a static token,
/// or with an OAuth client id and secret. Immutable once constructed and
/// attached to each outgoing request.
pub enum Credentials {
    Anonymous,
    Token(String),
    Client(String, String),
}

} // verus!
