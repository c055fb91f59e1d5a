//! The choices a search call is sorted by.

use vstd::prelude::*;

verus! {

/// What an issue search is sorted by.
pub enum SearchIssuesSort {
    Comments,
    Created,
    Updated,
}

impl SearchIssuesSort {
    /// The value this choice takes in a query string.
    pub open spec fn param_view(self) -> Seq<char> {
        match self {
            SearchIssuesSort::Comments => "comments"@,
            SearchIssuesSort::Created => "created"@,
            SearchIssuesSort::Updated => "updated"@,
        }
    }

    /// The value this choice takes in a query string.
    pub fn to_param(&self) -> (r: String)
        ensures
            r@ == self.param_view(),
    {
        match self {
            SearchIssuesSort::Comments => String::from_str("comments"),
            SearchIssuesSort::Created => String::from_str("created"),
            SearchIssuesSort::Updated => String::from_str("updated"),
        }
    }
}

} // verus!
