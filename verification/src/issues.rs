//! The choices an issue list call is filtered and sorted by.

use vstd::prelude::*;

verus! {

/// What an issue list is sorted by.
pub enum Sort {
    Created,
    Updated,
    Comments,
}

impl Sort {
    /// The value this choice takes in a query string.
    pub open spec fn param_view(self) -> Seq<char> {
        match self {
            Sort::Created => "created"@,
            Sort::Updated => "updated"@,
            Sort::Comments => "comments"@,
        }
    }

    /// The value this choice takes in a query string.
    pub fn to_param(&self) -> (r: String)
        ensures
            r@ == self.param_view(),
    {
        match self {
            Sort::Created => String::from_str("created"),
            Sort::Updated => String::from_str("updated"),
            Sort::Comments => String::from_str("comments"),
        }
    }
}

} // verus!
