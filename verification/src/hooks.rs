//! The choices a repository hook is configured with.

use vstd::prelude::*;

verus! {

/// How a web hook's payload is delivered.
pub enum WebHookContentType {
    Json,
    Form,
}

impl WebHookContentType {
    /// The value this choice takes in a query string.
    pub open spec fn param_view(self) -> Seq<char> {
        match self {
            WebHookContentType::Json => "json"@,
            WebHookContentType::Form => "form"@,
        }
    }

    /// The value this choice takes in a query string.
    pub fn to_param(&self) -> (r: String)
        ensures
            r@ == self.param_view(),
    {
        match self {
            WebHookContentType::Json => String::from_str("json"),
            WebHookContentType::Form => String::from_str("form"),
        }
    }
}

} // verus!
