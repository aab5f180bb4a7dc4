//! What every endpoint of the API shares.

use vstd::prelude::*;

verus! {

/// The HTTP methods the API's endpoints use.
#[derive(Debug, Clone, Copy, PartialEq, Eq, Structural)]
pub enum Method {
    Get,
    Post,
}

/// The method's name as it stands on the request line.
pub open spec fn spec_method_name(m: Method) -> Seq<char> {
    match m {
        Method::Get => "GET"@,
        Method::Post => "POST"@,
    }
}

impl Method {
    /// The method's name as it stands on the request line.
    pub fn as_str(&self) -> (name: &'static str)
        ensures
            name@ == spec_method_name(*self),
    {
        match self {
            Method::Get => "GET",
            Method::Post => "POST",
        }
    }
}

} // verus!
