//! The answer to a preflight request.

use vstd::prelude::*;

verus! {

/// An answer without a body.
pub struct Preflight {
    pub status: u16,
    pub headers: Vec<(String, String)>,
}

/// The headers that let every site send requests.
pub open spec fn cors_headers() -> Seq<(Seq<char>, Seq<char>)> {
    seq![
        ("Access-Control-Allow-Origin"@, "*"@),
        ("Access-Control-Allow-Methods"@, "GET, POST, PUT, DELETE, OPTIONS, HEAD"@),
        ("Access-Control-Allow-Headers"@, "Authorization, Content-Type"@),
        ("Access-Control-Max-Age"@, "86400"@),
    ]
}

/// The answer to every preflight request.
pub fn preflight() -> (r: Preflight)
    ensures
        r.status == 204,
        r.headers.deep_view() == cors_headers(),
        r.headers@.len() == 4,
        r.headers@[0].0@ == "Access-Control-Allow-Origin"@,
        r.headers@[0].1@ == "*"@,
        r.headers@[1].0@ == "Access-Control-Allow-Methods"@,
        r.headers@[1].1@ == "GET, POST, PUT, DELETE, OPTIONS, HEAD"@,
        r.headers@[2].0@ == "Access-Control-Allow-Headers"@,
        r.headers@[2].1@ == "Authorization, Content-Type"@,
        r.headers@[3].0@ == "Access-Control-Max-Age"@,
        r.headers@[3].1@ == "86400"@,
{
    let headers: Vec<(String, String)> = vec![
        ("Access-Control-Allow-Origin".to_string(), "*".to_string()),
        (
            "Access-Control-Allow-Methods".to_string(),
            "GET, POST, PUT, DELETE, OPTIONS, HEAD".to_string(),
        ),
        (
            "Access-Control-Allow-Headers".to_string(),
            "Authorization, Content-Type".to_string(),
        ),
        ("Access-Control-Max-Age".to_string(), "86400".to_string()),
    ];
    assert(headers.deep_view() =~= cors_headers());
    Preflight { status: 204, headers }
}

} // verus!
