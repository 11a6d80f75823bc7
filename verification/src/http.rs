//! Plain-value models of the HTTP messages the engine decides over: a
//! request (method, destination parts, headers, body) and a response
//! (status, headers, body). Header lookup is case-insensitive on the name,
//! returning the first match, as an HTTP header map does.
use vstd::prelude::*;

use crate::text::{eq_ci, str_eq_ci};

verus! {

/// One request or response header, name and value both as text. Header
/// values that are not valid text have no bearing on any decision this
/// engine takes and are simply not part of the model.
pub struct Header {
    pub name: String,
    pub value: String,
}

impl Header {
    /// A field-for-field copy.
    pub fn duplicate(&self) -> (r: Header)
        ensures
            r.name@ == self.name@,
            r.value@ == self.value@,
    {
        Header { name: self.name.clone(), value: self.value.clone() }
    }
}

/// An HTTP request as the engine sees it. `scheme` and `authority` are
/// `None` for an origin-form request target (the form a proxy receives);
/// forwarding fills both in. `query` is `None` when the target has no `?`.
pub struct HttpRequest {
    pub method: String,
    pub scheme: Option<String>,
    pub authority: Option<String>,
    pub path: String,
    pub query: Option<String>,
    pub headers: Vec<Header>,
    pub body: Vec<u8>,
}

/// An HTTP response as the engine sees it.
pub struct HttpResponse {
    pub status: u16,
    pub headers: Vec<Header>,
    pub body: Vec<u8>,
}

/// The view of a header list: each header as a (name, value) pair of
/// character sequences.
pub open spec fn header_entries(hs: Seq<Header>) -> Seq<(Seq<char>, Seq<char>)> {
    hs.map_values(|h: Header| (h.name@, h.value@))
}

/// The view of an optional string.
pub open spec fn opt_str_view(s: Option<String>) -> Option<Seq<char>> {
    match s {
        Some(v) => Some(v@),
        None => None,
    }
}

/// The value of the first header whose name equals `name` case-insensitively,
/// or `None` if no header has that name.
pub open spec fn spec_header_value(hs: Seq<Header>, name: Seq<char>) -> Option<Seq<char>>
    decreases hs.len(),
{
    if hs.len() == 0 {
        None
    } else if eq_ci(hs[0].name@, name) {
        Some(hs[0].value@)
    } else {
        spec_header_value(hs.drop_first(), name)
    }
}

/// Look up a header by name, case-insensitively; the first match wins.
pub fn header_value<'a>(headers: &'a Vec<Header>, name: &str) -> (r: Option<&'a String>)
    ensures
        match r {
            Some(v) => spec_header_value(headers@, name@) == Some(v@),
            None => spec_header_value(headers@, name@) is None,
        },
{
    let n = headers.len();
    let mut i: usize = 0;
    proof {
        assert(headers@.skip(0) =~= headers@);
    }
    while i < n
        invariant
            n == headers@.len(),
            i <= n,
            spec_header_value(headers@, name@) == spec_header_value(
                headers@.skip(i as int),
                name@,
            ),
        decreases n - i,
    {
        proof {
            assert(headers@.skip(i as int)[0] == headers@[i as int]);
            assert(headers@.skip(i as int).drop_first() =~= headers@.skip(i as int + 1));
        }
        if str_eq_ci(headers[i].name.as_str(), name) {
            return Some(&headers[i].value);
        }
        i += 1;
    }
    proof {
        assert(headers@.skip(n as int) =~= Seq::<Header>::empty());
    }
    None
}

} // verus!
