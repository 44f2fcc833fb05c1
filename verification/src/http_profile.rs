//! How requests travel: method, timeout, scheme and endpoint.

use crate::text::{eq_ignore_ascii_case, same_ignoring_ascii_case};
use vstd::prelude::*;

verus! {

/// HTTP settings of a client.
#[derive(Clone, Debug)]
pub struct HttpProfile {
    pub req_method: String,
    pub req_timeout: u64,
    pub scheme: String,
    pub root_domain: String,
    pub end_point: String,
}

/// What an [`HttpProfile`] holds, as mathematical values.
pub struct HttpProfileView {
    pub req_method: Seq<char>,
    pub req_timeout: nat,
    pub scheme: Seq<char>,
    pub root_domain: Seq<char>,
    pub end_point: Seq<char>,
}

impl View for HttpProfile {
    type V = HttpProfileView;

    open spec fn view(&self) -> HttpProfileView {
        HttpProfileView {
            req_method: self.req_method@,
            req_timeout: self.req_timeout as nat,
            scheme: self.scheme@,
            root_domain: self.root_domain@,
            end_point: self.end_point@,
        }
    }
}

/// Whether `method` names GET, in any mix of upper and lower case.
pub open spec fn is_get_method(method: Seq<char>) -> bool {
    same_ignoring_ascii_case(method, "GET"@)
}

/// Whether `method` names POST, in any mix of upper and lower case.
pub open spec fn is_post_method(method: Seq<char>) -> bool {
    same_ignoring_ascii_case(method, "POST"@)
}

/// The methods a profile may carry: GET and POST.
pub open spec fn is_known_method(method: Seq<char>) -> bool {
    is_get_method(method) || is_post_method(method)
}

/// The content type that goes with a method: form encoding for GET, JSON for
/// every method that sends a body.
pub open spec fn content_type_text(method: Seq<char>) -> Seq<char> {
    if is_get_method(method) {
        "application/x-www-form-urlencoded"@
    } else {
        "application/json"@
    }
}

/// No method is both GET and POST.
pub proof fn lemma_get_is_not_post(method: Seq<char>)
    ensures
        !(is_get_method(method) && is_post_method(method)),
{
    reveal_strlit("GET");
    reveal_strlit("POST");
}

/// Tells whether `method` names GET.
pub fn is_get(method: &str) -> (get: bool)
    ensures
        get == is_get_method(method@),
{
    eq_ignore_ascii_case(method, "GET")
}

/// Tells whether `method` names POST.
pub fn is_post(method: &str) -> (post: bool)
    ensures
        post == is_post_method(method@),
{
    eq_ignore_ascii_case(method, "POST")
}

/// The `Content-Type` header value for a method.
pub fn content_type(method: &str) -> (value: String)
    ensures
        value@ == content_type_text(method@),
{
    if is_get(method) {
        "application/x-www-form-urlencoded".to_owned()
    } else {
        "application/json".to_owned()
    }
}

impl HttpProfile {
    /// The model of the default profile.
    pub open spec fn default_view() -> HttpProfileView {
        HttpProfileView {
            req_method: "POST"@,
            req_timeout: 30,
            scheme: "HTTPS"@,
            root_domain: Seq::empty(),
            end_point: Seq::empty(),
        }
    }

    /// The invariant of a profile: its method is GET or POST.
    pub open spec fn well_formed(&self) -> bool {
        is_known_method(self.req_method@)
    }

    /// Checks the invariant.
    pub fn is_well_formed(&self) -> (ok: bool)
        ensures
            ok == self.well_formed(),
    {
        is_get(self.req_method.as_str()) || is_post(self.req_method.as_str())
    }
}

impl Default for HttpProfile {
    /// POST over HTTPS with a timeout of thirty seconds and no endpoint override.
    fn default() -> (profile: Self)
        ensures
            profile@ == HttpProfile::default_view(),
            profile.well_formed(),
    {
        let profile = HttpProfile {
            req_method: "POST".to_owned(),
            req_timeout: 30,
            scheme: "HTTPS".to_owned(),
            root_domain: String::new(),
            end_point: String::new(),
        };
        profile
    }
}

} // verus!
