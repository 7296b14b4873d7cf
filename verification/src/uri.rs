//! The one place this layer touches a URL parser: endpoints are split into
//! scheme and host by http's `Uri`.

use vstd::prelude::*;

verus! {

/// Whether the endpoint string parses as a URI. Stands for the success of
/// http's `Uri` parser, which depends on the string alone.
pub uninterp spec fn uri_ok(s: Seq<char>) -> bool;

/// The scheme of the parsed endpoint, when the URI carries one. Stands for
/// http's `Uri::scheme_str` on the parsed string.
pub uninterp spec fn uri_scheme_of(s: Seq<char>) -> Option<Seq<char>>;

/// The host of the parsed endpoint, empty when the URI has none. Stands
/// for http's `Uri::host` on the parsed string.
pub uninterp spec fn uri_host_of(s: Seq<char>) -> Seq<char>;

/// The scheme and host of a parsed endpoint.
pub struct EndpointParts {
    /// The scheme, when the endpoint named one.
    pub scheme: Option<String>,
    /// The host, empty when the endpoint had none.
    pub host: String,
}

/// Relies on http's `Uri` parser: an endpoint splits into its scheme and
/// its host exactly when it parses as a URI; parsing is a function of the
/// string alone. The host is empty for URIs without one (a bare path).
#[verifier::external_body]
pub(crate) fn split_endpoint(s: &str) -> (r: Option<EndpointParts>)
    ensures
        r is Some <==> uri_ok(s@),
        r matches Some(p) ==> {
            &&& p.scheme.deep_view() == uri_scheme_of(s@)
            &&& p.host@ == uri_host_of(s@)
        },
{
    match s.parse::<http::Uri>() {
        Ok(u) => Some(EndpointParts {
            scheme: u.scheme_str().map(|x| x.to_string()),
            host: u.host().unwrap_or("").to_string(),
        }),
        Err(_) => None,
    }
}

} // verus!
