//! The one place the library builds URLs: through the `url` crate, which
//! owns parsing and query percent-encoding.

use vstd::prelude::*;

verus! {

/// What the `url` crate makes of `base` with `params` appended as
/// URL-encoded query parameters, in order; `None` when it refuses the
/// base.  The result depends on the arguments alone.
pub uninterp spec fn url_with_params_of(
    base: Seq<char>,
    params: Seq<(Seq<char>, Seq<char>)>,
) -> Option<Seq<char>>;

/// The view of an executable parameter list.
pub open spec fn params_view(params: Seq<(String, String)>) -> Seq<(Seq<char>, Seq<char>)> {
    params.map_values(|p: (String, String)| (p.0@, p.1@))
}

/// Relies on `url::Url::parse_with_params`: parses `base`, appends each
/// pair as a URL-encoded query parameter in order, and serializes the
/// result; it fails exactly when the base does not parse as a URL.
#[verifier::external_body]
pub fn url_with_params(base: &str, params: &Vec<(String, String)>) -> (r: Option<String>)
    ensures
        match r {
            Some(u) => url_with_params_of(base@, params_view(params@)) == Some(u@),
            None => url_with_params_of(base@, params_view(params@)) is None,
        },
{
    url::Url::parse_with_params(base, params.as_slice()).ok().map(|u| String::from(u))
}

} // verus!
