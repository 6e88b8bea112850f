//! Top-level routing of inbound paths, and the small meta endpoints'
//! decisions and renderings.

use vstd::prelude::*;

use crate::rules::Rule;
use crate::text::{dec_digits, str_eq, strip_prefix_str, u64_to_string};
use crate::token::JWTPrincipal;

verus! {

/// Which top-level route owns an inbound path.
pub enum TopRoute {
    /// The bare root: answered with a redirect to the project page.
    Root,
    /// A meta request, with the remainder after the meta prefix.
    Meta(String),
    /// A proxied request, with the remainder after the proxy prefix.
    Hypixel(String),
    /// No route owns the path.
    NotFound,
}

/// The mathematical shape of a `TopRoute`.
#[verifier::ext_equal]
pub enum TopRouteView {
    Root,
    Meta(Seq<char>),
    Hypixel(Seq<char>),
    NotFound,
}

impl View for TopRoute {
    type V = TopRouteView;

    open spec fn view(&self) -> TopRouteView {
        match self {
            TopRoute::Root => TopRouteView::Root,
            TopRoute::Meta(rest) => TopRouteView::Meta(rest@),
            TopRoute::Hypixel(rest) => TopRouteView::Hypixel(rest@),
            TopRoute::NotFound => TopRouteView::NotFound,
        }
    }
}

/// Which route owns a path: the bare root, the meta prefix, the proxy
/// prefix, or none, tried in that order.
pub open spec fn route_path_spec(path: Seq<char>) -> TopRouteView {
    if path == "/"@ {
        TopRouteView::Root
    } else if "/_meta/"@.is_prefix_of(path) {
        TopRouteView::Meta(path.skip("/_meta/"@.len() as int))
    } else if "/v1/hypixel/"@.is_prefix_of(path) {
        TopRouteView::Hypixel(path.skip("/v1/hypixel/"@.len() as int))
    } else {
        TopRouteView::NotFound
    }
}

/// Routes an inbound path, exactly as `route_path_spec` describes.
pub fn route_path(path: &str) -> (r: TopRoute)
    ensures
        r@ == route_path_spec(path@),
{
    if str_eq(path, "/") {
        return TopRoute::Root;
    }
    if let Some(rest) = strip_prefix_str(path, "/_meta/") {
        return TopRoute::Meta(rest);
    }
    if let Some(rest) = strip_prefix_str(path, "/v1/hypixel/") {
        return TopRoute::Hypixel(rest);
    }
    TopRoute::NotFound
}

/// The meta endpoints.  `Version` is public; the others require a login
/// first.
#[derive(PartialEq, Eq, Structural, Clone, Copy, Debug)]
pub enum MetaRoute {
    Version,
    Principal,
    Stats,
    Unknown,
}

/// Which meta endpoint a meta path names.
pub open spec fn meta_route_spec(meta_path: Seq<char>) -> MetaRoute {
    if meta_path == "version"@ {
        MetaRoute::Version
    } else if meta_path == "principal"@ {
        MetaRoute::Principal
    } else if meta_path == "stats"@ {
        MetaRoute::Stats
    } else {
        MetaRoute::Unknown
    }
}

/// Routes a meta path, exactly as `meta_route_spec` describes.
pub fn meta_route(meta_path: &str) -> (r: MetaRoute)
    ensures
        r == meta_route_spec(meta_path@),
{
    if str_eq(meta_path, "version") {
        MetaRoute::Version
    } else if str_eq(meta_path, "principal") {
        MetaRoute::Principal
    } else if str_eq(meta_path, "stats") {
        MetaRoute::Stats
    } else {
        MetaRoute::Unknown
    }
}

/// The version banner the meta version endpoint answers with.
pub fn debug_string() -> (r: String)
    ensures
        r@ == "ursa-minor https://github.com/NotEnoughUpdates/ursa-minor/"@,
{
    String::from_str("ursa-minor https://github.com/NotEnoughUpdates/ursa-minor/")
}

/// The rendering of a principal for the meta principal endpoint.
pub open spec fn principal_text_spec(
    id: Seq<char>,
    name: Seq<char>,
    valid_since: u64,
    valid_until: u64,
    superuser: bool,
) -> Seq<char> {
    "id: "@ + id + "\nname: "@ + name + "\nvalid_since: "@ + dec_digits(valid_since as nat)
        + "\nvalid_until: "@ + dec_digits(valid_until as nat) + "\nsuperuser: "@ + (
    if superuser {
        "true"@
    } else {
        "false"@
    })
}

/// Renders a principal as readable text, one field per line; the
/// process-wide secret takes no part in it.
pub fn principal_text(p: &JWTPrincipal) -> (r: String)
    ensures
        r@ == principal_text_spec(p@.id, p@.name, p@.valid_since, p@.valid_until, p@.superuser),
{
    let mut s = String::from_str("id: ");
    s.append(p.id.as_str());
    s.append("\nname: ");
    s.append(p.name.as_str());
    s.append("\nvalid_since: ");
    let since = u64_to_string(p.valid_since.0);
    s.append(since.as_str());
    s.append("\nvalid_until: ");
    let until = u64_to_string(p.valid_until.0);
    s.append(until.as_str());
    s.append("\nsuperuser: ");
    if p.superuser {
        s.append("true");
    } else {
        s.append("false");
    }
    s
}

/// The store keys of every rule's accumulated counter, in rule order;
/// the meta stats endpoint reads them in one round trip.
pub fn statistics_keys(rules: &Vec<Rule>) -> (ks: Vec<String>)
    ensures
        ks@.len() == rules@.len(),
        forall|i: int|
            0 <= i < rules@.len() ==> #[trigger] ks@[i]@ == "hypixel:accumulated:"@
                + rules@[i]@.http_path,
{
    let mut ks: Vec<String> = Vec::new();
    let mut i: usize = 0;
    while i < rules.len()
        invariant
            i <= rules@.len(),
            ks@.len() == i,
            forall|j: int|
                0 <= j < i ==> #[trigger] ks@[j]@ == "hypixel:accumulated:"@
                    + rules@[j]@.http_path,
        decreases rules@.len() - i,
    {
        ks.push(rules[i].accumulated_statistics_key());
        i += 1;
    }
    ks
}

} // verus!
