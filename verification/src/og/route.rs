//! Which route a path belongs to.

use vstd::prelude::*;

use super::RouteConfig;
use crate::text;

verus! {

/// The pieces of a path or of a pattern: what stands between the slashes,
/// without those at the two ends.
pub open spec fn pieces(path: Seq<char>) -> Seq<Seq<char>> {
    text::split(text::trim(path, '/'), '/')
}

/// Whether a piece of a pattern stands for whatever is in its place.
pub open spec fn is_param(piece: Seq<char>) -> bool {
    ":"@.is_prefix_of(piece)
}

/// Whether the pieces of a path are those of a pattern, its parameters aside.
pub open spec fn fits(pattern: Seq<Seq<char>>, path: Seq<Seq<char>>) -> bool {
    &&& pattern.len() == path.len()
    &&& forall|i: int|
        0 <= i < pattern.len() ==> is_param(#[trigger] pattern[i]) || pattern[i] == path[i]
}

/// What stands in the place of each parameter of a pattern, among the first `n`
/// pieces.
pub open spec fn params_of(pattern: Seq<Seq<char>>, path: Seq<Seq<char>>, n: int) -> Seq<Seq<char>>
    decreases n,
{
    if n <= 0 {
        Seq::empty()
    } else if is_param(pattern[n - 1]) {
        params_of(pattern, path, n - 1).push(path[n - 1])
    } else {
        params_of(pattern, path, n - 1)
    }
}

/// Whether a path belongs to a route.
pub open spec fn belongs(path: Seq<char>, route: RouteConfig) -> bool {
    fits(pieces(route.pattern@), pieces(path))
}

/// The parameters of a path that belongs to a route.
pub open spec fn route_params(path: Seq<char>, route: RouteConfig) -> Seq<Seq<char>> {
    params_of(pieces(route.pattern@), pieces(path), pieces(path).len() as int)
}

/// Where the first route stands that a path belongs to, from `from` on; the
/// number of routes where there is none.
pub open spec fn first_route(path: Seq<char>, routes: Seq<RouteConfig>, from: int) -> int
    decreases routes.len() - from,
{
    if from >= routes.len() {
        routes.len() as int
    } else if belongs(path, routes[from]) {
        from
    } else {
        first_route(path, routes, from + 1)
    }
}

/// Whether a path belongs to any of the routes.
pub open spec fn is_routed(path: Seq<char>, routes: Seq<RouteConfig>) -> bool {
    first_route(path, routes, 0) < routes.len()
}

/// The first route that a path belongs to is one of the routes, and the path
/// belongs to none before it.
pub proof fn first_route_is_first(path: Seq<char>, routes: Seq<RouteConfig>, from: int)
    requires
        0 <= from <= routes.len(),
    ensures
        from <= first_route(path, routes, from) <= routes.len(),
        first_route(path, routes, from) < routes.len() ==> belongs(
            path,
            routes[first_route(path, routes, from)],
        ),
        forall|i: int|
            from <= i < first_route(path, routes, from) ==> !belongs(path, #[trigger] routes[i]),
    decreases routes.len() - from,
{
    if from < routes.len() && !belongs(path, routes[from]) {
        first_route_is_first(path, routes, from + 1);
    }
}

/// The route of a path depends on its pieces alone.
proof fn route_of_pieces(
    path: Seq<char>,
    other: Seq<char>,
    routes: Seq<RouteConfig>,
    from: int,
)
    requires
        pieces(path) == pieces(other),
    ensures
        first_route(path, routes, from) == first_route(other, routes, from),
    decreases routes.len() - from,
{
    if from < routes.len() {
        route_of_pieces(path, other, routes, from + 1);
    }
}

/// Slashes at the ends of a path change neither its route nor its parameters.
pub proof fn slashes_at_the_ends(
    path: Seq<char>,
    routes: Seq<RouteConfig>,
    before: nat,
    after: nat,
)
    ensures
        ({
            let other = text::repeated('/', before) + path + text::repeated('/', after);
            &&& pieces(other) == pieces(path)
            &&& is_routed(other, routes) == is_routed(path, routes)
            &&& first_route(other, routes, 0) == first_route(path, routes, 0)
            &&& forall|route: RouteConfig|
                #[trigger] route_params(other, route) == route_params(path, route)
        }),
{
    let other = text::repeated('/', before) + path + text::repeated('/', after);
    text::trim_ends(path, '/', before, after);
    route_of_pieces(other, path, routes, 0);
}

/// Every parameter is a piece of the path.
pub proof fn params_are_pieces(pattern: Seq<Seq<char>>, path: Seq<Seq<char>>, n: int, k: int)
    requires
        0 <= n <= pattern.len(),
        pattern.len() == path.len(),
        0 <= k < params_of(pattern, path, n).len(),
    ensures
        path.contains(params_of(pattern, path, n)[k]),
    decreases n,
{
    if is_param(pattern[n - 1]) && k == params_of(pattern, path, n).len() - 1 {
        assert(path[n - 1] == params_of(pattern, path, n)[k]);
    } else {
        params_are_pieces(pattern, path, n - 1, k);
    }
}

/// A route that a path belongs to.
pub struct MatchedRoute<'a> {
    pub config: &'a RouteConfig,
    pub params: Vec<String>,
}

/// The pieces of a path or of a pattern.
fn pieces_of(path: &str) -> (r: Vec<String>)
    ensures
        text::texts(r@) == pieces(path@),
        r@.len() > 0,
{
    let trimmed = text::trim_char(path, '/');
    text::split_on(trimmed.as_str(), '/')
}

/// The parameters of a path where its pieces fit the pattern.
fn fit(pattern: &Vec<String>, path: &Vec<String>) -> (r: Option<Vec<String>>)
    ensures
        ({
            let p = text::texts(pattern@);
            let a = text::texts(path@);
            match r {
                Some(params) => fits(p, a) && text::texts(params@) == params_of(
                    p,
                    a,
                    a.len() as int,
                ),
                None => !fits(p, a),
            }
        }),
{
    if pattern.len() != path.len() {
        return None;
    }
    let ghost p = text::texts(pattern@);
    let ghost a = text::texts(path@);
    let mut params: Vec<String> = Vec::new();
    let mut i: usize = 0;
    assert(text::texts(params@) =~= params_of(p, a, 0));
    while i < pattern.len()
        invariant
            i <= pattern@.len() == path@.len(),
            p == text::texts(pattern@),
            a == text::texts(path@),
            text::texts(params@) == params_of(p, a, i as int),
            forall|k: int| 0 <= k < i ==> is_param(#[trigger] p[k]) || p[k] == a[k],
        decreases pattern@.len() - i,
    {
        let ghost front = params@;
        if text::starts_with(pattern[i].as_str(), ":") {
            params.push(path[i].clone());
            assert(text::texts(params@) =~= text::texts(front).push(a[i as int]));
        } else if !text::same(pattern[i].as_str(), path[i].as_str()) {
            assert(!(is_param(p[i as int]) || p[i as int] == a[i as int]));
            return None;
        }
        i += 1;
    }
    Some(params)
}

/// The first route that `path` belongs to, with its parameters.
pub fn match_route<'a>(path: &str, routes: &'a Vec<RouteConfig>) -> (r: Option<MatchedRoute<'a>>)
    ensures
        r is Some <==> is_routed(path@, routes@),
        r matches Some(matched) ==> {
            &&& *matched.config == routes@[first_route(path@, routes@, 0)]
            &&& text::texts(matched.params@) == route_params(path@, *matched.config)
        },
{
    let path_parts = pieces_of(path);
    let mut i: usize = 0;
    while i < routes.len()
        invariant
            i <= routes@.len(),
            text::texts(path_parts@) == pieces(path@),
            first_route(path@, routes@, 0) == first_route(path@, routes@, i as int),
        decreases routes@.len() - i,
    {
        let pattern_parts = pieces_of(routes[i].pattern.as_str());
        match fit(&pattern_parts, &path_parts) {
            Some(params) => {
                return Some(MatchedRoute { config: &routes[i], params });
            },
            None => {},
        }
        i += 1;
    }
    None
}

} // verus!
