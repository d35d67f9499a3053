//! The route table of the service and the answer to each request.

use vstd::prelude::*;
use crate::http::{Method, Response, METHOD_NOT_ALLOWED, NOT_FOUND, OK};

verus! {

/// The path of the liveness endpoint.
pub const HEALTH_CHECK_PATH: &'static str = "/health_check";

/// One entry of the route table: requests with this method for this path are
/// served.
#[derive(Clone, Copy, Debug)]
pub struct Route {
    pub method: Method,
    pub path: &'static str,
}

/// A pattern that stands for one path only, itself: it opens no `{..}`
/// segment and does not end in `*`.
spec fn is_literal_pattern(pattern: Seq<char>) -> bool {
    &&& forall|i: int| 0 <= i < pattern.len() ==> pattern[i] != '{'
    &&& pattern.len() > 0 ==> pattern.last() != '*'
}

proof fn lemma_health_check_path_is_literal()
    ensures
        is_literal_pattern(HEALTH_CHECK_PATH@),
{
    reveal_strlit("/health_check");
}

/// Matches `path` against `pattern` with `ResourceDef::new(pattern).is_match(path)`
/// of actix-web's router. A pattern without `{` that does not end in `*` is
/// compiled to a static resource, and a static resource that is no prefix
/// matches a path exactly when the path is the pattern, character for
/// character. The contract claims that, and nothing of other patterns.
#[verifier::external_body]
fn path_matches(pattern: &str, path: &str) -> (matched: bool)
    requires
        is_literal_pattern(pattern@),
    ensures
        matched == (path@ == pattern@),
{
    actix_web::dev::ResourceDef::new(pattern).is_match(path)
}

/// The only route: `GET` on the liveness endpoint.
pub fn health_check_route() -> (route: Route)
    ensures
        route.method == Method::Get,
        route.path@ == HEALTH_CHECK_PATH@,
{
    Route { method: Method::Get, path: HEALTH_CHECK_PATH }
}

/// The route table. It holds one route.
pub fn routes() -> (table: Vec<Route>)
    ensures
        table@.len() == 1,
        table@[0].method == Method::Get,
        table@[0].path@ == HEALTH_CHECK_PATH@,
{
    let mut table: Vec<Route> = Vec::new();
    table.push(health_check_route());
    table
}

/// The handler of the liveness endpoint. It reads nothing of the request and
/// always answers with success and an empty body.
pub fn health_check() -> (response: Response)
    ensures
        response.status == OK,
        response.body@ == Seq::<u8>::empty(),
{
    Response::empty(OK)
}

/// Answers a request. Only its method and its path count, the path as the
/// router reads it, without the query string: headers, query string and body
/// are no input, so no two requests can differ by them.
///
/// `GET` on the liveness endpoint is served by `health_check`. Any other
/// method on that path is answered with 405, any other path with 404, and no
/// answer has a body.
pub fn respond(method: Method, path: &str) -> (response: Response)
    ensures
        path@ == HEALTH_CHECK_PATH@ && method == Method::Get ==> response.status == OK,
        path@ == HEALTH_CHECK_PATH@ && method != Method::Get ==> response.status
            == METHOD_NOT_ALLOWED,
        path@ != HEALTH_CHECK_PATH@ ==> response.status == NOT_FOUND,
        response.body@ == Seq::<u8>::empty(),
{
    let route = health_check_route();
    proof {
        lemma_health_check_path_is_literal();
    }
    if !path_matches(route.path, path) {
        Response::empty(NOT_FOUND)
    } else if method == route.method {
        health_check()
    } else {
        Response::empty(METHOD_NOT_ALLOWED)
    }
}

} // verus!
