//! The contract of the administrative HTTP API: its routes.
use vstd::prelude::*;
use crate::text::{starts_with, text_eq};

verus! {

/// A route of the administrative API.
#[derive(Debug, Clone, PartialEq, Eq, Hash)]
pub struct ApiRoute {
    pub method: Method,
    pub path: &'static str,
}

#[derive(Debug, Clone, Copy, PartialEq, Eq, Hash, Structural)]
pub enum Method {
    Get,
    Post,
    Put,
    Patch,
    Delete,
}

pub open spec fn route_model(r: ApiRoute) -> (Method, Seq<char>) {
    (r.method, r.path@)
}

impl ApiRoute {
    pub fn new(method: Method, path: &'static str) -> (r: ApiRoute)
        ensures
            r.method == method,
            r.path@ == path@,
    {
        ApiRoute { method, path }
    }
}

/// The routes of the administrative API, in order.
pub open spec fn admin_api_route_table() -> Seq<(Method, Seq<char>)> {
    seq![
        (Method::Get, "/api/health"@),
        (Method::Post, "/api/auth/login"@),
        (Method::Post, "/api/auth/change-password"@),
        (Method::Post, "/api/auth/logout"@),
        (Method::Get, "/api/components"@),
        (Method::Get, "/api/configuration"@),
        (Method::Patch, "/api/configuration"@),
        (Method::Post, "/api/configuration/apply"@),
        (Method::Post, "/api/configuration/reload"@),
        (Method::Get, "/api/users"@),
        (Method::Post, "/api/users"@),
        (Method::Get, "/api/applications"@),
        (Method::Post, "/api/applications"@),
        (Method::Get, "/api/waf/rules"@),
        (Method::Post, "/api/waf/rules"@),
        (Method::Get, "/api/rate-limits"@),
        (Method::Post, "/api/rate-limits"@),
        (Method::Get, "/api/dns/zones"@),
        (Method::Get, "/api/dns/records"@),
        (Method::Post, "/api/dns/records"@),
        (Method::Post, "/api/cloudflare/dns/plan"@),
        (Method::Post, "/api/cloudflare/dns/apply"@),
        (Method::Get, "/api/cloudflare/acme-cas"@),
        (Method::Get, "/api/certificates"@),
        (Method::Post, "/api/certificates"@),
        (Method::Get, "/api/crowdsec/decisions"@),
        (Method::Get, "/api/audit/events"@),
        (Method::Get, "/api/metrics"@),
        (Method::Post, "/api/caddy/apply"@),
    ]
}

/// The routes the administrative API exposes.
pub fn admin_api_routes() -> (r: Vec<ApiRoute>)
    ensures
        r@.map_values(|a: ApiRoute| route_model(a)) == admin_api_route_table(),
{
    let r = vec![
        ApiRoute::new(Method::Get, "/api/health"),
        ApiRoute::new(Method::Post, "/api/auth/login"),
        ApiRoute::new(Method::Post, "/api/auth/change-password"),
        ApiRoute::new(Method::Post, "/api/auth/logout"),
        ApiRoute::new(Method::Get, "/api/components"),
        ApiRoute::new(Method::Get, "/api/configuration"),
        ApiRoute::new(Method::Patch, "/api/configuration"),
        ApiRoute::new(Method::Post, "/api/configuration/apply"),
        ApiRoute::new(Method::Post, "/api/configuration/reload"),
        ApiRoute::new(Method::Get, "/api/users"),
        ApiRoute::new(Method::Post, "/api/users"),
        ApiRoute::new(Method::Get, "/api/applications"),
        ApiRoute::new(Method::Post, "/api/applications"),
        ApiRoute::new(Method::Get, "/api/waf/rules"),
        ApiRoute::new(Method::Post, "/api/waf/rules"),
        ApiRoute::new(Method::Get, "/api/rate-limits"),
        ApiRoute::new(Method::Post, "/api/rate-limits"),
        ApiRoute::new(Method::Get, "/api/dns/zones"),
        ApiRoute::new(Method::Get, "/api/dns/records"),
        ApiRoute::new(Method::Post, "/api/dns/records"),
        ApiRoute::new(Method::Post, "/api/cloudflare/dns/plan"),
        ApiRoute::new(Method::Post, "/api/cloudflare/dns/apply"),
        ApiRoute::new(Method::Get, "/api/cloudflare/acme-cas"),
        ApiRoute::new(Method::Get, "/api/certificates"),
        ApiRoute::new(Method::Post, "/api/certificates"),
        ApiRoute::new(Method::Get, "/api/crowdsec/decisions"),
        ApiRoute::new(Method::Get, "/api/audit/events"),
        ApiRoute::new(Method::Get, "/api/metrics"),
        ApiRoute::new(Method::Post, "/api/caddy/apply"),
    ];
    assert(r@.map_values(|a: ApiRoute| route_model(a)) =~= admin_api_route_table());
    r
}

/// Every route of the administrative API lives under `/api/`.
pub proof fn lemma_routes_under_api_prefix()
    ensures
        forall|i: int|
            0 <= i < admin_api_route_table().len() ==> starts_with(
                (#[trigger] admin_api_route_table()[i]).1,
                "/api/"@,
            ),
{
    reveal_strlit("/api/");
    reveal_strlit("/api/applications");
    reveal_strlit("/api/audit/events");
    reveal_strlit("/api/auth/change-password");
    reveal_strlit("/api/auth/login");
    reveal_strlit("/api/auth/logout");
    reveal_strlit("/api/caddy/apply");
    reveal_strlit("/api/certificates");
    reveal_strlit("/api/cloudflare/acme-cas");
    reveal_strlit("/api/cloudflare/dns/apply");
    reveal_strlit("/api/cloudflare/dns/plan");
    reveal_strlit("/api/components");
    reveal_strlit("/api/configuration");
    reveal_strlit("/api/configuration/apply");
    reveal_strlit("/api/configuration/reload");
    reveal_strlit("/api/crowdsec/decisions");
    reveal_strlit("/api/dns/records");
    reveal_strlit("/api/dns/zones");
    reveal_strlit("/api/health");
    reveal_strlit("/api/metrics");
    reveal_strlit("/api/rate-limits");
    reveal_strlit("/api/users");
    reveal_strlit("/api/waf/rules");
    assert forall|i: int| 0 <= i < admin_api_route_table().len() implies starts_with(
        (#[trigger] admin_api_route_table()[i]).1,
        "/api/"@,
    ) by {
        let p = admin_api_route_table()[i].1;
        assert(p.subrange(0, 5) =~= "/api/"@);
    }
}

/// What a request must carry to reach a route.
#[derive(Debug, Clone, Copy, PartialEq, Eq, Structural)]
pub enum RouteGuard {
    /// Open to anyone: the health check and the login itself.
    Public,
    /// A live session.
    Session,
    /// A live session and the CSRF token that matches it.
    SessionAndCsrf,
}

/// The routes open without a session: `GET /api/health` and
/// `POST /api/auth/login`.
pub open spec fn is_public_route(method: Method, path: Seq<char>) -> bool {
    (method == Method::Get && path == "/api/health"@) || (method == Method::Post && path
        == "/api/auth/login"@)
}

/// Reads need a session; every other request, which may change state and is
/// made with the session cookie, needs the CSRF token as well.
pub open spec fn route_guard_of(method: Method, path: Seq<char>) -> RouteGuard {
    if is_public_route(method, path) {
        RouteGuard::Public
    } else if method == Method::Get {
        RouteGuard::Session
    } else {
        RouteGuard::SessionAndCsrf
    }
}

/// The guard of the route `method path`.
pub fn route_guard(method: Method, path: &str) -> (r: RouteGuard)
    ensures
        r == route_guard_of(method, path@),
{
    let public = match method {
        Method::Get => text_eq(path, "/api/health"),
        Method::Post => text_eq(path, "/api/auth/login"),
        _ => false,
    };
    if public {
        RouteGuard::Public
    } else {
        match method {
            Method::Get => RouteGuard::Session,
            _ => RouteGuard::SessionAndCsrf,
        }
    }
}

/// Every request that may change state (any method but `GET`) needs a live
/// session and a matching CSRF token, the login alone excepted; only the
/// health check and the login are open without a session.
pub proof fn lemma_mutations_require_csrf(method: Method, path: Seq<char>)
    ensures
        method != Method::Get && !(method == Method::Post && path == "/api/auth/login"@)
            ==> route_guard_of(method, path) == RouteGuard::SessionAndCsrf,
        route_guard_of(method, path) == RouteGuard::Public <==> is_public_route(method, path),
        method == Method::Get && path != "/api/health"@ ==> route_guard_of(method, path)
            == RouteGuard::Session,
{
}

/// In the route table, every `POST`, `PUT`, `PATCH` and `DELETE` route but the
/// login needs the CSRF token, and every `GET` route but the health check
/// needs a session.
pub proof fn lemma_route_table_guards()
    ensures
        forall|i: int|
            0 <= i < admin_api_route_table().len() ==> {
                let (m, p) = #[trigger] admin_api_route_table()[i];
                &&& (m != Method::Get && p != "/api/auth/login"@) ==> route_guard_of(m, p)
                    == RouteGuard::SessionAndCsrf
                &&& (m == Method::Get && p != "/api/health"@) ==> route_guard_of(m, p)
                    == RouteGuard::Session
            },
{
}

} // verus!
