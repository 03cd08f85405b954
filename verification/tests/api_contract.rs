use baia_core::api::{admin_api_routes, route_guard, ApiRoute, Method, RouteGuard};

#[test]
fn api_contract_exposes_expected_initial_resources() {
    let routes = admin_api_routes();

    assert!(routes.contains(&ApiRoute::new(Method::Get, "/api/health")));
    assert!(routes.contains(&ApiRoute::new(Method::Post, "/api/auth/login")));
    assert!(routes.contains(&ApiRoute::new(Method::Get, "/api/applications")));
    assert!(routes.contains(&ApiRoute::new(Method::Post, "/api/waf/rules")));
    assert!(routes.contains(&ApiRoute::new(Method::Get, "/api/audit/events")));
    assert!(routes.contains(&ApiRoute::new(Method::Post, "/api/caddy/apply")));
}

#[test]
fn every_admin_route_is_under_api_and_listed_once() {
    let routes = admin_api_routes();

    assert_eq!(routes.len(), 29);
    assert!(routes.iter().all(|route| route.path.starts_with("/api/")));
    for (i, a) in routes.iter().enumerate() {
        for b in routes.iter().skip(i + 1) {
            assert_ne!(a, b);
        }
    }
    assert_eq!(routes[0], ApiRoute::new(Method::Get, "/api/health"));
    assert_eq!(routes[6], ApiRoute::new(Method::Patch, "/api/configuration"));
}

#[test]
fn every_mutation_but_login_needs_the_csrf_token() {
    assert_eq!(route_guard(Method::Get, "/api/health"), RouteGuard::Public);
    assert_eq!(route_guard(Method::Post, "/api/auth/login"), RouteGuard::Public);
    assert_eq!(route_guard(Method::Get, "/api/components"), RouteGuard::Session);
    assert_eq!(route_guard(Method::Get, "/api/auth/session"), RouteGuard::Session);
    assert_eq!(route_guard(Method::Post, "/api/cloudflare/dns/plan"), RouteGuard::SessionAndCsrf);
    assert_eq!(route_guard(Method::Patch, "/api/configuration"), RouteGuard::SessionAndCsrf);
    assert_eq!(route_guard(Method::Post, "/api/health"), RouteGuard::SessionAndCsrf);
    assert_eq!(route_guard(Method::Get, "/api/auth/login"), RouteGuard::Session);
    for route in admin_api_routes() {
        let guard = route_guard(route.method, route.path);
        if route.path == "/api/health" || route.path == "/api/auth/login" {
            assert_eq!(guard, RouteGuard::Public);
        } else if route.method == Method::Get {
            assert_eq!(guard, RouteGuard::Session);
        } else {
            assert_eq!(guard, RouteGuard::SessionAndCsrf);
        }
    }
}
