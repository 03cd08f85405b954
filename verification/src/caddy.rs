//! Generation of the reverse-proxy (Caddy) JSON configuration from the
//! protected applications, their routes, upstreams and security rules.
use vstd::prelude::*;
use crate::json::{
    array, array1, array2, items_of, json_of, json_text, object1, object2, object3, push_item,
    text_array1, Json, JsonValue, element, field_value, length, member, lemma_field_value_at,
    lemma_members1, lemma_members2, lemma_members3, lemma_members4, lemma_field_value_absent,
};
use crate::rules::{action_name, RuleAction, SecurityRule};
use crate::text::{concat, is_blank, is_blank_str};

verus! {

/// A protected application: the hostname it answers on, its proxied routes
/// and its security rules.
#[derive(Debug, Clone, PartialEq, Eq)]
pub struct Application {
    pub hostname: String,
    pub routes: Vec<Route>,
    pub rules: Vec<SecurityRule>,
}

/// A path prefix of an application and the upstreams that serve it.
#[derive(Debug, Clone, PartialEq, Eq)]
pub struct Route {
    pub path_prefix: String,
    pub upstreams: Vec<Upstream>,
    pub balancing: LoadBalancingPolicy,
}

#[derive(Debug, Clone, PartialEq, Eq)]
pub struct Upstream {
    pub dial: String,
    pub weight: u32,
}

#[derive(Debug, Clone, Copy, PartialEq, Eq, Structural)]
pub enum LoadBalancingPolicy {
    RoundRobin,
    LeastConn,
    Random,
}

#[derive(Debug, Clone, Copy, PartialEq, Eq, Structural)]
pub enum CaddyConfigError {
    ApplicationWithoutHostname,
    RouteWithoutUpstream,
    UpstreamWithoutDial,
}

/// The generated configuration document.
#[derive(Debug)]
pub struct CaddyConfig(pub JsonValue);

// ----- Model of the generated document -----

pub open spec fn policy_name(p: LoadBalancingPolicy) -> Seq<char> {
    match p {
        LoadBalancingPolicy::RoundRobin => "round_robin"@,
        LoadBalancingPolicy::LeastConn => "least_conn"@,
        LoadBalancingPolicy::Random => "random"@,
    }
}

pub open spec fn text_list(items: Seq<Seq<char>>) -> Json {
    Json::Array(items.map_values(|s: Seq<char>| Json::Str(s)))
}

/// `[{"host": [host], "path": [path]}]`
pub open spec fn host_path_match(host: Seq<char>, path: Seq<char>) -> Json {
    Json::Array(
        seq![
            Json::Object(
                seq![
                    ("host"@, Json::Array(seq![Json::Str(host)])),
                    ("path"@, Json::Array(seq![Json::Str(path)])),
                ],
            ),
        ],
    )
}

pub open spec fn security_headers_json() -> Json {
    Json::Object(
        seq![
            ("handler"@, Json::Str("headers"@)),
            (
                "response"@,
                Json::Object(
                    seq![
                        (
                            "set"@,
                            Json::Object(
                                seq![
                                    ("X-Content-Type-Options"@, Json::Array(seq![Json::Str("nosniff"@)])),
                                    ("X-Frame-Options"@, Json::Array(seq![Json::Str("DENY"@)])),
                                    (
                                        "Referrer-Policy"@,
                                        Json::Array(seq![Json::Str("strict-origin-when-cross-origin"@)]),
                                    ),
                                ],
                            ),
                        ),
                    ],
                ),
            ),
        ],
    )
}

/// A handler that sets the `X-Baia-WAF` response header to `value`.
pub open spec fn waf_header_json(value: Seq<char>) -> Json {
    Json::Object(
        seq![
            ("handler"@, Json::Str("headers"@)),
            (
                "response"@,
                Json::Object(
                    seq![
                        (
                            "set"@,
                            Json::Object(seq![("X-Baia-WAF"@, Json::Array(seq![Json::Str(value)]))]),
                        ),
                    ],
                ),
            ),
        ],
    )
}

/// A handler that answers with `status` and `body`.
pub open spec fn static_response_json(status: nat, body: Seq<char>) -> Json {
    Json::Object(
        seq![
            ("handler"@, Json::Str("static_response"@)),
            ("status_code"@, Json::Number(status)),
            ("body"@, Json::Str(body)),
        ],
    )
}

pub open spec fn rule_handler_json(action: RuleAction) -> Json {
    match action {
        RuleAction::Allow => waf_header_json("allow"@),
        RuleAction::Block => static_response_json(403, "Request blocked by Baia WAF"@),
        RuleAction::Challenge | RuleAction::Captcha => static_response_json(
            403,
            "Challenge required"@,
        ),
        RuleAction::RateLimit => static_response_json(429, "Rate limit exceeded"@),
        RuleAction::Redirect => Json::Object(
            seq![
                ("handler"@, Json::Str("static_response"@)),
                ("status_code"@, Json::Number(302)),
            ],
        ),
        _ => waf_header_json(action_name(action)),
    }
}

/// The path a rule matches: its prefix followed by `*`, or every path.
pub open spec fn rule_path(rule: SecurityRule) -> Seq<char> {
    match rule.path_prefix {
        Some(p) => p@ + "*"@,
        None => "/*"@,
    }
}

pub open spec fn rule_route_json(host: Seq<char>, rule: SecurityRule) -> Json {
    Json::Object(
        seq![
            ("match"@, host_path_match(host, rule_path(rule))),
            ("handle"@, Json::Array(seq![rule_handler_json(rule.action)])),
            (
                "metadata"@,
                Json::Object(
                    seq![
                        ("baia_rule"@, Json::Str(rule.name@)),
                        ("priority"@, Json::Number(rule.priority as nat)),
                    ],
                ),
            ),
        ],
    )
}

pub open spec fn upstream_json(u: Upstream) -> Json {
    Json::Object(seq![("dial"@, Json::Str(u.dial@)), ("weight"@, Json::Number(u.weight as nat))])
}

pub open spec fn proxy_route_json(host: Seq<char>, route: Route) -> Json {
    Json::Object(
        seq![
            ("match"@, host_path_match(host, route.path_prefix@ + "*"@)),
            (
                "handle"@,
                Json::Array(
                    seq![
                        security_headers_json(),
                        Json::Object(
                            seq![
                                ("handler"@, Json::Str("reverse_proxy"@)),
                                (
                                    "load_balancing"@,
                                    Json::Object(
                                        seq![
                                            (
                                                "selection_policy"@,
                                                Json::Object(
                                                    seq![("policy"@, Json::Str(policy_name(route.balancing)))],
                                                ),
                                            ),
                                        ],
                                    ),
                                ),
                                (
                                    "upstreams"@,
                                    Json::Array(route.upstreams@.map_values(|u: Upstream| upstream_json(u))),
                                ),
                            ],
                        ),
                    ],
                ),
            ),
        ],
    )
}

/// Index of the first entry of `order` whose rule has a priority above `p`,
/// or the length of `order`.
pub open spec fn first_above(rules: Seq<SecurityRule>, order: Seq<usize>, p: u32) -> nat
    decreases order.len(),
{
    if order.len() == 0 {
        0
    } else if rules[order[0] as int].priority > p {
        0
    } else {
        1 + first_above(rules, order.drop_first(), p)
    }
}

/// The first `n` rules in order of priority; rules of equal priority keep
/// their given order (a stable sort by priority).
pub open spec fn priority_order_upto(rules: Seq<SecurityRule>, n: nat) -> Seq<usize>
    decreases n,
{
    if n == 0 {
        seq![]
    } else {
        let o = priority_order_upto(rules, (n - 1) as nat);
        o.insert(first_above(rules, o, rules[n - 1].priority) as int, (n - 1) as usize)
    }
}

/// All rules in order of priority, ties in their given order.
pub open spec fn priority_order(rules: Seq<SecurityRule>) -> Seq<usize> {
    priority_order_upto(rules, rules.len())
}

pub open spec fn rule_routes_json(host: Seq<char>, rules: Seq<SecurityRule>) -> Seq<Json> {
    priority_order(rules).map_values(|i: usize| rule_route_json(host, rules[i as int]))
}

/// The HTTPS routes of one application: its rules by priority, then its
/// proxied routes.
pub open spec fn application_routes_json(app: Application) -> Seq<Json> {
    rule_routes_json(app.hostname@, app.rules@) + app.routes@.map_values(
        |r: Route| proxy_route_json(app.hostname@, r),
    )
}

pub open spec fn https_routes_json(apps: Seq<Application>) -> Seq<Json>
    decreases apps.len(),
{
    if apps.len() == 0 {
        seq![]
    } else {
        https_routes_json(apps.drop_last()) + application_routes_json(apps.last())
    }
}

pub open spec fn hostnames(apps: Seq<Application>) -> Seq<Seq<char>> {
    apps.map_values(|a: Application| a.hostname@)
}

/// The page served to requests that reach the origin without a registered
/// hostname.
pub const DIRECT_ORIGIN_BLOCK_PAGE: &'static str = r#"<!doctype html><html lang="en"><head><meta charset="utf-8"><meta name="viewport" content="width=device-width,initial-scale=1"><title>Direct origin access is not allowed</title><style>body{margin:0;font-family:system-ui,-apple-system,BlinkMacSystemFont,Segoe UI,sans-serif;background:#f6f7f9;color:#17202a;display:grid;min-height:100vh;place-items:center}.panel{max-width:720px;padding:40px;border-top:4px solid #d33;background:#fff;box-shadow:0 16px 48px rgba(15,23,42,.12)}h1{font-size:28px;margin:0 0 12px}p{font-size:16px;line-height:1.55;margin:0 0 10px}.code{font-size:13px;color:#5b6673;text-transform:uppercase;letter-spacing:.08em}</style></head><body><main class="panel"><div class="code">Baia WAF 403</div><h1>Direct origin access is not allowed</h1><p>This hostname is not registered in Baia WAF or the request reached the origin directly by IP.</p><p>Register the domain in Baia WAF and access it through its configured hostname.</p></main></body></html>"#;

pub open spec fn redirect_route_json(hosts: Seq<Seq<char>>) -> Json {
    Json::Object(
        seq![
            ("match"@, Json::Array(seq![Json::Object(seq![("host"@, text_list(hosts))])])),
            (
                "handle"@,
                Json::Array(
                    seq![
                        Json::Object(
                            seq![
                                ("handler"@, Json::Str("static_response"@)),
                                ("status_code"@, Json::Number(308)),
                                (
                                    "headers"@,
                                    Json::Object(
                                        seq![
                                            (
                                                "Location"@,
                                                Json::Array(
                                                    seq![Json::Str("https://{http.request.host}{http.request.uri}"@)],
                                                ),
                                            ),
                                        ],
                                    ),
                                ),
                            ],
                        ),
                    ],
                ),
            ),
        ],
    )
}

pub open spec fn block_route_json() -> Json {
    Json::Object(
        seq![
            (
                "handle"@,
                Json::Array(
                    seq![
                        Json::Object(
                            seq![
                                ("handler"@, Json::Str("static_response"@)),
                                ("status_code"@, Json::Number(403)),
                                (
                                    "headers"@,
                                    Json::Object(
                                        seq![
                                            (
                                                "Content-Type"@,
                                                Json::Array(seq![Json::Str("text/html; charset=utf-8"@)]),
                                            ),
                                        ],
                                    ),
                                ),
                                ("body"@, Json::Str(DIRECT_ORIGIN_BLOCK_PAGE@)),
                            ],
                        ),
                    ],
                ),
            ),
        ],
    )
}

/// Plain-HTTP routes: registered hostnames are redirected to HTTPS, every
/// other request gets the direct-origin block page.
pub open spec fn http_routes_json(hosts: Seq<Seq<char>>) -> Seq<Json> {
    if hosts.len() > 0 {
        seq![redirect_route_json(hosts), block_route_json()]
    } else {
        seq![block_route_json()]
    }
}

pub open spec fn server_json(listen: Seq<char>, routes: Seq<Json>) -> Json {
    Json::Object(
        seq![("listen"@, Json::Array(seq![Json::Str(listen)])), ("routes"@, Json::Array(routes))],
    )
}

/// The whole document for the given applications.
pub open spec fn caddy_config_json(apps: Seq<Application>) -> Json {
    Json::Object(
        seq![
            (
                "apps"@,
                Json::Object(
                    seq![
                        (
                            "http"@,
                            Json::Object(
                                seq![
                                    (
                                        "servers"@,
                                        Json::Object(
                                            seq![
                                                ("baia"@, server_json(":443"@, https_routes_json(apps))),
                                                (
                                                    "baia_http"@,
                                                    server_json(":80"@, http_routes_json(hostnames(apps))),
                                                ),
                                            ],
                                        ),
                                    ),
                                ],
                            ),
                        ),
                    ],
                ),
            ),
        ],
    )
}

// ----- Model of the rejected inputs -----

pub open spec fn upstream_lacks_dial(u: Upstream) -> bool {
    is_blank(u.dial@)
}

pub open spec fn route_error(route: Route) -> Option<CaddyConfigError> {
    if route.upstreams@.len() == 0 {
        Some(CaddyConfigError::RouteWithoutUpstream)
    } else if exists|i: int|
        0 <= i < route.upstreams@.len() && upstream_lacks_dial(#[trigger] route.upstreams@[i]) {
        Some(CaddyConfigError::UpstreamWithoutDial)
    } else {
        None
    }
}

/// The error of the first faulty route, in order.
pub open spec fn routes_error(routes: Seq<Route>) -> Option<CaddyConfigError>
    decreases routes.len(),
{
    if routes.len() == 0 {
        None
    } else {
        match routes_error(routes.drop_last()) {
            Some(e) => Some(e),
            None => route_error(routes.last()),
        }
    }
}

pub open spec fn application_error(app: Application) -> Option<CaddyConfigError> {
    if is_blank(app.hostname@) {
        Some(CaddyConfigError::ApplicationWithoutHostname)
    } else {
        routes_error(app.routes@)
    }
}

/// The error of the first faulty application, in order.
pub open spec fn applications_error(apps: Seq<Application>) -> Option<CaddyConfigError>
    decreases apps.len(),
{
    if apps.len() == 0 {
        None
    } else {
        match applications_error(apps.drop_last()) {
            Some(e) => Some(e),
            None => application_error(apps.last()),
        }
    }
}


// ----- Generation -----

impl LoadBalancingPolicy {
    /// The selection policy name the proxy uses for this policy.
    pub fn as_caddy_policy(&self) -> (r: &'static str)
        ensures
            r@ == policy_name(*self),
    {
        match self {
            LoadBalancingPolicy::RoundRobin => "round_robin",
            LoadBalancingPolicy::LeastConn => "least_conn",
            LoadBalancingPolicy::Random => "random",
        }
    }
}

/// The page served to requests that reach the origin without a registered
/// hostname.
pub fn direct_origin_block_page() -> (r: &'static str)
    ensures
        r@ == DIRECT_ORIGIN_BLOCK_PAGE@,
{
    DIRECT_ORIGIN_BLOCK_PAGE
}

/// The handler that adds the hardening response headers.
pub fn security_headers_handler() -> (r: JsonValue)
    ensures
        json_of(r) == security_headers_json(),
{
    object2(
        "handler",
        json_text("headers"),
        "response",
        object1(
            "set",
            object3(
                "X-Content-Type-Options",
                text_array1("nosniff"),
                "X-Frame-Options",
                text_array1("DENY"),
                "Referrer-Policy",
                text_array1("strict-origin-when-cross-origin"),
            ),
        ),
    )
}

fn host_path(host: &str, path: &str) -> (r: JsonValue)
    ensures
        json_of(r) == host_path_match(host@, path@),
{
    array1(object2("host", text_array1(host), "path", text_array1(path)))
}

fn waf_header(value: &str) -> (r: JsonValue)
    ensures
        json_of(r) == waf_header_json(value@),
{
    object2(
        "handler",
        json_text("headers"),
        "response",
        object1("set", object1("X-Baia-WAF", text_array1(value))),
    )
}

fn static_response(status: u64, body: &str) -> (r: JsonValue)
    ensures
        json_of(r) == static_response_json(status as nat, body@),
{
    object3(
        "handler",
        json_text("static_response"),
        "status_code",
        JsonValue::Number(status),
        "body",
        json_text(body),
    )
}

/// The handler that enforces a rule's action.
pub fn rule_handler(rule: &SecurityRule) -> (r: JsonValue)
    ensures
        json_of(r) == rule_handler_json(rule.action),
{
    match rule.action {
        RuleAction::Allow => waf_header("allow"),
        RuleAction::Block => static_response(403, "Request blocked by Baia WAF"),
        RuleAction::Challenge | RuleAction::Captcha => static_response(403, "Challenge required"),
        RuleAction::RateLimit => static_response(429, "Rate limit exceeded"),
        RuleAction::Redirect => object2(
            "handler",
            json_text("static_response"),
            "status_code",
            JsonValue::Number(302),
        ),
        RuleAction::AddHeader | RuleAction::RemoveHeader | RuleAction::Log | RuleAction::ApplyRule => {
            waf_header(rule.action.name())
        },
    }
}

/// The route that applies a rule to the paths it covers on `hostname`.
pub fn rule_route(hostname: &str, rule: &SecurityRule) -> (r: JsonValue)
    ensures
        json_of(r) == rule_route_json(hostname@, *rule),
{
    let path = match &rule.path_prefix {
        Some(value) => concat(value.as_str(), "*"),
        None => "/*".to_string(),
    };
    object3(
        "match",
        host_path(hostname, path.as_str()),
        "handle",
        array1(rule_handler(rule)),
        "metadata",
        object2(
            "baia_rule",
            json_text(rule.name.as_str()),
            "priority",
            JsonValue::Number(rule.priority as u64),
        ),
    )
}

proof fn lemma_first_above(rules: Seq<SecurityRule>, order: Seq<usize>, p: u32, k: int)
    requires
        0 <= k <= order.len(),
        forall|j: int| 0 <= j < order.len() ==> order[j] < rules.len(),
        forall|j: int| 0 <= j < k ==> rules[#[trigger] order[j] as int].priority <= p,
        k == order.len() || rules[order[k] as int].priority > p,
    ensures
        first_above(rules, order, p) == k,
    decreases k,
{
    if k > 0 {
        let t = order.drop_first();
        assert forall|j: int| 0 <= j < k - 1 implies rules[#[trigger] t[j] as int].priority <= p by {
            assert(t[j] == order[j + 1]);
        }
        assert forall|j: int| 0 <= j < t.len() implies t[j] < rules.len() by {
            assert(t[j] == order[j + 1]);
        }
        if k - 1 < t.len() {
            assert(t[k - 1] == order[k]);
        }
        lemma_first_above(rules, t, p, k - 1);
        assert(rules[order[0] as int].priority <= p);
    }
}

/// The rules' indices in order of priority, rules of equal priority in their
/// given order.
pub fn sorted_rules(rules: &Vec<SecurityRule>) -> (order: Vec<usize>)
    ensures
        order@ == priority_order(rules@),
{
    let mut order: Vec<usize> = Vec::new();
    let mut n: usize = 0;
    while n < rules.len()
        invariant
            n <= rules.len(),
            order@ == priority_order_upto(rules@, n as nat),
            forall|j: int| 0 <= j < order.len() ==> order@[j] < n,
        decreases rules.len() - n,
    {
        let p = rules[n].priority;
        let mut k: usize = 0;
        while k < order.len() && rules[order[k]].priority <= p
            invariant
                k <= order.len(),
                n < rules.len(),
                p == rules@[n as int].priority,
                forall|j: int| 0 <= j < order.len() ==> order@[j] < n,
                forall|j: int| 0 <= j < k ==> rules@[#[trigger] order@[j] as int].priority <= p,
            decreases order.len() - k,
        {
            k = k + 1;
        }
        proof {
            lemma_first_above(rules@, order@, p, k as int);
        }
        order.insert(k, n);
        n = n + 1;
    }
    order
}

fn upstreams_of(route: &Route) -> (r: Result<Vec<JsonValue>, CaddyConfigError>)
    ensures
        match route_error(*route) {
            Some(e) => r == Err::<Vec<JsonValue>, CaddyConfigError>(e),
            None => r matches Ok(v) && items_of(v@) == route.upstreams@.map_values(
                |u: Upstream| upstream_json(u),
            ),
        },
{
    if route.upstreams.len() == 0 {
        return Err(CaddyConfigError::RouteWithoutUpstream);
    }
    let mut upstreams: Vec<JsonValue> = Vec::new();
    let mut j: usize = 0;
    while j < route.upstreams.len()
        invariant
            j <= route.upstreams.len(),
            route.upstreams@.len() > 0,
            forall|i: int| 0 <= i < j ==> !upstream_lacks_dial(#[trigger] route.upstreams@[i]),
            items_of(upstreams@) == route.upstreams@.take(j as int).map_values(
                |u: Upstream| upstream_json(u),
            ),
        decreases route.upstreams.len() - j,
    {
        let upstream = &route.upstreams[j];
        if is_blank_str(upstream.dial.as_str()) {
            assert(upstream_lacks_dial(route.upstreams@[j as int]));
            return Err(CaddyConfigError::UpstreamWithoutDial);
        }
        let u = object2(
            "dial",
            json_text(upstream.dial.as_str()),
            "weight",
            JsonValue::Number(upstream.weight as u64),
        );
        push_item(&mut upstreams, u);
        j = j + 1;
        assert(route.upstreams@.take(j as int).map_values(|u: Upstream| upstream_json(u))
            =~= route.upstreams@.take(j - 1).map_values(|u: Upstream| upstream_json(u)).push(
            upstream_json(route.upstreams@[j - 1]),
        ));
    }
    assert(route.upstreams@.take(j as int) =~= route.upstreams@);
    Ok(upstreams)
}

fn proxy_route(hostname: &str, route: &Route, upstreams: Vec<JsonValue>) -> (r: JsonValue)
    requires
        items_of(upstreams@) == route.upstreams@.map_values(|u: Upstream| upstream_json(u)),
    ensures
        json_of(r) == proxy_route_json(hostname@, *route),
{
    let path = concat(route.path_prefix.as_str(), "*");
    let upstream_list = array(upstreams);
    object2(
        "match",
        host_path(hostname, path.as_str()),
        "handle",
        array2(
            security_headers_handler(),
            object3(
                "handler",
                json_text("reverse_proxy"),
                "load_balancing",
                object1("selection_policy", object1("policy", json_text(route.balancing.as_caddy_policy()))),
                "upstreams",
                upstream_list,
            ),
        ),
    )
}

/// The HTTPS routes of an application whose hostname is set: its rules by
/// priority, then its proxied routes; or the error of its first faulty route.
fn application_routes(app: &Application) -> (r: Result<Vec<JsonValue>, CaddyConfigError>)
    requires
        !is_blank(app.hostname@),
    ensures
        match routes_error(app.routes@) {
            Some(e) => r == Err::<Vec<JsonValue>, CaddyConfigError>(e),
            None => r matches Ok(v) && items_of(v@) == application_routes_json(*app),
        },
{
    let host = app.hostname.as_str();
    let order = sorted_rules(&app.rules);
    let ghost rule_model = rule_routes_json(app.hostname@, app.rules@);
    let mut routes: Vec<JsonValue> = Vec::new();
    let mut k: usize = 0;
    proof {
        assert(app.rules@.len() == app.rules.len());
        lemma_rules_applied_by_priority(app.rules@);
    }
    while k < order.len()
        invariant
            k <= order.len(),
            host@ == app.hostname@,
            order@ == priority_order(app.rules@),
            forall|j: int| 0 <= j < order@.len() ==> order@[j] < app.rules@.len(),
            rule_model == rule_routes_json(app.hostname@, app.rules@),
            rule_model.len() == order@.len(),
            items_of(routes@) == rule_model.take(k as int),
        decreases order.len() - k,
    {
        let route = rule_route(host, &app.rules[order[k]]);
        push_item(&mut routes, route);
        k = k + 1;
        assert(rule_model.take(k as int) =~= rule_model.take(k - 1).push(rule_model[k - 1]));
    }
    assert(rule_model.take(k as int) =~= rule_model);
    let ghost proxy_model = app.routes@.map_values(|r: Route| proxy_route_json(app.hostname@, r));
    let mut j: usize = 0;
    while j < app.routes.len()
        invariant
            j <= app.routes.len(),
            host@ == app.hostname@,
            proxy_model == app.routes@.map_values(|r: Route| proxy_route_json(app.hostname@, r)),
            routes_error(app.routes@.take(j as int)) is None,
            items_of(routes@) == rule_model + proxy_model.take(j as int),
        decreases app.routes.len() - j,
    {
        let route = &app.routes[j];
        assert(app.routes@.take(j + 1).drop_last() =~= app.routes@.take(j as int));
        assert(app.routes@.take(j + 1).last() == app.routes@[j as int]);
        match upstreams_of(route) {
            Err(e) => {
                proof {
                    lemma_routes_error_prefix(app.routes@, j as int + 1);
                }
                return Err(e);
            },
            Ok(upstreams) => {
                let r = proxy_route(host, route, upstreams);
                push_item(&mut routes, r);
                j = j + 1;
                assert(proxy_model.take(j as int) =~= proxy_model.take(j - 1).push(proxy_model[j - 1]));
                assert(rule_model + proxy_model.take(j as int) =~= (rule_model + proxy_model.take(
                    j - 1,
                )).push(proxy_model[j - 1]));
            },
        }
    }
    assert(app.routes@.take(j as int) =~= app.routes@);
    assert(proxy_model.take(j as int) =~= proxy_model);
    Ok(routes)
}

proof fn lemma_routes_error_prefix(routes: Seq<Route>, j: int)
    requires
        1 <= j <= routes.len(),
        routes_error(routes.take(j)) is Some,
    ensures
        routes_error(routes) == routes_error(routes.take(j)),
    decreases routes.len() - j,
{
    if j < routes.len() {
        assert(routes.take(j + 1).drop_last() =~= routes.take(j));
        lemma_routes_error_prefix(routes, j + 1);
    } else {
        assert(routes.take(j) =~= routes);
    }
}

proof fn lemma_applications_error_prefix(apps: Seq<Application>, j: int)
    requires
        1 <= j <= apps.len(),
        applications_error(apps.take(j)) is Some,
    ensures
        applications_error(apps) == applications_error(apps.take(j)),
    decreases apps.len() - j,
{
    if j < apps.len() {
        assert(apps.take(j + 1).drop_last() =~= apps.take(j));
        lemma_applications_error_prefix(apps, j + 1);
    } else {
        assert(apps.take(j) =~= apps);
    }
}

/// Plain-HTTP routes for the registered hostnames.
pub fn http_routes(registered_hosts: &Vec<String>) -> (r: Vec<JsonValue>)
    ensures
        items_of(r@) == http_routes_json(registered_hosts@.map_values(|h: String| h@)),
{
    let ghost hosts = registered_hosts@.map_values(|h: String| h@);
    let mut routes: Vec<JsonValue> = Vec::new();
    if registered_hosts.len() > 0 {
        let mut host_items: Vec<JsonValue> = Vec::new();
        let mut i: usize = 0;
        while i < registered_hosts.len()
            invariant
                i <= registered_hosts.len(),
                hosts == registered_hosts@.map_values(|h: String| h@),
                items_of(host_items@) == hosts.take(i as int).map_values(|s: Seq<char>| Json::Str(s)),
            decreases registered_hosts.len() - i,
        {
            push_item(&mut host_items, json_text(registered_hosts[i].as_str()));
            i = i + 1;
            assert(hosts.take(i as int).map_values(|s: Seq<char>| Json::Str(s)) =~= hosts.take(
                i - 1,
            ).map_values(|s: Seq<char>| Json::Str(s)).push(Json::Str(hosts[i - 1])));
        }
        assert(hosts.take(i as int) =~= hosts);
        let redirect = object2(
            "match",
            array1(object1("host", array(host_items))),
            "handle",
            array1(
                object3(
                    "handler",
                    json_text("static_response"),
                    "status_code",
                    JsonValue::Number(308),
                    "headers",
                    object1("Location", text_array1("https://{http.request.host}{http.request.uri}")),
                ),
            ),
        );
        push_item(&mut routes, redirect);
    }
    let block = object1(
        "handle",
        array1(
            block_page_handler(),
        ),
    );
    push_item(&mut routes, block);
    assert(items_of(routes@) =~= http_routes_json(hosts));
    routes
}

fn block_page_handler() -> (r: JsonValue)
    ensures
        json_of(r) == Json::Object(
            seq![
                ("handler"@, Json::Str("static_response"@)),
                ("status_code"@, Json::Number(403)),
                (
                    "headers"@,
                    Json::Object(
                        seq![("Content-Type"@, Json::Array(seq![Json::Str("text/html; charset=utf-8"@)]))],
                    ),
                ),
                ("body"@, Json::Str(DIRECT_ORIGIN_BLOCK_PAGE@)),
            ],
        ),
{
    crate::json::object4(
        "handler",
        json_text("static_response"),
        "status_code",
        JsonValue::Number(403),
        "headers",
        object1("Content-Type", text_array1("text/html; charset=utf-8")),
        "body",
        json_text(direct_origin_block_page()),
    )
}

/// Builds the proxy configuration for the given applications.  It is
/// refused with the error of the first faulty application (in order: a blank
/// hostname, then its first route without upstream or with an upstream whose
/// dial address is blank).
pub fn build_caddy_config(applications: &[Application]) -> (r: Result<CaddyConfig, CaddyConfigError>)
    ensures
        match applications_error(applications@) {
            Some(e) => r matches Err(x) && x == e,
            None => r matches Ok(c) && json_of(c.0) == caddy_config_json(applications@),
        },
{
    let ghost apps = applications@;
    let mut routes: Vec<JsonValue> = Vec::new();
    let mut registered_hosts: Vec<String> = Vec::new();
    let mut i: usize = 0;
    while i < applications.len()
        invariant
            i <= applications.len(),
            apps == applications@,
            applications_error(apps.take(i as int)) is None,
            items_of(routes@) == https_routes_json(apps.take(i as int)),
            registered_hosts@.map_values(|h: String| h@) == hostnames(apps.take(i as int)),
        decreases applications.len() - i,
    {
        let application = &applications[i];
        assert(apps.take(i + 1).drop_last() =~= apps.take(i as int));
        assert(apps.take(i + 1).last() == apps[i as int]);
        if is_blank_str(application.hostname.as_str()) {
            proof {
                lemma_applications_error_prefix(apps, i + 1);
            }
            return Err(CaddyConfigError::ApplicationWithoutHostname);
        }
        let ghost old_hosts = registered_hosts@;
        registered_hosts.push(application.hostname.clone());
        assert(registered_hosts@.map_values(|h: String| h@) =~= old_hosts.map_values(|h: String| h@).push(
            application.hostname@,
        ));
        assert(hostnames(apps.take(i + 1)) =~= hostnames(apps.take(i as int)).push(
            application.hostname@,
        ));
        match application_routes(application) {
            Err(e) => {
                proof {
                    lemma_applications_error_prefix(apps, i + 1);
                }
                return Err(e);
            },
            Ok(mut app_routes) => {
                let ghost before = routes@;
                let ghost added = app_routes@;
                routes.append(&mut app_routes);
                assert(items_of(routes@) =~= items_of(before) + items_of(added));
            },
        }
        i = i + 1;
        assert(registered_hosts@.map_values(|h: String| h@) =~= hostnames(apps.take(i as int)));
    }
    assert(apps.take(i as int) =~= apps);
    let https = array(routes);
    let http = array(http_routes(&registered_hosts));
    let config = object1(
        "apps",
        object1(
            "http",
            object1(
                "servers",
                object2(
                    "baia",
                    object2("listen", text_array1(":443"), "routes", https),
                    "baia_http",
                    object2("listen", text_array1(":80"), "routes", http),
                ),
            ),
        ),
    );
    Ok(CaddyConfig(config))
}


// ----- Laws -----

/// Rule `i` of `order` comes before rule `j` by priority, ties by position.
pub open spec fn ordered_by_priority(rules: Seq<SecurityRule>, order: Seq<usize>) -> bool {
    forall|i: int, j: int|
        0 <= i < j < order.len() ==> {
            let a = rules[#[trigger] order[i] as int].priority;
            let b = rules[#[trigger] order[j] as int].priority;
            a < b || (a == b && order[i] < order[j])
        }
}

/// `order` lists each of the first `n` rules exactly once.
pub open spec fn lists_each_rule_once(order: Seq<usize>, n: nat) -> bool {
    &&& order.len() == n
    &&& forall|i: int| 0 <= i < order.len() ==> #[trigger] order[i] < n
    &&& forall|i: int, j: int| 0 <= i < j < order.len() ==> order[i] != order[j]
    &&& forall|k: usize| k < n ==> order.contains(k)
}

proof fn lemma_first_above_props(rules: Seq<SecurityRule>, order: Seq<usize>, p: u32)
    ensures
        first_above(rules, order, p) <= order.len(),
        forall|j: int|
            0 <= j < first_above(rules, order, p) ==> rules[#[trigger] order[j] as int].priority <= p,
        first_above(rules, order, p) < order.len() ==> rules[order[first_above(rules, order, p) as int] as int].priority > p,
    decreases order.len(),
{
    if order.len() > 0 && rules[order[0] as int].priority <= p {
        let t = order.drop_first();
        lemma_first_above_props(rules, t, p);
        assert forall|j: int| 0 <= j < first_above(rules, order, p) implies rules[#[trigger] order[j] as int].priority <= p by {
            if j > 0 {
                assert(order[j] == t[j - 1]);
            }
        }
        if first_above(rules, order, p) < order.len() {
            assert(order[first_above(rules, order, p) as int] == t[first_above(rules, t, p) as int]);
        }
    }
}

/// The security rules of an application are applied in order of priority,
/// rules of equal priority in the order in which they were given, and each
/// rule exactly once.
pub proof fn lemma_rules_applied_by_priority(rules: Seq<SecurityRule>)
    requires
        rules.len() <= usize::MAX,
    ensures
        ordered_by_priority(rules, priority_order(rules)),
        lists_each_rule_once(priority_order(rules), rules.len()),
{
    lemma_priority_order_upto(rules, rules.len());
}

proof fn lemma_priority_order_upto(rules: Seq<SecurityRule>, n: nat)
    requires
        n <= rules.len() <= usize::MAX,
    ensures
        ordered_by_priority(rules, priority_order_upto(rules, n)),
        lists_each_rule_once(priority_order_upto(rules, n), n),
    decreases n,
{
    if n > 0 {
        let m = (n - 1) as nat;
        let o = priority_order_upto(rules, m);
        lemma_priority_order_upto(rules, m);
        let p = rules[m as int].priority;
        lemma_first_above_props(rules, o, p);
        let pos = first_above(rules, o, p) as int;
        let o2 = o.insert(pos, m as usize);
        assert(o2 == priority_order_upto(rules, n));
        // every rule after the insertion point has a higher priority
        assert forall|j: int| pos <= j < o.len() implies rules[#[trigger] o[j] as int].priority > p by {
            if pos < j {
                let a = rules[o[pos] as int].priority;
                let b = rules[o[j] as int].priority;
                assert(a < b || (a == b && o[pos] < o[j]));
            }
        }
        assert forall|i: int, j: int| 0 <= i < j < o2.len() implies {
            let a = rules[#[trigger] o2[i] as int].priority;
            let b = rules[#[trigger] o2[j] as int].priority;
            a < b || (a == b && o2[i] < o2[j])
        } by {
            if i < pos && j < pos {
                assert(o2[i] == o[i] && o2[j] == o[j]);
            } else if i < pos && j == pos {
                assert(o2[i] == o[i]);
                assert(o[i] < m);
                assert(rules[o[i] as int].priority <= p);
                assert(o2[j] == m as usize);
            } else if i < pos && j > pos {
                assert(o2[i] == o[i] && o2[j] == o[j - 1]);
                assert(rules[o[i] as int].priority <= p);
                assert(rules[o[j - 1] as int].priority > p);
            } else if i == pos {
                assert(o2[i] == m as usize);
                assert(o2[j] == o[j - 1]);
                assert(rules[o[j - 1] as int].priority > p);
            } else {
                assert(o2[i] == o[i - 1] && o2[j] == o[j - 1]);
            }
        }
        assert forall|i: int| 0 <= i < o2.len() implies #[trigger] o2[i] < n by {
            if i < pos {
                assert(o2[i] == o[i]);
            } else if i > pos {
                assert(o2[i] == o[i - 1]);
            }
        }
        assert forall|i: int, j: int| 0 <= i < j < o2.len() implies o2[i] != o2[j] by {
            if i < pos && j < pos {
                assert(o2[i] == o[i] && o2[j] == o[j]);
            } else if i < pos && j == pos {
                assert(o2[i] == o[i]);
                assert(o[i] < m);
            } else if i < pos && j > pos {
                assert(o2[i] == o[i] && o2[j] == o[j - 1]);
            } else if i == pos {
                assert(o2[j] == o[j - 1]);
                assert(o[j - 1] < m);
            } else {
                assert(o2[i] == o[i - 1] && o2[j] == o[j - 1]);
            }
        }
        assert forall|k: usize| k < n implies o2.contains(k) by {
            if k == m {
                assert(o2[pos] == k);
            } else {
                assert(o.contains(k));
                let i = choose|i: int| 0 <= i < o.len() && o[i] == k;
                if i < pos {
                    assert(o2[i] == k);
                } else {
                    assert(o2[i + 1] == k);
                }
            }
        }
    }
}

/// The `X-Baia-WAF` value set by the handler `h`, if it is a header handler.
pub open spec fn waf_header_value(h: Json) -> Json {
    member(member(member(h, "response"@), "set"@), "X-Baia-WAF"@)
}

/// `h` answers the request itself with `status`, never passing it on.
pub open spec fn answers_with(h: Json, status: nat) -> bool {
    member(h, "handler"@) == Json::Str("static_response"@) && member(h, "status_code"@)
        == Json::Number(status)
}

/// What the route of a security rule does with a request to the rule's host
/// and path.  The route has exactly one handler, so it never hands the
/// request on to an upstream.  A blocking rule answers 403 with the block
/// message; a challenge or captcha rule answers 403 asking for a challenge; a
/// rate-limit rule answers 429; a redirect rule answers 302; an allowing rule
/// marks the response `allow`; the remaining rules mark the response with the
/// action's name.  The route is tagged with the rule's name and priority.
pub proof fn lemma_rule_route_enforces_its_action(host: Seq<char>, rule: SecurityRule)
    ensures
        ({
            let route = rule_route_json(host, rule);
            let handle = member(route, "handle"@);
            let h = element(handle, 0);
            let m = element(member(route, "match"@), 0);
            &&& length(handle) == 1
            &&& length(member(route, "match"@)) == 1
            &&& member(m, "host"@) == Json::Array(seq![Json::Str(host)])
            &&& (rule.path_prefix matches Some(p) ==> member(m, "path"@) == Json::Array(
                seq![Json::Str(p@ + "*"@)],
            ))
            &&& (rule.path_prefix is None ==> member(m, "path"@) == Json::Array(seq![Json::Str("/*"@)]))
            &&& member(member(route, "metadata"@), "baia_rule"@) == Json::Str(rule.name@)
            &&& member(member(route, "metadata"@), "priority"@) == Json::Number(rule.priority as nat)
            &&& (rule.action == RuleAction::Block ==> answers_with(h, 403) && member(h, "body"@)
                == Json::Str("Request blocked by Baia WAF"@))
            &&& ((rule.action == RuleAction::Challenge || rule.action == RuleAction::Captcha)
                ==> answers_with(h, 403) && member(h, "body"@) == Json::Str("Challenge required"@))
            &&& (rule.action == RuleAction::RateLimit ==> answers_with(h, 429) && member(h, "body"@)
                == Json::Str("Rate limit exceeded"@))
            &&& (rule.action == RuleAction::Redirect ==> answers_with(h, 302))
            &&& (rule.action == RuleAction::Allow ==> member(h, "handler"@) == Json::Str("headers"@)
                && waf_header_value(h) == Json::Array(seq![Json::Str("allow"@)]))
            &&& (rule.action == RuleAction::AddHeader ==> member(h, "handler"@) == Json::Str(
                "headers"@,
            ) && waf_header_value(h) == Json::Array(seq![Json::Str("AddHeader"@)]))
            &&& (rule.action == RuleAction::RemoveHeader ==> member(h, "handler"@) == Json::Str(
                "headers"@,
            ) && waf_header_value(h) == Json::Array(seq![Json::Str("RemoveHeader"@)]))
            &&& (rule.action == RuleAction::Log ==> member(h, "handler"@) == Json::Str("headers"@)
                && waf_header_value(h) == Json::Array(seq![Json::Str("Log"@)]))
            &&& (rule.action == RuleAction::ApplyRule ==> member(h, "handler"@) == Json::Str(
                "headers"@,
            ) && waf_header_value(h) == Json::Array(seq![Json::Str("ApplyRule"@)]))
        }),
{
    reveal_strlit("handle");
    reveal_strlit("match");
    reveal_strlit("metadata");
    reveal_strlit("host");
    reveal_strlit("path");
    reveal_strlit("baia_rule");
    reveal_strlit("priority");
    reveal_strlit("handler");
    reveal_strlit("status_code");
    reveal_strlit("body");
    reveal_strlit("response");
    reveal_strlit("set");
    reveal_strlit("X-Baia-WAF");
    reveal_with_fuel(field_value, 4);
    let route = rule_route_json(host, rule);
    let h = rule_handler_json(rule.action);
    let fs = route->Object_0;
    assert(fs[0].0 == "match"@ && fs[1].0 == "handle"@ && fs[2].0 == "metadata"@);
    lemma_field_value_at(fs, 0, "match"@);
    assert(fs[1].0 == "handle"@);
    assert(forall|j: int| 0 <= j < 1 ==> fs[j].0 != "handle"@);
    lemma_field_value_at(fs, 1, "handle"@);
    assert(fs[2].0 == "metadata"@);
    assert(forall|j: int| 0 <= j < 2 ==> fs[j].0 != "metadata"@);
    lemma_field_value_at(fs, 2, "metadata"@);
    let m = element(host_path_match(host, rule_path(rule)), 0);
    assert(m->Object_0[0].0 == "host"@);
    assert("host"@[0] != "path"@[0]);
    lemma_field_value_at(m->Object_0, 0, "host"@);
    assert(m->Object_0[1].0 == "path"@);
    assert(forall|j: int| 0 <= j < 1 ==> m->Object_0[j].0 != "path"@);
    lemma_field_value_at(m->Object_0, 1, "path"@);
    let meta = member(route, "metadata"@);
    lemma_field_value_at(meta->Object_0, 0, "baia_rule"@);
    assert(meta->Object_0[1].0 == "priority"@);
    assert(forall|j: int| 0 <= j < 1 ==> meta->Object_0[j].0 != "priority"@);
    lemma_field_value_at(meta->Object_0, 1, "priority"@);
    match rule.action {
        RuleAction::Block | RuleAction::Challenge | RuleAction::Captcha | RuleAction::RateLimit => {
            lemma_field_value_at(h->Object_0, 0, "handler"@);
            assert(h->Object_0[1].0 == "status_code"@);
            assert(forall|j: int| 0 <= j < 1 ==> h->Object_0[j].0 != "status_code"@);
            lemma_field_value_at(h->Object_0, 1, "status_code"@);
            assert(h->Object_0[2].0 == "body"@);
            assert(forall|j: int| 0 <= j < 2 ==> h->Object_0[j].0 != "body"@);
            lemma_field_value_at(h->Object_0, 2, "body"@);
        },
        RuleAction::Redirect => {
            lemma_field_value_at(h->Object_0, 0, "handler"@);
            assert(h->Object_0[1].0 == "status_code"@);
            assert(forall|j: int| 0 <= j < 1 ==> h->Object_0[j].0 != "status_code"@);
            lemma_field_value_at(h->Object_0, 1, "status_code"@);
        },
        _ => {
            lemma_field_value_at(h->Object_0, 0, "handler"@);
            assert(h->Object_0[1].0 == "response"@);
            assert(forall|j: int| 0 <= j < 1 ==> h->Object_0[j].0 != "response"@);
            lemma_field_value_at(h->Object_0, 1, "response"@);
            let resp = member(h, "response"@);
            lemma_field_value_at(resp->Object_0, 0, "set"@);
            let set = member(member(h, "response"@), "set"@);
            lemma_field_value_at(set->Object_0, 0, "X-Baia-WAF"@);
            assert(set == Json::Object(
                seq![("X-Baia-WAF"@, Json::Array(seq![Json::Str(if rule.action == RuleAction::Allow {
                    "allow"@
                } else {
                    action_name(rule.action)
                })]))],
            ));
        },
    }
}

/// The routes of the server named `server` in a generated document.
pub open spec fn server_routes(config: Json, server: Seq<char>) -> Json {
    member(server_of(config, server), "routes"@)
}

/// The server named `server` in a generated document.
pub open spec fn server_of(config: Json, server: Seq<char>) -> Json {
    member(member(member(member(config, "apps"@), "http"@), "servers"@), server)
}

proof fn lemma_config_servers(apps: Seq<Application>)
    ensures
        server_routes(caddy_config_json(apps), "baia"@) == Json::Array(https_routes_json(apps)),
        server_routes(caddy_config_json(apps), "baia_http"@) == Json::Array(
            http_routes_json(hostnames(apps)),
        ),
        member(server_of(caddy_config_json(apps), "baia"@), "listen"@) == Json::Array(
            seq![Json::Str(":443"@)],
        ),
        member(server_of(caddy_config_json(apps), "baia_http"@), "listen"@) == Json::Array(
            seq![Json::Str(":80"@)],
        ),
{
    reveal_strlit("baia");
    reveal_strlit("baia_http");
    reveal_strlit("listen");
    reveal_strlit("routes");
    let https = server_json(":443"@, https_routes_json(apps));
    let http = server_json(":80"@, http_routes_json(hostnames(apps)));
    let servers = Json::Object(seq![("baia"@, https), ("baia_http"@, http)]);
    let h = Json::Object(seq![("servers"@, servers)]);
    let a = Json::Object(seq![("http"@, h)]);
    lemma_members1("apps"@, a);
    lemma_members1("http"@, h);
    lemma_members1("servers"@, servers);
    assert("baia"@.len() != "baia_http"@.len());
    assert("listen"@.len() != "routes"@.len() || "listen"@[0] != "routes"@[0]);
    lemma_members2("baia"@, https, "baia_http"@, http);
    lemma_members2("listen"@, Json::Array(seq![Json::Str(":443"@)]), "routes"@, Json::Array(https_routes_json(apps)));
    lemma_members2("listen"@, Json::Array(seq![Json::Str(":80"@)]), "routes"@, Json::Array(http_routes_json(hostnames(apps))));
}

/// Where the routes of application `a` begin among the HTTPS routes.
proof fn lemma_application_segment(apps: Seq<Application>, a: int) -> (o: int)
    requires
        0 <= a < apps.len(),
    ensures
        0 <= o,
        o + application_routes_json(apps[a]).len() <= https_routes_json(apps).len(),
        forall|i: int|
            0 <= i < application_routes_json(apps[a]).len() ==> #[trigger] https_routes_json(apps)[o + i]
                == application_routes_json(apps[a])[i],
    decreases apps.len(),
{
    let prefix = https_routes_json(apps.drop_last());
    let own = application_routes_json(apps.last());
    assert(https_routes_json(apps) == prefix + own);
    if a == apps.len() - 1 {
        let o = prefix.len() as int;
        assert forall|i: int| 0 <= i < own.len() implies #[trigger] https_routes_json(apps)[o + i] == own[i] by {
            assert((prefix + own)[o + i] == own[i]);
        }
        o
    } else {
        assert(apps.drop_last()[a] == apps[a]);
        let o = lemma_application_segment(apps.drop_last(), a);
        let seg = application_routes_json(apps[a]);
        assert forall|i: int| 0 <= i < seg.len() implies #[trigger] https_routes_json(apps)[o + i] == seg[i] by {
            assert(https_routes_json(apps.drop_last())[o + i] == seg[i]);
            assert((prefix + own)[o + i] == prefix[o + i]);
        }
        o
    }
}

/// In the HTTPS server, the routes of each application stand together: first
/// one route per security rule, in order of priority (ties in the given
/// order), then one route per proxied route, in the given order.
pub proof fn lemma_application_routes_in_https_server(apps: Seq<Application>, a: int) -> (o: int)
    requires
        0 <= a < apps.len(),
    ensures
        ({
            let routes = server_routes(caddy_config_json(apps), "baia"@);
            let app = apps[a];
            let order = priority_order(app.rules@);
            &&& 0 <= o
            &&& o + order.len() + app.routes@.len() <= length(routes)
            &&& forall|p: int|
                0 <= p < order.len() ==> #[trigger] element(routes, o + p) == rule_route_json(
                    app.hostname@,
                    app.rules@[order[p] as int],
                )
            &&& forall|r: int|
                0 <= r < app.routes@.len() ==> #[trigger] element(routes, o + order.len() + r)
                    == proxy_route_json(app.hostname@, app.routes@[r])
        }),
{
    lemma_config_servers(apps);
    let o = lemma_application_segment(apps, a);
    let app = apps[a];
    let order = priority_order(app.rules@);
    let seg = application_routes_json(app);
    let rr = rule_routes_json(app.hostname@, app.rules@);
    assert(rr.len() == order.len());
    let https = https_routes_json(apps);
    assert forall|p: int| 0 <= p < order.len() implies #[trigger] element(
        server_routes(caddy_config_json(apps), "baia"@),
        o + p,
    ) == rule_route_json(app.hostname@, app.rules@[order[p] as int]) by {
        assert(https[o + p] == seg[p]);
        assert(seg[p] == rr[p]);
    }
    assert forall|r: int| 0 <= r < app.routes@.len() implies #[trigger] element(
        server_routes(caddy_config_json(apps), "baia"@),
        o + order.len() + r,
    ) == proxy_route_json(app.hostname@, app.routes@[r]) by {
        assert(https[o + (order.len() + r)] == seg[order.len() + r]);
        assert(o + order.len() + r == o + (order.len() + r));
    }
    o
}

/// Every security rule of every application has a route of its own in the
/// HTTPS server.
pub proof fn lemma_every_rule_has_a_route(apps: Seq<Application>, a: int, k: int) -> (i: int)
    requires
        0 <= a < apps.len(),
        0 <= k < apps[a].rules@.len(),
        apps[a].rules@.len() <= usize::MAX,
    ensures
        0 <= i < length(server_routes(caddy_config_json(apps), "baia"@)),
        element(server_routes(caddy_config_json(apps), "baia"@), i) == rule_route_json(
            apps[a].hostname@,
            apps[a].rules@[k],
        ),
{
    let o = lemma_application_routes_in_https_server(apps, a);
    let rules = apps[a].rules@;
    lemma_rules_applied_by_priority(rules);
    let order = priority_order(rules);
    assert(order.contains(k as usize));
    let p = choose|p: int| 0 <= p < order.len() && order[p] == k as usize;
    assert(element(server_routes(caddy_config_json(apps), "baia"@), o + p) == rule_route_json(
        apps[a].hostname@,
        rules[order[p] as int],
    ));
    o + p
}

/// The `policy` a reverse-proxy handler selects upstreams by.
pub open spec fn selection_policy(proxy: Json) -> Json {
    member(member(member(proxy, "load_balancing"@), "selection_policy"@), "policy"@)
}

/// A proxied route matches its application's host and every path under its
/// prefix, sets the three hardening headers (`nosniff`, `DENY`,
/// `strict-origin-when-cross-origin`) and then passes the request to its
/// upstreams, each with its dial address and weight, in the given order,
/// chosen by the route's balancing policy.
pub proof fn lemma_proxy_route_forwards_to_upstreams(host: Seq<char>, route: Route)
    ensures
        ({
            let j = proxy_route_json(host, route);
            let m = element(member(j, "match"@), 0);
            let handle = member(j, "handle"@);
            let hardening = member(member(element(handle, 0), "response"@), "set"@);
            let proxy = element(handle, 1);
            let ups = member(proxy, "upstreams"@);
            &&& member(m, "host"@) == Json::Array(seq![Json::Str(host)])
            &&& member(m, "path"@) == Json::Array(seq![Json::Str(route.path_prefix@ + "*"@)])
            &&& length(handle) == 2
            &&& member(element(handle, 0), "handler"@) == Json::Str("headers"@)
            &&& member(hardening, "X-Content-Type-Options"@) == Json::Array(seq![Json::Str("nosniff"@)])
            &&& member(hardening, "X-Frame-Options"@) == Json::Array(seq![Json::Str("DENY"@)])
            &&& member(hardening, "Referrer-Policy"@) == Json::Array(
                seq![Json::Str("strict-origin-when-cross-origin"@)],
            )
            &&& member(proxy, "handler"@) == Json::Str("reverse_proxy"@)
            &&& (route.balancing == LoadBalancingPolicy::RoundRobin ==> selection_policy(proxy)
                == Json::Str("round_robin"@))
            &&& (route.balancing == LoadBalancingPolicy::LeastConn ==> selection_policy(proxy)
                == Json::Str("least_conn"@))
            &&& (route.balancing == LoadBalancingPolicy::Random ==> selection_policy(proxy) == Json::Str(
                "random"@,
            ))
            &&& length(ups) == route.upstreams@.len()
            &&& forall|u: int|
                0 <= u < route.upstreams@.len() ==> {
                    &&& member(#[trigger] element(ups, u), "dial"@) == Json::Str(route.upstreams@[u].dial@)
                    &&& member(element(ups, u), "weight"@) == Json::Number(route.upstreams@[u].weight as nat)
                }
        }),
{
    reveal_strlit("match");
    reveal_strlit("handle");
    reveal_strlit("host");
    reveal_strlit("path");
    reveal_strlit("handler");
    reveal_strlit("response");
    reveal_strlit("set");
    reveal_strlit("X-Content-Type-Options");
    reveal_strlit("X-Frame-Options");
    reveal_strlit("Referrer-Policy");
    reveal_strlit("load_balancing");
    reveal_strlit("selection_policy");
    reveal_strlit("policy");
    reveal_strlit("upstreams");
    reveal_strlit("dial");
    reveal_strlit("weight");
    let pm = host_path_match(host, route.path_prefix@ + "*"@);
    let ups = Json::Array(route.upstreams@.map_values(|u: Upstream| upstream_json(u)));
    let pol = Json::Object(seq![("policy"@, Json::Str(policy_name(route.balancing)))]);
    let lb = Json::Object(seq![("selection_policy"@, pol)]);
    let proxy = Json::Object(
        seq![("handler"@, Json::Str("reverse_proxy"@)), ("load_balancing"@, lb), ("upstreams"@, ups)],
    );
    let handle = Json::Array(seq![security_headers_json(), proxy]);
    assert("match"@.len() != "handle"@.len());
    lemma_members2("match"@, pm, "handle"@, handle);
    assert("host"@[0] != "path"@[0]);
    lemma_members2("host"@, Json::Array(seq![Json::Str(host)]), "path"@, Json::Array(seq![Json::Str(route.path_prefix@ + "*"@)]));
    let set = Json::Object(
        seq![
            ("X-Content-Type-Options"@, Json::Array(seq![Json::Str("nosniff"@)])),
            ("X-Frame-Options"@, Json::Array(seq![Json::Str("DENY"@)])),
            ("Referrer-Policy"@, Json::Array(seq![Json::Str("strict-origin-when-cross-origin"@)])),
        ],
    );
    assert("X-Content-Type-Options"@.len() != "X-Frame-Options"@.len());
    assert("X-Content-Type-Options"@.len() != "Referrer-Policy"@.len());
    assert("X-Frame-Options"@[0] != "Referrer-Policy"@[0]);
    lemma_members3(
        "X-Content-Type-Options"@,
        Json::Array(seq![Json::Str("nosniff"@)]),
        "X-Frame-Options"@,
        Json::Array(seq![Json::Str("DENY"@)]),
        "Referrer-Policy"@,
        Json::Array(seq![Json::Str("strict-origin-when-cross-origin"@)]),
    );
    let resp = Json::Object(seq![("set"@, set)]);
    lemma_members1("set"@, set);
    assert("handler"@.len() != "response"@.len());
    lemma_members2("handler"@, Json::Str("headers"@), "response"@, resp);
    assert("handler"@.len() != "load_balancing"@.len());
    assert("handler"@.len() != "upstreams"@.len());
    assert("load_balancing"@.len() != "upstreams"@.len());
    lemma_members3("handler"@, Json::Str("reverse_proxy"@), "load_balancing"@, lb, "upstreams"@, ups);
    lemma_members1("selection_policy"@, pol);
    lemma_members1("policy"@, Json::Str(policy_name(route.balancing)));
    assert("dial"@.len() != "weight"@.len());
    assert forall|u: int| 0 <= u < route.upstreams@.len() implies {
        &&& member(#[trigger] element(ups, u), "dial"@) == Json::Str(route.upstreams@[u].dial@)
        &&& member(element(ups, u), "weight"@) == Json::Number(route.upstreams@[u].weight as nat)
    } by {
        let up = route.upstreams@[u];
        lemma_members2("dial"@, Json::Str(up.dial@), "weight"@, Json::Number(up.weight as nat));
    }
}

/// The plain-HTTP server: when any application is registered, its first
/// route matches exactly the registered hostnames, in order, and redirects
/// them permanently (308) to the same host and URI over HTTPS; its last
/// route matches every other request and answers 403 with the
/// direct-origin page as HTML.
pub proof fn lemma_http_server_redirects_or_blocks(apps: Seq<Application>)
    ensures
        ({
            let routes = server_routes(caddy_config_json(apps), "baia_http"@);
            let last = element(routes, length(routes) - 1);
            let block = element(member(last, "handle"@), 0);
            &&& length(routes) == (if apps.len() > 0 { 2nat } else { 1nat })
            &&& member(last, "match"@) == Json::Null
            &&& answers_with(block, 403)
            &&& member(block, "body"@) == Json::Str(DIRECT_ORIGIN_BLOCK_PAGE@)
            &&& member(member(block, "headers"@), "Content-Type"@) == Json::Array(
                seq![Json::Str("text/html; charset=utf-8"@)],
            )
            &&& apps.len() > 0 ==> {
                let first = element(routes, 0);
                let hosts = member(element(member(first, "match"@), 0), "host"@);
                let redirect = element(member(first, "handle"@), 0);
                &&& length(hosts) == apps.len()
                &&& forall|i: int|
                    0 <= i < apps.len() ==> #[trigger] element(hosts, i) == Json::Str(apps[i].hostname@)
                &&& answers_with(redirect, 308)
                &&& member(member(redirect, "headers"@), "Location"@) == Json::Array(
                    seq![Json::Str("https://{http.request.host}{http.request.uri}"@)],
                )
            }
        }),
{
    reveal_strlit("match");
    reveal_strlit("handle");
    reveal_strlit("host");
    reveal_strlit("handler");
    reveal_strlit("status_code");
    reveal_strlit("headers");
    reveal_strlit("body");
    reveal_strlit("Content-Type");
    reveal_strlit("Location");
    lemma_config_servers(apps);
    let hs = hostnames(apps);
    let block_handler = Json::Object(
        seq![
            ("handler"@, Json::Str("static_response"@)),
            ("status_code"@, Json::Number(403)),
            (
                "headers"@,
                Json::Object(seq![("Content-Type"@, Json::Array(seq![Json::Str("text/html; charset=utf-8"@)]))]),
            ),
            ("body"@, Json::Str(DIRECT_ORIGIN_BLOCK_PAGE@)),
        ],
    );
    assert("handler"@.len() != "status_code"@.len());
    assert("handler"@[1] != "headers"@[1]);
    assert("handler"@.len() != "body"@.len());
    assert("status_code"@.len() != "headers"@.len());
    assert("status_code"@.len() != "body"@.len());
    assert("headers"@.len() != "body"@.len());
    lemma_members4(
        "handler"@,
        Json::Str("static_response"@),
        "status_code"@,
        Json::Number(403),
        "headers"@,
        Json::Object(seq![("Content-Type"@, Json::Array(seq![Json::Str("text/html; charset=utf-8"@)]))]),
        "body"@,
        Json::Str(DIRECT_ORIGIN_BLOCK_PAGE@),
    );
    lemma_members1("Content-Type"@, Json::Array(seq![Json::Str("text/html; charset=utf-8"@)]));
    let block = block_route_json();
    lemma_members1("handle"@, Json::Array(seq![block_handler]));
    assert("handle"@.len() != "match"@.len());
    assert(forall|j: int| 0 <= j < block->Object_0.len() ==> block->Object_0[j].0 != "match"@);
    lemma_field_value_absent(block->Object_0, "match"@);
    if apps.len() > 0 {
        let hosts = text_list(hs);
        let loc = Json::Object(
            seq![("Location"@, Json::Array(seq![Json::Str("https://{http.request.host}{http.request.uri}"@)]))],
        );
        let redirect = Json::Object(
            seq![
                ("handler"@, Json::Str("static_response"@)),
                ("status_code"@, Json::Number(308)),
                ("headers"@, loc),
            ],
        );
        lemma_members3("handler"@, Json::Str("static_response"@), "status_code"@, Json::Number(308), "headers"@, loc);
        lemma_members1("Location"@, Json::Array(seq![Json::Str("https://{http.request.host}{http.request.uri}"@)]));
        lemma_members1("host"@, hosts);
        lemma_members2("match"@, Json::Array(seq![Json::Object(seq![("host"@, hosts)])]), "handle"@, Json::Array(seq![redirect]));
        assert forall|i: int| 0 <= i < apps.len() implies #[trigger] element(hosts, i) == Json::Str(
            apps[i].hostname@,
        ) by {
            assert(hs[i] == apps[i].hostname@);
        }
    }
}

/// A route is well formed: it has an upstream, and every upstream has a
/// dial address that is not blank.
pub open spec fn route_is_servable(route: Route) -> bool {
    route.upstreams@.len() > 0 && forall|u: int|
        0 <= u < route.upstreams@.len() ==> !is_blank(#[trigger] route.upstreams@[u].dial@)
}

proof fn lemma_routes_error_none_iff(routes: Seq<Route>)
    ensures
        routes_error(routes) is None <==> forall|r: int|
            0 <= r < routes.len() ==> route_is_servable(#[trigger] routes[r]),
    decreases routes.len(),
{
    if routes.len() > 0 {
        let init = routes.drop_last();
        let n = routes.len() - 1;
        let last = routes.last();
        lemma_routes_error_none_iff(init);
        assert forall|r: int| 0 <= r < init.len() implies #[trigger] init[r] == routes[r] by {}
        if route_error(last) is None {
            assert(route_is_servable(last));
        }
        if route_is_servable(last) {
            assert(!exists|i: int| 0 <= i < last.upstreams@.len() && upstream_lacks_dial(#[trigger] last.upstreams@[i]));
            assert(route_error(last) is None);
        }
        if routes_error(routes) is None {
            assert forall|r: int| 0 <= r < routes.len() implies route_is_servable(#[trigger] routes[r]) by {
                if r < n {
                    assert(route_is_servable(init[r]));
                }
            }
        }
        if forall|r: int| 0 <= r < routes.len() ==> route_is_servable(#[trigger] routes[r]) {
            assert forall|r: int| 0 <= r < init.len() implies route_is_servable(#[trigger] init[r]) by {
                assert(route_is_servable(routes[r]));
            }
            assert(route_is_servable(routes[n]));
        }
    }
}

/// Application `a` is well formed: a hostname that is not blank and only
/// servable routes.
pub open spec fn application_is_servable(app: Application) -> bool {
    !is_blank(app.hostname@) && forall|r: int|
        0 <= r < app.routes@.len() ==> route_is_servable(#[trigger] app.routes@[r])
}

proof fn lemma_applications_error_none_iff(apps: Seq<Application>)
    ensures
        applications_error(apps) is None <==> forall|a: int|
            0 <= a < apps.len() ==> application_is_servable(#[trigger] apps[a]),
    decreases apps.len(),
{
    if apps.len() > 0 {
        let init = apps.drop_last();
        let n = apps.len() - 1;
        let last = apps.last();
        lemma_applications_error_none_iff(init);
        lemma_routes_error_none_iff(last.routes@);
        assert forall|a: int| 0 <= a < init.len() implies #[trigger] init[a] == apps[a] by {}
        assert(application_error(last) is None <==> application_is_servable(last));
        if applications_error(apps) is None {
            assert forall|a: int| 0 <= a < apps.len() implies application_is_servable(#[trigger] apps[a]) by {
                if a < n {
                    assert(application_is_servable(init[a]));
                }
            }
        }
        if forall|a: int| 0 <= a < apps.len() ==> application_is_servable(#[trigger] apps[a]) {
            assert forall|a: int| 0 <= a < init.len() implies application_is_servable(#[trigger] init[a]) by {
                assert(application_is_servable(apps[a]));
            }
            assert(application_is_servable(apps[n]));
        }
    }
}

/// The configuration is built exactly when every application has a
/// hostname that is not blank and every route of every application has at
/// least one upstream, each with a dial address that is not blank.  A blank
/// hostname, a route without upstream and a blank dial address are each
/// refused with their own error.
pub proof fn lemma_caddy_config_refusals(apps: Seq<Application>)
    ensures
        applications_error(apps) is None <==> forall|a: int|
            0 <= a < apps.len() ==> application_is_servable(#[trigger] apps[a]),
        applications_error(apps) == Some(CaddyConfigError::ApplicationWithoutHostname) ==> exists|a: int|
            0 <= a < apps.len() && is_blank((#[trigger] apps[a]).hostname@),
        applications_error(apps) == Some(CaddyConfigError::RouteWithoutUpstream) ==> exists|a: int, r: int|
            0 <= a < apps.len() && 0 <= r < apps[a].routes@.len() && (#[trigger] apps[a].routes@[r]).upstreams@.len() == 0,
        applications_error(apps) == Some(CaddyConfigError::UpstreamWithoutDial) ==> exists|a: int, r: int, u: int|
            0 <= a < apps.len() && 0 <= r < apps[a].routes@.len() && 0 <= u < apps[a].routes@[r].upstreams@.len()
                && is_blank((#[trigger] apps[a].routes@[r].upstreams@[u]).dial@),
    decreases apps.len(),
{
    lemma_applications_error_none_iff(apps);
    if apps.len() > 0 {
        let init = apps.drop_last();
        lemma_caddy_config_refusals(init);
        let n = apps.len() - 1;
        assert forall|a: int| 0 <= a < init.len() implies #[trigger] init[a] == apps[a] by {}
        if applications_error(init) is None {
            let last = apps.last();
            assert(apps[n] == last);
            if !is_blank(last.hostname@) {
                lemma_route_error_witness(last.routes@);
                if routes_error(last.routes@) == Some(CaddyConfigError::RouteWithoutUpstream) {
                    let r = choose|r: int| 0 <= r < last.routes@.len() && last.routes@[r].upstreams@.len() == 0;
                    assert(apps[n].routes@[r].upstreams@.len() == 0);
                }
                if routes_error(last.routes@) == Some(CaddyConfigError::UpstreamWithoutDial) {
                    let (r, u) = choose|r: int, u: int| 0 <= r < last.routes@.len() && 0 <= u < last.routes@[r].upstreams@.len()
                        && is_blank(last.routes@[r].upstreams@[u].dial@);
                    assert(is_blank(apps[n].routes@[r].upstreams@[u].dial@));
                }
            }
        } else {
            if applications_error(apps) == Some(CaddyConfigError::RouteWithoutUpstream) {
                let (a, r) = choose|a: int, r: int| 0 <= a < init.len() && 0 <= r < init[a].routes@.len() && init[a].routes@[r].upstreams@.len() == 0;
                assert(apps[a].routes@[r].upstreams@.len() == 0);
            }
            if applications_error(apps) == Some(CaddyConfigError::UpstreamWithoutDial) {
                let (a, r, u) = choose|a: int, r: int, u: int| 0 <= a < init.len() && 0 <= r < init[a].routes@.len() && 0 <= u < init[a].routes@[r].upstreams@.len()
                    && is_blank(init[a].routes@[r].upstreams@[u].dial@);
                assert(is_blank(apps[a].routes@[r].upstreams@[u].dial@));
            }
            if applications_error(apps) == Some(CaddyConfigError::ApplicationWithoutHostname) {
                let a = choose|a: int| 0 <= a < init.len() && is_blank(init[a].hostname@);
                assert(is_blank(apps[a].hostname@));
            }
        }
    }
}

proof fn lemma_route_error_witness(routes: Seq<Route>)
    ensures
        routes_error(routes) == Some(CaddyConfigError::RouteWithoutUpstream) ==> exists|r: int|
            0 <= r < routes.len() && routes[r].upstreams@.len() == 0,
        routes_error(routes) == Some(CaddyConfigError::UpstreamWithoutDial) ==> exists|r: int, u: int|
            0 <= r < routes.len() && 0 <= u < routes[r].upstreams@.len() && is_blank(routes[r].upstreams@[u].dial@),
        routes_error(routes) != Some(CaddyConfigError::ApplicationWithoutHostname),
    decreases routes.len(),
{
    if routes.len() > 0 {
        let init = routes.drop_last();
        lemma_route_error_witness(init);
        let n = routes.len() - 1;
        if routes_error(init) is Some {
            if routes_error(routes) == Some(CaddyConfigError::RouteWithoutUpstream) {
                let r = choose|r: int| 0 <= r < init.len() && init[r].upstreams@.len() == 0;
                assert(routes[r] == init[r]);
            }
            if routes_error(routes) == Some(CaddyConfigError::UpstreamWithoutDial) {
                let (r, u) = choose|r: int, u: int| 0 <= r < init.len() && 0 <= u < init[r].upstreams@.len() && is_blank(init[r].upstreams@[u].dial@);
                assert(routes[r] == init[r]);
            }
        } else {
            let last = routes.last();
            assert(routes[n] == last);
            if route_error(last) == Some(CaddyConfigError::UpstreamWithoutDial) {
                let u = choose|u: int| 0 <= u < last.upstreams@.len() && upstream_lacks_dial(#[trigger] last.upstreams@[u]);
                assert(is_blank(routes[n].upstreams@[u].dial@));
            }
        }
    }
}

} // verus!
