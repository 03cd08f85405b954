use baia_core::caddy::{
    build_caddy_config, sorted_rules, Application, CaddyConfigError, LoadBalancingPolicy, Route, Upstream,
};
use baia_core::json::JsonValue;
use baia_core::rules::{RuleAction, SecurityRule};
use serde_json::Value;

fn to_json(value: &JsonValue) -> Value {
    match value {
        JsonValue::Null => Value::Null,
        JsonValue::Bool(b) => Value::Bool(*b),
        JsonValue::Number(n) => Value::from(*n),
        JsonValue::Str(s) => Value::String(s.clone()),
        JsonValue::Array(items) => Value::Array(items.iter().map(to_json).collect()),
        JsonValue::Object(fields) => {
            let mut map = serde_json::Map::new();
            for (key, field) in fields {
                map.insert(key.clone(), to_json(field));
            }
            Value::Object(map)
        }
    }
}

fn rule(name: &str, priority: u32, path_prefix: Option<&str>, action: RuleAction) -> SecurityRule {
    SecurityRule {
        name: name.to_string(),
        priority,
        path_prefix: path_prefix.map(|p| p.to_string()),
        action,
    }
}

fn app(hostname: &str, routes: Vec<Route>, rules: Vec<SecurityRule>) -> Application {
    Application {
        hostname: hostname.to_string(),
        routes,
        rules,
    }
}

fn route(path_prefix: &str, dials: &[&str]) -> Route {
    Route {
        path_prefix: path_prefix.to_string(),
        upstreams: dials
            .iter()
            .map(|dial| Upstream {
                dial: dial.to_string(),
                weight: 1,
            })
            .collect(),
        balancing: LoadBalancingPolicy::LeastConn,
    }
}

#[test]
fn caddy_config_contains_routes_upstreams_and_security_headers() {
    let app = Application {
        hostname: "example.test".to_string(),
        routes: vec![Route {
            path_prefix: "/api".to_string(),
            upstreams: vec![
                Upstream {
                    dial: "app-a:8080".to_string(),
                    weight: 2,
                },
                Upstream {
                    dial: "app-b:8080".to_string(),
                    weight: 1,
                },
            ],
            balancing: LoadBalancingPolicy::RoundRobin,
        }],
        rules: vec![SecurityRule {
            name: "block-admin".to_string(),
            priority: 10,
            path_prefix: Some("/admin".to_string()),
            action: RuleAction::Block,
        }],
    };

    let config = build_caddy_config(&[app]).expect("config must be generated");
    let json = to_json(&config.0);

    assert_eq!(json["apps"]["http"]["servers"]["baia"]["listen"][0], ":443");
    assert_eq!(
        json["apps"]["http"]["servers"]["baia_http"]["listen"][0],
        ":80"
    );
    assert!(json.to_string().contains("app-a:8080"));
    assert!(json.to_string().contains("X-Content-Type-Options"));
    assert!(json.to_string().contains("block-admin"));
    assert!(
        json["apps"]["http"]["servers"]["baia_http"]["routes"]
            .to_string()
            .contains("Direct origin access is not allowed")
    );
    assert!(
        json["apps"]["http"]["servers"]["baia_http"]["routes"]
            .to_string()
            .contains("example.test")
    );
}

#[test]
fn rule_routes_come_first_in_priority_order_then_proxied_routes() {
    let app = app(
        "shop.test",
        vec![route("/", &["shop:80"])],
        vec![
            rule("late", 30, None, RuleAction::Log),
            rule("early", 10, Some("/login"), RuleAction::RateLimit),
            rule("tie", 30, Some("/x"), RuleAction::Allow),
        ],
    );

    let config = build_caddy_config(&[app]).expect("config must be generated");
    let json = to_json(&config.0);
    let routes = &json["apps"]["http"]["servers"]["baia"]["routes"];

    assert_eq!(routes.as_array().map(|r| r.len()), Some(4));
    assert_eq!(routes[0]["metadata"]["baia_rule"], "early");
    assert_eq!(routes[0]["metadata"]["priority"], 10);
    assert_eq!(routes[0]["match"][0]["path"][0], "/login*");
    assert_eq!(routes[0]["handle"][0]["status_code"], 429);
    assert_eq!(routes[1]["metadata"]["baia_rule"], "late");
    assert_eq!(routes[1]["match"][0]["path"][0], "/*");
    assert_eq!(routes[1]["handle"][0]["response"]["set"]["X-Baia-WAF"][0], "Log");
    assert_eq!(routes[2]["metadata"]["baia_rule"], "tie");
    assert_eq!(routes[2]["handle"][0]["response"]["set"]["X-Baia-WAF"][0], "allow");
    assert_eq!(routes[3]["match"][0]["host"][0], "shop.test");
    assert_eq!(routes[3]["match"][0]["path"][0], "/*");
    assert_eq!(routes[3]["handle"][0]["handler"], "headers");
    assert_eq!(routes[3]["handle"][1]["handler"], "reverse_proxy");
    assert_eq!(
        routes[3]["handle"][1]["load_balancing"]["selection_policy"]["policy"],
        "least_conn"
    );
    assert_eq!(routes[3]["handle"][1]["upstreams"][0]["dial"], "shop:80");
}

#[test]
fn sorted_rules_is_a_stable_sort_by_priority() {
    let rules = vec![
        rule("a", 5, None, RuleAction::Allow),
        rule("b", 1, None, RuleAction::Allow),
        rule("c", 5, None, RuleAction::Allow),
        rule("d", 0, None, RuleAction::Allow),
        rule("e", 1, None, RuleAction::Allow),
    ];

    assert_eq!(sorted_rules(&rules), vec![3, 1, 4, 0, 2]);
    assert_eq!(sorted_rules(&Vec::new()), Vec::<usize>::new());
}

#[test]
fn plain_http_redirects_registered_hosts_and_blocks_the_rest() {
    let apps = vec![
        app("a.test", vec![route("/", &["a:80"])], Vec::new()),
        app("b.test", vec![route("/", &["b:80"])], Vec::new()),
    ];
    let config = build_caddy_config(&apps).expect("config must be generated");
    let json = to_json(&config.0);
    let routes = &json["apps"]["http"]["servers"]["baia_http"]["routes"];

    assert_eq!(routes[0]["match"][0]["host"], Value::Array(vec![Value::from("a.test"), Value::from("b.test")]));
    assert_eq!(routes[0]["handle"][0]["status_code"], 308);
    assert_eq!(
        routes[0]["handle"][0]["headers"]["Location"][0],
        "https://{http.request.host}{http.request.uri}"
    );
    assert_eq!(routes[1]["handle"][0]["status_code"], 403);

    let empty = build_caddy_config(&[]).expect("config must be generated");
    let json = to_json(&empty.0);
    let routes = &json["apps"]["http"]["servers"]["baia_http"]["routes"];
    assert_eq!(routes.as_array().map(|r| r.len()), Some(1));
    assert_eq!(routes[0]["handle"][0]["status_code"], 403);
    assert_eq!(json["apps"]["http"]["servers"]["baia"]["routes"], Value::Array(Vec::new()));
}

#[test]
fn faulty_applications_are_refused_with_the_first_error() {
    let blank = app(" \t", vec![route("/", &["a:80"])], Vec::new());
    let no_upstream = app("a.test", vec![route("/", &[])], Vec::new());
    let blank_dial = app("b.test", vec![route("/", &["b:80", "  "])], Vec::new());
    let good = app("c.test", vec![route("/", &["c:80"])], Vec::new());

    assert_eq!(
        build_caddy_config(&[good.clone(), blank.clone()]).err(),
        Some(CaddyConfigError::ApplicationWithoutHostname)
    );
    assert_eq!(
        build_caddy_config(&[no_upstream.clone(), blank.clone()]).err(),
        Some(CaddyConfigError::RouteWithoutUpstream)
    );
    assert_eq!(
        build_caddy_config(&[blank_dial.clone(), no_upstream]).err(),
        Some(CaddyConfigError::UpstreamWithoutDial)
    );
    assert!(build_caddy_config(&[good]).is_ok());
}
