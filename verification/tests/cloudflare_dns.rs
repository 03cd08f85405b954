use baia_core::cloudflare::{
    build_cloudflare_dns_plan, build_cloudflare_record_create_requests, has_invalid_dns_name_shape,
    identify_known_acme_ca, known_acme_cas, normalize_ca_name, AcmeIssuer, CloudflareDnsPlanError,
    CloudflareDnsPlanWarning, CloudflareDnsRecordType, DomainOnboardingRequest,
};
use baia_core::json::JsonValue;
use baia_core::net::{Ipv4Address, Ipv6Address};
use serde_json::Value;

fn to_json(value: &JsonValue) -> Value {
    match value {
        JsonValue::Null => Value::Null,
        JsonValue::Bool(b) => Value::Bool(*b),
        JsonValue::Number(n) => Value::from(*n),
        JsonValue::Str(s) => Value::String(s.clone()),
        JsonValue::Array(items) => Value::Array(items.iter().map(to_json).collect()),
        JsonValue::Object(fields) => {
            let mut map = serde_json::Map::new();
            for (key, field) in fields {
                map.insert(key.clone(), to_json(field));
            }
            Value::Object(map)
        }
    }
}

fn request(hostname: &str, issuer: AcmeIssuer) -> DomainOnboardingRequest {
    DomainOnboardingRequest {
        hostname: hostname.to_string(),
        ipv4_addresses: vec![Ipv4Address::new(203, 0, 113, 10)],
        ipv6_addresses: Vec::new(),
        cloudflare_proxied: false,
        baia_proxy_enabled: true,
        acme_issuer: issuer,
        wildcard_certificate: false,
    }
}

#[test]
fn cloudflare_plan_creates_a_and_aaaa_records_with_selected_proxy_mode() {
    let request = DomainOnboardingRequest {
        hostname: "app.example.test".to_string(),
        ipv4_addresses: vec![
            Ipv4Address::new(203, 0, 113, 10),
            Ipv4Address::new(203, 0, 113, 11),
        ],
        ipv6_addresses: vec![Ipv6Address::new(0x2001, 0xdb8, 0, 0, 0, 0, 0, 10)],
        cloudflare_proxied: false,
        baia_proxy_enabled: true,
        acme_issuer: AcmeIssuer::LetsEncrypt,
        wildcard_certificate: false,
    };

    let plan = build_cloudflare_dns_plan(request).expect("DNS plan must be valid");

    assert_eq!(plan.records.len(), 3);
    assert_eq!(plan.records[0].record_type, CloudflareDnsRecordType::A);
    assert_eq!(plan.records[0].name, "app.example.test");
    assert_eq!(plan.records[0].content, "203.0.113.10");
    assert_eq!(plan.records[0].proxied, Some(false));
    assert_eq!(plan.records[2].record_type, CloudflareDnsRecordType::Aaaa);
    assert_eq!(plan.records[2].content, "2001:db8::a");
    assert_eq!(plan.records[2].proxied, Some(false));
    assert!(plan.warnings.is_empty());
}

#[test]
fn cloudflare_plan_warns_when_cloudflare_proxy_is_enabled_in_front_of_baia_proxy() {
    let request = DomainOnboardingRequest {
        hostname: "app.example.test".to_string(),
        ipv4_addresses: vec![Ipv4Address::new(203, 0, 113, 10)],
        ipv6_addresses: Vec::new(),
        cloudflare_proxied: true,
        baia_proxy_enabled: true,
        acme_issuer: AcmeIssuer::LetsEncrypt,
        wildcard_certificate: false,
    };

    let plan = build_cloudflare_dns_plan(request).expect("DNS plan must be valid");

    assert_eq!(plan.records[0].proxied, Some(true));
    assert_eq!(
        plan.warnings,
        vec![CloudflareDnsPlanWarning::DoubleProxyMayBreakApplication]
    );
}

#[test]
fn cloudflare_plan_adds_caa_for_non_lets_encrypt_acme_issuer() {
    let request = DomainOnboardingRequest {
        hostname: "example.test".to_string(),
        ipv4_addresses: vec![Ipv4Address::new(203, 0, 113, 10)],
        ipv6_addresses: Vec::new(),
        cloudflare_proxied: false,
        baia_proxy_enabled: true,
        acme_issuer: AcmeIssuer::Custom {
            caa_domain: "pki.goog".to_string(),
        },
        wildcard_certificate: true,
    };

    let plan = build_cloudflare_dns_plan(request).expect("DNS plan must be valid");
    let caa_records = plan
        .records
        .iter()
        .filter(|record| record.record_type == CloudflareDnsRecordType::Caa)
        .collect::<Vec<_>>();

    assert_eq!(caa_records.len(), 2);
    assert_eq!(
        caa_records[0]
            .data
            .as_ref()
            .expect("CAA must include data")
            .tag,
        "issue"
    );
    assert_eq!(
        caa_records[0]
            .data
            .as_ref()
            .expect("CAA must include data")
            .value,
        "pki.goog"
    );
    assert_eq!(
        caa_records[1]
            .data
            .as_ref()
            .expect("CAA must include data")
            .tag,
        "issuewild"
    );
    assert_eq!(caa_records[1].proxied, None);
}

#[test]
fn cloudflare_plan_rejects_domain_without_origin_address() {
    let request = DomainOnboardingRequest {
        hostname: "app.example.test".to_string(),
        ipv4_addresses: Vec::new(),
        ipv6_addresses: Vec::new(),
        cloudflare_proxied: false,
        baia_proxy_enabled: true,
        acme_issuer: AcmeIssuer::LetsEncrypt,
        wildcard_certificate: false,
    };

    let error = build_cloudflare_dns_plan(request).expect_err("origin address must be required");

    assert_eq!(
        error.message(),
        "at least one origin A or AAAA address is required"
    );
}

#[test]
fn known_acme_ca_catalog_identifies_common_caa_domains_by_alias() {
    let known = known_acme_cas();

    assert!(
        known
            .iter()
            .any(|ca| ca.name == "Let's Encrypt" && ca.caa_domain == "letsencrypt.org")
    );
    assert!(
        known
            .iter()
            .any(|ca| ca.name == "Google Trust Services" && ca.caa_domain == "pki.goog")
    );
    assert!(
        known
            .iter()
            .any(|ca| ca.name == "Sectigo" && ca.caa_domain == "sectigo.com")
    );

    assert_eq!(
        identify_known_acme_ca("google public ca")
            .expect("Google Public CA must be recognized")
            .caa_domain,
        "pki.goog"
    );
    assert_eq!(
        identify_known_acme_ca("zerossl")
            .expect("ZeroSSL must be recognized")
            .caa_domain,
        "sectigo.com"
    );
}

#[test]
fn cloudflare_create_record_requests_match_cloudflare_dns_api_shape() {
    let request = DomainOnboardingRequest {
        hostname: "example.test".to_string(),
        ipv4_addresses: vec![Ipv4Address::new(203, 0, 113, 10)],
        ipv6_addresses: Vec::new(),
        cloudflare_proxied: true,
        baia_proxy_enabled: true,
        acme_issuer: AcmeIssuer::Custom {
            caa_domain: "pki.goog".to_string(),
        },
        wildcard_certificate: false,
    };
    let plan = build_cloudflare_dns_plan(request).expect("DNS plan must be valid");

    let requests = build_cloudflare_record_create_requests("zone_123", &plan);
    let bodies = requests.iter().map(|r| to_json(&r.body)).collect::<Vec<_>>();

    assert_eq!(requests.len(), 2);
    assert_eq!(requests[0].method, "POST");
    assert_eq!(requests[0].path, "/zones/zone_123/dns_records");
    assert_eq!(bodies[0]["type"], "A");
    assert_eq!(bodies[0]["proxied"], true);
    assert_eq!(bodies[1]["type"], "CAA");
    assert_eq!(bodies[1]["data"]["tag"], "issue");
    assert_eq!(bodies[1]["data"]["value"], "pki.goog");
    assert!(bodies[1].get("proxied").is_none());
}

#[test]
fn caa_record_content_names_the_tag_and_the_ca_domain() {
    let plan = build_cloudflare_dns_plan(request(
        "example.test",
        AcmeIssuer::Custom {
            caa_domain: "sectigo.com".to_string(),
        },
    ))
    .expect("DNS plan must be valid");

    assert_eq!(plan.records.len(), 2);
    assert_eq!(plan.records[1].content, "0 issue \"sectigo.com\"");
    assert_eq!(plan.records[1].ttl, 1);
    assert_eq!(plan.records[1].data.as_ref().map(|d| d.flags), Some(0));
    assert_eq!(plan.records[1].name, "example.test");
}

#[test]
fn plan_errors_follow_the_documented_order() {
    let cases = [
        ("", AcmeIssuer::LetsEncrypt, CloudflareDnsPlanError::EmptyHostname),
        ("   ", AcmeIssuer::LetsEncrypt, CloudflareDnsPlanError::EmptyHostname),
        ("https://example.test", AcmeIssuer::LetsEncrypt, CloudflareDnsPlanError::InvalidHostname),
        ("example.test/path", AcmeIssuer::LetsEncrypt, CloudflareDnsPlanError::InvalidHostname),
        ("bad host.test", AcmeIssuer::LetsEncrypt, CloudflareDnsPlanError::InvalidHostname),
        (".example.test", AcmeIssuer::LetsEncrypt, CloudflareDnsPlanError::InvalidHostname),
        ("example.test.", AcmeIssuer::LetsEncrypt, CloudflareDnsPlanError::InvalidHostname),
        ("example..test", AcmeIssuer::LetsEncrypt, CloudflareDnsPlanError::InvalidHostname),
        (
            "example.test",
            AcmeIssuer::Custom { caa_domain: " ".to_string() },
            CloudflareDnsPlanError::MissingCaaDomain,
        ),
        (
            "example.test",
            AcmeIssuer::Custom { caa_domain: "ca\\example".to_string() },
            CloudflareDnsPlanError::InvalidCaaDomain,
        ),
    ];
    for (hostname, issuer, expected) in cases {
        let error = build_cloudflare_dns_plan(request(hostname, issuer)).expect_err("must be refused");
        assert_eq!(error, expected);
    }
    assert_eq!(CloudflareDnsPlanError::EmptyHostname.message(), "hostname is required");
}

#[test]
fn dns_name_shape_check() {
    assert!(!has_invalid_dns_name_shape("app.example.test"));
    assert!(!has_invalid_dns_name_shape("xn--bcher-kva.example"));
    assert!(has_invalid_dns_name_shape(""));
    assert!(has_invalid_dns_name_shape("a\u{3000}b"));
    assert!(has_invalid_dns_name_shape("a..b"));
    assert!(has_invalid_dns_name_shape("ftp://a"));
}

#[test]
fn ipv6_addresses_are_written_in_canonical_form() {
    let text = |s: [u16; 8]| Ipv6Address { segments: s }.to_text();

    assert_eq!(text([0, 0, 0, 0, 0, 0, 0, 0]), "::");
    assert_eq!(text([0, 0, 0, 0, 0, 0, 0, 1]), "::1");
    assert_eq!(text([1, 0, 0, 0, 0, 0, 0, 0]), "1::");
    assert_eq!(text([0x2001, 0xdb8, 0, 0, 1, 0, 0, 1]), "2001:db8::1:0:0:1");
    assert_eq!(text([0x2001, 0, 0xdb8, 0, 0, 0, 0, 0xff]), "2001:0:db8::ff");
    assert_eq!(text([1, 2, 3, 4, 5, 6, 7, 8]), "1:2:3:4:5:6:7:8");
    assert_eq!(text([0, 0, 0, 0, 0, 0xffff, 0xc000, 0x0280]), "::ffff:192.0.2.128");
    assert_eq!(text([0xfe80, 0, 0, 0, 0xabcd, 0, 0, 0xffff]), "fe80::abcd:0:0:ffff");
    assert_eq!(text([0x2001, 0xdb8, 0, 0, 0, 0, 0, 10]), "2001:db8::a");
    assert_eq!(text([0, 0, 0, 0, 0, 0, 0xc000, 0x0280]), "::c000:280");
    assert_eq!(text([0, 0xffff, 0, 0, 0, 0, 0, 0]), "0:ffff::");
    assert_eq!(text([0xabcd, 0, 0, 0xffff, 0, 0, 0, 7]), "abcd:0:0:ffff::7");
    assert_eq!(text([1, 0, 0, 2, 0, 0, 3, 4]), "1::2:0:0:3:4");
    assert_eq!(Ipv4Address::new(0, 10, 255, 7).to_text(), "0.10.255.7");
}

#[test]
fn ca_names_are_normalized_before_comparison() {
    assert_eq!(normalize_ca_name("  Let's Encrypt "), "letsencrypt");
    assert_eq!(normalize_ca_name("PKI.GOOG"), "pki.goog");
    assert_eq!(
        identify_known_acme_ca("LETSENCRYPT.ORG").map(|ca| ca.name),
        Some("Let's Encrypt")
    );
    assert_eq!(identify_known_acme_ca("sectigo.com").map(|ca| ca.name), Some("Sectigo"));
    assert_eq!(identify_known_acme_ca("Zero SSL").map(|ca| ca.name), Some("ZeroSSL"));
    assert!(identify_known_acme_ca("unknown authority").is_none());
    assert_eq!(known_acme_cas().len(), 8);
}

#[test]
fn every_catalog_key_identifies_a_ca_with_its_caa_domain() {
    for ca in known_acme_cas() {
        let mut keys = vec![ca.name, ca.caa_domain];
        keys.extend(ca.aliases.iter().copied());
        for key in keys {
            let found = identify_known_acme_ca(key).expect("every catalog key must be recognized");
            assert_eq!(found.caa_domain, ca.caa_domain, "key {key}");
        }
    }
}

#[test]
fn case_outer_spaces_and_punctuation_are_ignored() {
    let first = identify_known_acme_ca("  Let's-Encrypt ").map(|ca| ca.name);
    assert_eq!(first, Some("Let's Encrypt"));
    assert_eq!(identify_known_acme_ca("LETSENCRYPT").map(|ca| ca.name), first);
    assert_eq!(normalize_ca_name("  Let's-Encrypt "), "letsencrypt");
    assert!(identify_known_acme_ca("example ca").is_none());
}
