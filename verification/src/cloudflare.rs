//! Planning of the Cloudflare DNS records that put a domain behind the WAF,
//! and the catalog of known ACME certificate authorities.
use vstd::prelude::*;
use crate::json::{
    field, fields_of, json_of, json_text, lemma_field_value_absent, lemma_field_value_at, member,
    object, object3, Json, JsonValue,
};
use crate::net::{ipv4_text, ipv6_text, Ipv4Address, Ipv6Address};
use crate::text::{
    chars_of, concat, contains_char, contains_char_in, contains_chars, contains_seq,
    is_ascii_alphanumeric, is_ascii_alphanumeric_char, is_blank, is_blank_str, is_white_space,
    is_white_space_char, string_from_chars, to_lowercase, trim, trim_chars, lowercase_text,
};

verus! {

/// A request to onboard a domain: the origin addresses and how the domain
/// is proxied and certified.
#[derive(Debug, Clone, PartialEq, Eq)]
pub struct DomainOnboardingRequest {
    pub hostname: String,
    pub ipv4_addresses: Vec<Ipv4Address>,
    pub ipv6_addresses: Vec<Ipv6Address>,
    pub cloudflare_proxied: bool,
    pub baia_proxy_enabled: bool,
    pub acme_issuer: AcmeIssuer,
    pub wildcard_certificate: bool,
}

#[derive(Debug, Clone, PartialEq, Eq)]
pub enum AcmeIssuer {
    LetsEncrypt,
    Custom { caa_domain: String },
}

#[derive(Debug, Clone, PartialEq, Eq)]
pub struct CloudflareDnsPlan {
    pub records: Vec<CloudflareDnsRecord>,
    pub warnings: Vec<CloudflareDnsPlanWarning>,
}

#[derive(Debug, Clone, PartialEq, Eq)]
pub struct CloudflareDnsRecord {
    pub record_type: CloudflareDnsRecordType,
    pub name: String,
    pub content: String,
    pub ttl: u32,
    pub proxied: Option<bool>,
    pub data: Option<CaaRecordData>,
}

#[derive(Debug, Clone, Copy, PartialEq, Eq, Structural)]
pub enum CloudflareDnsRecordType {
    A,
    Aaaa,
    Caa,
}

#[derive(Debug, Clone, PartialEq, Eq)]
pub struct CaaRecordData {
    pub flags: u8,
    pub tag: String,
    pub value: String,
}

/// A certificate authority that issues over ACME, with the domain its CAA
/// records name and the names it is also known by.
#[derive(Debug, Clone, PartialEq, Eq)]
pub struct KnownAcmeCa {
    pub name: &'static str,
    pub caa_domain: &'static str,
    pub aliases: Vec<&'static str>,
}

/// A call to the Cloudflare API.
#[derive(Debug)]
pub struct CloudflareApiRequest {
    pub method: &'static str,
    pub path: String,
    pub body: JsonValue,
}

#[derive(Debug, Clone, Copy, PartialEq, Eq, Structural)]
pub enum CloudflareDnsPlanWarning {
    DoubleProxyMayBreakApplication,
}

#[derive(Debug, Clone, Copy, PartialEq, Eq, Structural)]
pub enum CloudflareDnsPlanError {
    EmptyHostname,
    InvalidHostname,
    MissingOriginAddress,
    MissingCaaDomain,
    InvalidCaaDomain,
}

// ----- Model -----

pub struct CaaDataModel {
    pub flags: u8,
    pub tag: Seq<char>,
    pub value: Seq<char>,
}

pub struct DnsRecordModel {
    pub record_type: CloudflareDnsRecordType,
    pub name: Seq<char>,
    pub content: Seq<char>,
    pub ttl: nat,
    pub proxied: Option<bool>,
    pub data: Option<CaaDataModel>,
}

pub open spec fn record_model(r: CloudflareDnsRecord) -> DnsRecordModel {
    DnsRecordModel {
        record_type: r.record_type,
        name: r.name@,
        content: r.content@,
        ttl: r.ttl as nat,
        proxied: r.proxied,
        data: match r.data {
            Some(d) => Some(CaaDataModel { flags: d.flags, tag: d.tag@, value: d.value@ }),
            None => None,
        },
    }
}

pub open spec fn records_model(rs: Seq<CloudflareDnsRecord>) -> Seq<DnsRecordModel> {
    rs.map_values(|r: CloudflareDnsRecord| record_model(r))
}

/// A record that points `name` at an origin address; `ttl` 1 is automatic.
pub open spec fn address_record(
    record_type: CloudflareDnsRecordType,
    name: Seq<char>,
    content: Seq<char>,
    proxied: bool,
) -> DnsRecordModel {
    DnsRecordModel { record_type, name, content, ttl: 1, proxied: Some(proxied), data: None }
}

/// A CAA record on `name` with tag `tag` naming the CA domain `value`.
pub open spec fn caa_record_model(name: Seq<char>, tag: Seq<char>, value: Seq<char>) -> DnsRecordModel {
    DnsRecordModel {
        record_type: CloudflareDnsRecordType::Caa,
        name,
        content: "0 "@ + tag + " \""@ + value + "\""@,
        ttl: 1,
        proxied: None,
        data: Some(CaaDataModel { flags: 0, tag, value }),
    }
}

pub open spec fn address_records(req: DomainOnboardingRequest) -> Seq<DnsRecordModel> {
    req.ipv4_addresses@.map_values(
        |a: Ipv4Address|
            address_record(
                CloudflareDnsRecordType::A,
                req.hostname@,
                ipv4_text(a.octets@),
                req.cloudflare_proxied,
            ),
    ) + req.ipv6_addresses@.map_values(
        |a: Ipv6Address|
            address_record(
                CloudflareDnsRecordType::Aaaa,
                req.hostname@,
                ipv6_text(a.segments@),
                req.cloudflare_proxied,
            ),
    )
}

/// CAA records: none for Let's Encrypt; for another CA an `issue` record
/// and, for a wildcard certificate, an `issuewild` record.
pub open spec fn caa_records(req: DomainOnboardingRequest) -> Seq<DnsRecordModel> {
    match req.acme_issuer {
        AcmeIssuer::LetsEncrypt => seq![],
        AcmeIssuer::Custom { caa_domain } => if req.wildcard_certificate {
            seq![
                caa_record_model(req.hostname@, "issue"@, caa_domain@),
                caa_record_model(req.hostname@, "issuewild"@, caa_domain@),
            ]
        } else {
            seq![caa_record_model(req.hostname@, "issue"@, caa_domain@)]
        },
    }
}

pub open spec fn planned_records(req: DomainOnboardingRequest) -> Seq<DnsRecordModel> {
    address_records(req) + caa_records(req)
}

/// A dot-separated label of `v` is empty: `v` is empty, starts or ends with
/// a dot, or holds two dots in a row.
pub open spec fn has_empty_label(v: Seq<char>) -> bool {
    v.len() == 0 || v[0] == '.' || v.last() == '.' || contains_seq(v, ".."@)
}

/// `v` is not a bare DNS name: it holds a scheme, a path, a backslash or
/// white space, starts or ends with a dot, or has an empty label.
pub open spec fn invalid_dns_name_shape(v: Seq<char>) -> bool {
    ||| contains_seq(v, "://"@)
    ||| contains_char(v, '/')
    ||| contains_char(v, '\\')
    ||| exists|i: int| 0 <= i < v.len() && is_white_space(#[trigger] v[i])
    ||| (v.len() > 0 && v[0] == '.')
    ||| (v.len() > 0 && v.last() == '.')
    ||| has_empty_label(v)
}

pub open spec fn hostname_error(h: Seq<char>) -> Option<CloudflareDnsPlanError> {
    if is_blank(h) {
        Some(CloudflareDnsPlanError::EmptyHostname)
    } else if invalid_dns_name_shape(h) {
        Some(CloudflareDnsPlanError::InvalidHostname)
    } else {
        None
    }
}

pub open spec fn issuer_error(issuer: AcmeIssuer) -> Option<CloudflareDnsPlanError> {
    match issuer {
        AcmeIssuer::LetsEncrypt => None,
        AcmeIssuer::Custom { caa_domain } => if is_blank(caa_domain@) {
            Some(CloudflareDnsPlanError::MissingCaaDomain)
        } else if invalid_dns_name_shape(caa_domain@) {
            Some(CloudflareDnsPlanError::InvalidCaaDomain)
        } else {
            None
        },
    }
}

/// Why a request is refused, checked in this order: the hostname, the
/// origin addresses, the CAA domain.
pub open spec fn plan_error(req: DomainOnboardingRequest) -> Option<CloudflareDnsPlanError> {
    if hostname_error(req.hostname@) is Some {
        hostname_error(req.hostname@)
    } else if req.ipv4_addresses@.len() == 0 && req.ipv6_addresses@.len() == 0 {
        Some(CloudflareDnsPlanError::MissingOriginAddress)
    } else {
        issuer_error(req.acme_issuer)
    }
}

/// The double-proxy warning comes exactly when Cloudflare proxies in front
/// of the WAF's own proxy.
pub open spec fn plan_warnings(req: DomainOnboardingRequest) -> Seq<CloudflareDnsPlanWarning> {
    if req.cloudflare_proxied && req.baia_proxy_enabled {
        seq![CloudflareDnsPlanWarning::DoubleProxyMayBreakApplication]
    } else {
        seq![]
    }
}

pub open spec fn plan_error_message(e: CloudflareDnsPlanError) -> Seq<char> {
    match e {
        CloudflareDnsPlanError::EmptyHostname => "hostname is required"@,
        CloudflareDnsPlanError::InvalidHostname => "hostname must be a DNS name without scheme, path or spaces"@,
        CloudflareDnsPlanError::MissingOriginAddress => "at least one origin A or AAAA address is required"@,
        CloudflareDnsPlanError::MissingCaaDomain => "CAA domain is required for custom ACME issuer"@,
        CloudflareDnsPlanError::InvalidCaaDomain => "CAA domain must be a DNS name without scheme, path or spaces"@,
    }
}

impl CloudflareDnsPlanError {
    /// The message shown to the operator.
    pub fn message(&self) -> (r: &'static str)
        ensures
            r@ == plan_error_message(*self),
    {
        match self {
            CloudflareDnsPlanError::EmptyHostname => "hostname is required",
            CloudflareDnsPlanError::InvalidHostname => "hostname must be a DNS name without scheme, path or spaces",
            CloudflareDnsPlanError::MissingOriginAddress => "at least one origin A or AAAA address is required",
            CloudflareDnsPlanError::MissingCaaDomain => "CAA domain is required for custom ACME issuer",
            CloudflareDnsPlanError::InvalidCaaDomain => "CAA domain must be a DNS name without scheme, path or spaces",
        }
    }
}

// ----- Validation -----

/// Whether `value` is not a bare DNS name.
pub fn has_invalid_dns_name_shape(value: &str) -> (r: bool)
    ensures
        r == invalid_dns_name_shape(value@),
{
    let cs = chars_of(value);
    let scheme = chars_of("://");
    let double_dot = chars_of("..");
    if contains_chars(&cs, &scheme) || contains_char_in(&cs, '/') || contains_char_in(&cs, '\\') {
        return true;
    }
    let mut i: usize = 0;
    while i < cs.len()
        invariant
            i <= cs.len(),
            cs@ == value@,
            forall|k: int| 0 <= k < i ==> !is_white_space(#[trigger] cs@[k]),
        decreases cs.len() - i,
    {
        if is_white_space_char(cs[i]) {
            return true;
        }
        i = i + 1;
    }
    let n = cs.len();
    if n > 0 && (cs[0] == '.' || cs[n - 1] == '.') {
        return true;
    }
    n == 0 || contains_chars(&cs, &double_dot)
}

fn validate_hostname(hostname: &str) -> (r: Result<(), CloudflareDnsPlanError>)
    ensures
        match hostname_error(hostname@) {
            Some(e) => r == Err::<(), CloudflareDnsPlanError>(e),
            None => r is Ok,
        },
{
    if is_blank_str(hostname) {
        return Err(CloudflareDnsPlanError::EmptyHostname);
    }
    if has_invalid_dns_name_shape(hostname) {
        return Err(CloudflareDnsPlanError::InvalidHostname);
    }
    Ok(())
}

fn validate_caa_domain(domain: &str) -> (r: Result<(), CloudflareDnsPlanError>)
    ensures
        r == if invalid_dns_name_shape(domain@) {
            Err::<(), CloudflareDnsPlanError>(CloudflareDnsPlanError::InvalidCaaDomain)
        } else {
            Ok(())
        },
{
    if has_invalid_dns_name_shape(domain) {
        return Err(CloudflareDnsPlanError::InvalidCaaDomain);
    }
    Ok(())
}

// ----- Planning -----

fn caa_record(hostname: &str, tag: &str, value: &str) -> (r: CloudflareDnsRecord)
    ensures
        record_model(r) == caa_record_model(hostname@, tag@, value@),
{
    let content = concat(concat(concat(concat("0 ", tag).as_str(), " \"").as_str(), value).as_str(), "\"");
    CloudflareDnsRecord {
        record_type: CloudflareDnsRecordType::Caa,
        name: hostname.to_string(),
        content,
        ttl: 1,
        proxied: None,
        data: Some(CaaRecordData { flags: 0, tag: tag.to_string(), value: value.to_string() }),
    }
}

fn push_record(records: &mut Vec<CloudflareDnsRecord>, r: CloudflareDnsRecord)
    ensures
        records_model(final(records)@) == records_model(old(records)@).push(record_model(r)),
{
    let ghost m = record_model(r);
    records.push(r);
    assert(records_model(records@) =~= records_model(old(records)@).push(m));
}

fn append_caa_records(records: &mut Vec<CloudflareDnsRecord>, request: &DomainOnboardingRequest) -> (r:
    Result<(), CloudflareDnsPlanError>)
    ensures
        match issuer_error(request.acme_issuer) {
            Some(e) => r == Err::<(), CloudflareDnsPlanError>(e),
            None => r is Ok && records_model(final(records)@) == records_model(old(records)@)
                + caa_records(*request),
        },
{
    match &request.acme_issuer {
        AcmeIssuer::LetsEncrypt => {
            assert(records_model(records@) =~= records_model(old(records)@) + caa_records(*request));
            Ok(())
        },
        AcmeIssuer::Custom { caa_domain } => {
            if is_blank_str(caa_domain.as_str()) {
                return Err(CloudflareDnsPlanError::MissingCaaDomain);
            }
            validate_caa_domain(caa_domain.as_str())?;
            push_record(records, caa_record(request.hostname.as_str(), "issue", caa_domain.as_str()));
            if request.wildcard_certificate {
                push_record(
                    records,
                    caa_record(request.hostname.as_str(), "issuewild", caa_domain.as_str()),
                );
            }
            assert(records_model(records@) =~= records_model(old(records)@) + caa_records(*request));
            Ok(())
        },
    }
}

/// Plans the DNS records for a domain: an `A` record per IPv4 origin, then
/// an `AAAA` record per IPv6 origin, all proxied as requested, then the CAA
/// records that a CA other than Let's Encrypt needs.  It warns when
/// Cloudflare would proxy in front of the WAF's own proxy.
pub fn build_cloudflare_dns_plan(request: DomainOnboardingRequest) -> (r: Result<
    CloudflareDnsPlan,
    CloudflareDnsPlanError,
>)
    ensures
        match plan_error(request) {
            Some(e) => r matches Err(x) && x == e,
            None => r matches Ok(plan) && records_model(plan.records@) == planned_records(request)
                && plan.warnings@ == plan_warnings(request),
        },
{
    validate_hostname(request.hostname.as_str())?;
    if request.ipv4_addresses.len() == 0 && request.ipv6_addresses.len() == 0 {
        return Err(CloudflareDnsPlanError::MissingOriginAddress);
    }
    let ghost v4_model = request.ipv4_addresses@.map_values(
        |a: Ipv4Address|
            address_record(
                CloudflareDnsRecordType::A,
                request.hostname@,
                ipv4_text(a.octets@),
                request.cloudflare_proxied,
            ),
    );
    let ghost v6_model = request.ipv6_addresses@.map_values(
        |a: Ipv6Address|
            address_record(
                CloudflareDnsRecordType::Aaaa,
                request.hostname@,
                ipv6_text(a.segments@),
                request.cloudflare_proxied,
            ),
    );
    let mut records: Vec<CloudflareDnsRecord> = Vec::new();
    let mut i: usize = 0;
    while i < request.ipv4_addresses.len()
        invariant
            i <= request.ipv4_addresses.len(),
            v4_model == request.ipv4_addresses@.map_values(
                |a: Ipv4Address|
                    address_record(
                        CloudflareDnsRecordType::A,
                        request.hostname@,
                        ipv4_text(a.octets@),
                        request.cloudflare_proxied,
                    ),
            ),
            records_model(records@) == v4_model.take(i as int),
        decreases request.ipv4_addresses.len() - i,
    {
        let address = &request.ipv4_addresses[i];
        push_record(
            &mut records,
            CloudflareDnsRecord {
                record_type: CloudflareDnsRecordType::A,
                name: request.hostname.clone(),
                content: address.to_text(),
                ttl: 1,
                proxied: Some(request.cloudflare_proxied),
                data: None,
            },
        );
        i = i + 1;
        assert(v4_model.take(i as int) =~= v4_model.take(i - 1).push(v4_model[i - 1]));
    }
    assert(v4_model.take(i as int) =~= v4_model);
    let mut j: usize = 0;
    while j < request.ipv6_addresses.len()
        invariant
            j <= request.ipv6_addresses.len(),
            v6_model == request.ipv6_addresses@.map_values(
                |a: Ipv6Address|
                    address_record(
                        CloudflareDnsRecordType::Aaaa,
                        request.hostname@,
                        ipv6_text(a.segments@),
                        request.cloudflare_proxied,
                    ),
            ),
            records_model(records@) == v4_model + v6_model.take(j as int),
        decreases request.ipv6_addresses.len() - j,
    {
        let address = &request.ipv6_addresses[j];
        push_record(
            &mut records,
            CloudflareDnsRecord {
                record_type: CloudflareDnsRecordType::Aaaa,
                name: request.hostname.clone(),
                content: address.to_text(),
                ttl: 1,
                proxied: Some(request.cloudflare_proxied),
                data: None,
            },
        );
        j = j + 1;
        assert(v4_model + v6_model.take(j as int) =~= (v4_model + v6_model.take(j - 1)).push(
            v6_model[j - 1],
        ));
    }
    assert(v6_model.take(j as int) =~= v6_model);
    append_caa_records(&mut records, &request)?;
    let warnings = if request.cloudflare_proxied && request.baia_proxy_enabled {
        vec![CloudflareDnsPlanWarning::DoubleProxyMayBreakApplication]
    } else {
        Vec::new()
    };
    assert(warnings@ =~= plan_warnings(request));
    Ok(CloudflareDnsPlan { records, warnings })
}


// ----- Cloudflare API requests -----

pub open spec fn record_type_name(t: CloudflareDnsRecordType) -> Seq<char> {
    match t {
        CloudflareDnsRecordType::A => "A"@,
        CloudflareDnsRecordType::Aaaa => "AAAA"@,
        CloudflareDnsRecordType::Caa => "CAA"@,
    }
}

impl CloudflareDnsRecordType {
    /// The record type as the Cloudflare API names it.
    pub fn as_cloudflare_type(&self) -> (r: &'static str)
        ensures
            r@ == record_type_name(*self),
    {
        match self {
            CloudflareDnsRecordType::A => "A",
            CloudflareDnsRecordType::Aaaa => "AAAA",
            CloudflareDnsRecordType::Caa => "CAA",
        }
    }
}

/// The body that creates a record: type, name, content and ttl, then
/// `proxied` when the record has a proxy mode and `data` when it is a CAA
/// record.
pub open spec fn record_body_json(r: CloudflareDnsRecord) -> Json {
    let base = seq![
        ("type"@, Json::Str(record_type_name(r.record_type))),
        ("name"@, Json::Str(r.name@)),
        ("content"@, Json::Str(r.content@)),
        ("ttl"@, Json::Number(r.ttl as nat)),
    ];
    let with_proxied = match r.proxied {
        Some(p) => base.push(("proxied"@, Json::Bool(p))),
        None => base,
    };
    Json::Object(
        match r.data {
            Some(d) => with_proxied.push(
                (
                    "data"@,
                    Json::Object(
                        seq![
                            ("flags"@, Json::Number(d.flags as nat)),
                            ("tag"@, Json::Str(d.tag@)),
                            ("value"@, Json::Str(d.value@)),
                        ],
                    ),
                ),
            ),
            None => with_proxied,
        },
    )
}

pub open spec fn record_path(zone_id: Seq<char>) -> Seq<char> {
    "/zones/"@ + zone_id + "/dns_records"@
}

fn push_field(fields: &mut Vec<(String, JsonValue)>, key: &str, value: JsonValue)
    ensures
        fields_of(final(fields)@) == fields_of(old(fields)@).push((key@, json_of(value))),
{
    let ghost g = json_of(value);
    fields.push(field(key, value));
    assert(fields_of(fields@) =~= fields_of(old(fields)@).push((key@, g)));
}

fn cloudflare_record_body(record: &CloudflareDnsRecord) -> (r: JsonValue)
    ensures
        json_of(r) == record_body_json(*record),
{
    let mut fields: Vec<(String, JsonValue)> = Vec::new();
    assert(fields_of(fields@) =~= seq![]);
    push_field(&mut fields, "type", json_text(record.record_type.as_cloudflare_type()));
    push_field(&mut fields, "name", json_text(record.name.as_str()));
    push_field(&mut fields, "content", json_text(record.content.as_str()));
    push_field(&mut fields, "ttl", JsonValue::Number(record.ttl as u64));
    let ghost base = seq![
        ("type"@, Json::Str(record_type_name(record.record_type))),
        ("name"@, Json::Str(record.name@)),
        ("content"@, Json::Str(record.content@)),
        ("ttl"@, Json::Number(record.ttl as nat)),
    ];
    assert(fields_of(fields@) =~= base);
    let ghost with_proxied = match record.proxied {
        Some(p) => base.push(("proxied"@, Json::Bool(p))),
        None => base,
    };
    if let Some(proxied) = record.proxied {
        push_field(&mut fields, "proxied", JsonValue::Bool(proxied));
    }
    assert(fields_of(fields@) == with_proxied);
    if let Some(data) = &record.data {
        push_field(
            &mut fields,
            "data",
            object3(
                "flags",
                JsonValue::Number(data.flags as u64),
                "tag",
                json_text(data.tag.as_str()),
                "value",
                json_text(data.value.as_str()),
            ),
        );
    }
    object(fields)
}

/// One create call per planned record, in order: `POST
/// /zones/{zone_id}/dns_records` with the record's body.
pub fn build_cloudflare_record_create_requests(zone_id: &str, plan: &CloudflareDnsPlan) -> (r: Vec<
    CloudflareApiRequest,
>)
    ensures
        r@.len() == plan.records@.len(),
        forall|i: int|
            0 <= i < r@.len() ==> {
                &&& (#[trigger] r@[i]).method@ == "POST"@
                &&& r@[i].path@ == record_path(zone_id@)
                &&& json_of(r@[i].body) == record_body_json(plan.records@[i])
            },
{
    let mut requests: Vec<CloudflareApiRequest> = Vec::new();
    let mut i: usize = 0;
    while i < plan.records.len()
        invariant
            i <= plan.records.len(),
            requests@.len() == i,
            forall|k: int|
                0 <= k < i ==> {
                    &&& (#[trigger] requests@[k]).method@ == "POST"@
                    &&& requests@[k].path@ == record_path(zone_id@)
                    &&& json_of(requests@[k].body) == record_body_json(plan.records@[k])
                },
        decreases plan.records.len() - i,
    {
        let path = concat(concat("/zones/", zone_id).as_str(), "/dns_records");
        requests.push(
            CloudflareApiRequest {
                method: "POST",
                path,
                body: cloudflare_record_body(&plan.records[i]),
            },
        );
        i = i + 1;
    }
    requests
}


// ----- Known ACME certificate authorities -----

pub open spec fn ca_model(ca: KnownAcmeCa) -> (Seq<char>, Seq<char>, Seq<Seq<char>>) {
    (ca.name@, ca.caa_domain@, ca.aliases@.map_values(|a: &str| a@))
}

/// The known CAs: name, CAA domain and aliases.
pub open spec fn known_acme_ca_table() -> Seq<(Seq<char>, Seq<char>, Seq<Seq<char>>)> {
    seq![
        ("Let's Encrypt"@, "letsencrypt.org"@, seq!["lets encrypt"@, "letsencrypt"@, "let's encrypt"@, "le"@]),
        (
            "Google Trust Services"@,
            "pki.goog"@,
            seq!["google"@, "google trust services"@, "google public ca"@, "gts"@, "pki.goog"@],
        ),
        ("Sectigo"@, "sectigo.com"@, seq!["sectigo"@, "comodo"@, "usertrust"@, "trust-provider"@]),
        ("ZeroSSL"@, "sectigo.com"@, seq!["zerossl"@, "zero ssl"@]),
        ("DigiCert"@, "digicert.com"@, seq!["digicert"@, "rapidssl"@, "geotrust"@, "thawte"@]),
        ("GlobalSign"@, "globalsign.com"@, seq!["globalsign"@, "global sign"@]),
        ("SSL.com"@, "ssl.com"@, seq!["ssl.com"@, "sslcom"@]),
        ("Buypass"@, "buypass.com"@, seq!["buypass"@, "buypass go ssl"@]),
    ]
}

fn known_ca(name: &'static str, caa_domain: &'static str, aliases: Vec<&'static str>) -> (r: KnownAcmeCa)
    ensures
        r.name@ == name@,
        r.caa_domain@ == caa_domain@,
        r.aliases@ == aliases@,
{
    KnownAcmeCa { name, caa_domain, aliases }
}

/// The catalog of known ACME certificate authorities.
pub fn known_acme_cas() -> (r: Vec<KnownAcmeCa>)
    ensures
        r@.map_values(|ca: KnownAcmeCa| ca_model(ca)) == known_acme_ca_table(),
{
    let a0 = vec!["lets encrypt", "letsencrypt", "let's encrypt", "le"];
    let a1 = vec!["google", "google trust services", "google public ca", "gts", "pki.goog"];
    let a2 = vec!["sectigo", "comodo", "usertrust", "trust-provider"];
    let a3 = vec!["zerossl", "zero ssl"];
    let a4 = vec!["digicert", "rapidssl", "geotrust", "thawte"];
    let a5 = vec!["globalsign", "global sign"];
    let a6 = vec!["ssl.com", "sslcom"];
    let a7 = vec!["buypass", "buypass go ssl"];
    let ghost t = known_acme_ca_table();
    assert(a0@.map_values(|a: &str| a@) =~= t[0].2);
    assert(a1@.map_values(|a: &str| a@) =~= t[1].2);
    assert(a2@.map_values(|a: &str| a@) =~= t[2].2);
    assert(a3@.map_values(|a: &str| a@) =~= t[3].2);
    assert(a4@.map_values(|a: &str| a@) =~= t[4].2);
    assert(a5@.map_values(|a: &str| a@) =~= t[5].2);
    assert(a6@.map_values(|a: &str| a@) =~= t[6].2);
    assert(a7@.map_values(|a: &str| a@) =~= t[7].2);
    let r = vec![
        known_ca("Let's Encrypt", "letsencrypt.org", a0),
        known_ca("Google Trust Services", "pki.goog", a1),
        known_ca("Sectigo", "sectigo.com", a2),
        known_ca("ZeroSSL", "sectigo.com", a3),
        known_ca("DigiCert", "digicert.com", a4),
        known_ca("GlobalSign", "globalsign.com", a5),
        known_ca("SSL.com", "ssl.com", a6),
        known_ca("Buypass", "buypass.com", a7),
    ];
    assert(r@.map_values(|ca: KnownAcmeCa| ca_model(ca)) =~= known_acme_ca_table());
    r
}

pub open spec fn is_ca_name_char(c: char) -> bool {
    is_ascii_alphanumeric(c) || c == '.'
}

/// The ASCII letters, digits and dots of `s`, in order.
pub open spec fn ca_name_chars(s: Seq<char>) -> Seq<char>
    decreases s.len(),
{
    if s.len() == 0 {
        seq![]
    } else if is_ca_name_char(s.last()) {
        ca_name_chars(s.drop_last()).push(s.last())
    } else {
        ca_name_chars(s.drop_last())
    }
}

/// A CA name reduced for comparison: trimmed, lowercased, and kept to ASCII
/// letters, digits and dots.
pub open spec fn normalized_ca_name(v: Seq<char>) -> Seq<char> {
    ca_name_chars(lowercase_text(trim(v)))
}

pub open spec fn ca_matches(ca: (Seq<char>, Seq<char>, Seq<Seq<char>>), n: Seq<char>) -> bool {
    ||| normalized_ca_name(ca.0) == n
    ||| normalized_ca_name(ca.1) == n
    ||| exists|i: int| 0 <= i < ca.2.len() && normalized_ca_name(#[trigger] ca.2[i]) == n
}

/// Index of the first CA from position `i` on that `n` names.
pub open spec fn first_ca_match_from(
    t: Seq<(Seq<char>, Seq<char>, Seq<Seq<char>>)>,
    n: Seq<char>,
    i: int,
) -> Option<int>
    decreases t.len() - i,
{
    if i < 0 || i >= t.len() {
        None
    } else if ca_matches(t[i], n) {
        Some(i)
    } else {
        first_ca_match_from(t, n, i + 1)
    }
}

/// `value` reduced for comparison with the catalog's names.
pub fn normalize_ca_name(value: &str) -> (r: String)
    ensures
        r@ == normalized_ca_name(value@),
{
    let cs = chars_of(value);
    let trimmed = trim_chars(&cs);
    let trimmed_text = string_from_chars(&trimmed);
    let lower = to_lowercase(trimmed_text.as_str());
    let lc = chars_of(lower.as_str());
    let mut kept: Vec<char> = Vec::new();
    let mut i: usize = 0;
    while i < lc.len()
        invariant
            i <= lc.len(),
            kept@ == ca_name_chars(lc@.take(i as int)),
        decreases lc.len() - i,
    {
        let c = lc[i];
        if is_ascii_alphanumeric_char(c) || c == '.' {
            kept.push(c);
        }
        i = i + 1;
        assert(lc@.take(i as int).drop_last() =~= lc@.take(i - 1));
    }
    assert(lc@.take(i as int) =~= lc@);
    string_from_chars(&kept)
}

fn ca_matches_exec(ca: &KnownAcmeCa, normalized: &String) -> (r: bool)
    ensures
        r == ca_matches(ca_model(*ca), normalized@),
{
    if normalize_ca_name(ca.name) == *normalized {
        return true;
    }
    if normalize_ca_name(ca.caa_domain) == *normalized {
        return true;
    }
    let ghost aliases = ca.aliases@.map_values(|a: &str| a@);
    let mut i: usize = 0;
    while i < ca.aliases.len()
        invariant
            i <= ca.aliases.len(),
            aliases == ca.aliases@.map_values(|a: &str| a@),
            forall|k: int| 0 <= k < i ==> normalized_ca_name(#[trigger] aliases[k]) != normalized@,
        decreases ca.aliases.len() - i,
    {
        let alias = normalize_ca_name(ca.aliases[i]);
        if alias == *normalized {
            assert(normalized_ca_name(aliases[i as int]) == normalized@);
            assert(ca_model(*ca).2[i as int] == aliases[i as int]);
            return true;
        }
        i = i + 1;
    }
    false
}

/// The first known CA that `value` names, by its name, its CAA domain or
/// one of its aliases, compared after normalization.
pub fn identify_known_acme_ca(value: &str) -> (r: Option<KnownAcmeCa>)
    ensures
        match first_ca_match_from(known_acme_ca_table(), normalized_ca_name(value@), 0) {
            Some(i) => r matches Some(ca) && ca_model(ca) == known_acme_ca_table()[i],
            None => r is None,
        },
{
    let normalized = normalize_ca_name(value);
    let mut cas = known_acme_cas();
    let ghost t = known_acme_ca_table();
    let ghost n = normalized@;
    let mut i: usize = 0;
    while i < cas.len()
        invariant
            i <= cas.len(),
            cas@.map_values(|ca: KnownAcmeCa| ca_model(ca)) == t,
            t == known_acme_ca_table(),
            n == normalized@,
            n == normalized_ca_name(value@),
            first_ca_match_from(t, n, 0) == first_ca_match_from(t, n, i as int),
        decreases cas.len() - i,
    {
        assert(ca_model(cas@[i as int]) == t[i as int]);
        if ca_matches_exec(&cas[i], &normalized) {
            assert(first_ca_match_from(t, n, i as int) == Some(i as int));
            let ca = cas.remove(i);
            return Some(ca);
        }
        assert(first_ca_match_from(t, n, i as int) == first_ca_match_from(t, n, i + 1));
        i = i + 1;
    }
    assert(first_ca_match_from(t, n, i as int) is None);
    None
}

// ----- Laws -----

/// The plan warns about a double proxy exactly when Cloudflare would proxy
/// in front of the WAF's own proxy, and it warns about nothing else.
pub proof fn lemma_double_proxy_warning(req: DomainOnboardingRequest)
    ensures
        plan_warnings(req).contains(CloudflareDnsPlanWarning::DoubleProxyMayBreakApplication) <==> (
        req.cloudflare_proxied && req.baia_proxy_enabled),
        forall|i: int|
            0 <= i < plan_warnings(req).len() ==> #[trigger] plan_warnings(req)[i]
                == CloudflareDnsPlanWarning::DoubleProxyMayBreakApplication,
        !req.baia_proxy_enabled ==> plan_warnings(req).len() == 0,
        !req.cloudflare_proxied ==> plan_warnings(req).len() == 0,
{
    if req.cloudflare_proxied && req.baia_proxy_enabled {
        assert(plan_warnings(req)[0] == CloudflareDnsPlanWarning::DoubleProxyMayBreakApplication);
    }
}

/// The body that creates a record carries that record: its type as the API
/// names it, its name, its content and its ttl, its proxy mode when it has
/// one (and no `proxied` member otherwise), and the CAA data of a CAA record
/// (and no `data` member otherwise).
pub proof fn lemma_record_body_carries_the_record(r: CloudflareDnsRecord)
    ensures
        ({
            let b = record_body_json(r);
            &&& r.record_type == CloudflareDnsRecordType::A ==> member(b, "type"@) == Json::Str("A"@)
            &&& r.record_type == CloudflareDnsRecordType::Aaaa ==> member(b, "type"@) == Json::Str(
                "AAAA"@,
            )
            &&& r.record_type == CloudflareDnsRecordType::Caa ==> member(b, "type"@) == Json::Str(
                "CAA"@,
            )
            &&& member(b, "name"@) == Json::Str(r.name@)
            &&& member(b, "content"@) == Json::Str(r.content@)
            &&& member(b, "ttl"@) == Json::Number(r.ttl as nat)
            &&& (r.proxied matches Some(p) ==> member(b, "proxied"@) == Json::Bool(p))
            &&& (r.proxied is None ==> member(b, "proxied"@) == Json::Null)
            &&& (r.data matches Some(d) ==> {
                &&& member(member(b, "data"@), "flags"@) == Json::Number(d.flags as nat)
                &&& member(member(b, "data"@), "tag"@) == Json::Str(d.tag@)
                &&& member(member(b, "data"@), "value"@) == Json::Str(d.value@)
            })
            &&& (r.data is None ==> member(b, "data"@) == Json::Null)
        }),
{
    reveal_strlit("type");
    reveal_strlit("name");
    reveal_strlit("content");
    reveal_strlit("ttl");
    reveal_strlit("proxied");
    reveal_strlit("data");
    reveal_strlit("flags");
    reveal_strlit("tag");
    reveal_strlit("value");
    let fs = record_body_json(r)->Object_0;
    assert(fs[0].0 == "type"@ && fs[1].0 == "name"@ && fs[2].0 == "content"@ && fs[3].0 == "ttl"@);
    assert("type"@[1] != "ttl"@[1]);
    assert(forall|j: int| 0 <= j < 1 ==> fs[j].0 != "name"@);
    assert(forall|j: int| 0 <= j < 2 ==> fs[j].0 != "content"@);
    assert(forall|j: int| 0 <= j < 3 ==> fs[j].0 != "ttl"@);
    lemma_field_value_at(fs, 0, "type"@);
    lemma_field_value_at(fs, 1, "name"@);
    lemma_field_value_at(fs, 2, "content"@);
    lemma_field_value_at(fs, 3, "ttl"@);
    match r.proxied {
        Some(p) => {
            assert(fs[4].0 == "proxied"@);
            assert("content"@[0] != "proxied"@[0]);
            assert(forall|j: int| 0 <= j < 4 ==> fs[j].0 != "proxied"@);
            lemma_field_value_at(fs, 4, "proxied"@);
        },
        None => {
            assert("content"@[0] != "proxied"@[0]);
            assert forall|j: int| 0 <= j < fs.len() implies fs[j].0 != "proxied"@ by {
                if j == 4 {
                    assert(fs[4].0 == "data"@);
                }
            }
            lemma_field_value_absent(fs, "proxied"@);
        },
    }
    let n: int = if r.proxied is Some { 5 } else { 4 };
    match r.data {
        Some(d) => {
            assert(fs[n].0 == "data"@);
            assert("data"@[0] != "name"@[0] && "data"@[0] != "type"@[0]);
            assert(r.proxied is Some ==> fs[4].0 == "proxied"@);
            assert(forall|j: int| 0 <= j < n ==> fs[j].0 != "data"@);
            lemma_field_value_at(fs, n, "data"@);
            let ds = fs[n].1->Object_0;
            assert(ds[0].0 == "flags"@ && ds[1].0 == "tag"@ && ds[2].0 == "value"@);
            assert(forall|j: int| 0 <= j < 1 ==> ds[j].0 != "tag"@);
            assert("flags"@[0] != "value"@[0]);
            assert(forall|j: int| 0 <= j < 2 ==> ds[j].0 != "value"@);
            lemma_field_value_at(ds, 0, "flags"@);
            lemma_field_value_at(ds, 1, "tag"@);
            lemma_field_value_at(ds, 2, "value"@);
        },
        None => {
            assert("data"@[0] != "name"@[0] && "data"@[0] != "type"@[0]);
            assert(r.proxied is Some ==> fs[4].0 == "proxied"@);
            assert(forall|j: int| 0 <= j < fs.len() ==> fs[j].0 != "data"@);
            lemma_field_value_absent(fs, "data"@);
        },
    }
}

/// The planned records: one `A` record per IPv4 origin, in the given order,
/// then one `AAAA` record per IPv6 origin, in the given order, each named
/// after the hostname, pointing at the address's text, with automatic ttl
/// and the requested proxy mode; then, for a CA other than Let's Encrypt, an
/// unproxied `issue` CAA record naming its domain and, for a wildcard
/// certificate, an `issuewild` one as well.  Let's Encrypt needs no CAA
/// record.
pub proof fn lemma_planned_records(req: DomainOnboardingRequest)
    ensures
        ({
            let rs = planned_records(req);
            let n4 = req.ipv4_addresses@.len();
            let n6 = req.ipv6_addresses@.len();
            let host = req.hostname@;
            &&& forall|i: int|
                0 <= i < n4 ==> {
                    &&& (#[trigger] rs[i]).record_type == CloudflareDnsRecordType::A
                    &&& rs[i].name == host
                    &&& rs[i].content == ipv4_text(req.ipv4_addresses@[i].octets@)
                    &&& rs[i].ttl == 1
                    &&& rs[i].proxied == Some(req.cloudflare_proxied)
                    &&& rs[i].data is None
                }
            &&& forall|i: int|
                n4 <= i < n4 + n6 ==> {
                    &&& (#[trigger] rs[i]).record_type == CloudflareDnsRecordType::Aaaa
                    &&& rs[i].name == host
                    &&& rs[i].content == ipv6_text(req.ipv6_addresses@[i - n4].segments@)
                    &&& rs[i].ttl == 1
                    &&& rs[i].proxied == Some(req.cloudflare_proxied)
                    &&& rs[i].data is None
                }
            &&& (req.acme_issuer is LetsEncrypt ==> rs.len() == n4 + n6)
            &&& (req.acme_issuer matches AcmeIssuer::Custom { caa_domain } ==> {
                let d = caa_domain@;
                &&& rs.len() == n4 + n6 + (if req.wildcard_certificate { 2int } else { 1int })
                &&& rs[(n4 + n6) as int] == DnsRecordModel {
                    record_type: CloudflareDnsRecordType::Caa,
                    name: host,
                    content: "0 issue \""@ + d + "\""@,
                    ttl: 1,
                    proxied: None,
                    data: Some(CaaDataModel { flags: 0, tag: "issue"@, value: d }),
                }
                &&& req.wildcard_certificate ==> rs[n4 + n6 + 1int] == DnsRecordModel {
                    record_type: CloudflareDnsRecordType::Caa,
                    name: host,
                    content: "0 issuewild \""@ + d + "\""@,
                    ttl: 1,
                    proxied: None,
                    data: Some(CaaDataModel { flags: 0, tag: "issuewild"@, value: d }),
                }
            })
        }),
{
    reveal_strlit("0 ");
    reveal_strlit(" \"");
    reveal_strlit("\"");
    reveal_strlit("issue");
    reveal_strlit("issuewild");
    reveal_strlit("0 issue \"");
    reveal_strlit("0 issuewild \"");
    let rs = planned_records(req);
    let ad = address_records(req);
    let n4 = req.ipv4_addresses@.len();
    assert forall|i: int| 0 <= i < ad.len() implies rs[i] == ad[i] by {}
    match req.acme_issuer {
        AcmeIssuer::LetsEncrypt => {},
        AcmeIssuer::Custom { caa_domain } => {
            let d = caa_domain@;
            assert("0 "@ + "issue"@ + " \""@ =~= "0 issue \""@);
            assert("0 "@ + "issue"@ + " \""@ + d + "\""@ =~= "0 issue \""@ + d + "\""@);
            assert("0 "@ + "issuewild"@ + " \""@ =~= "0 issuewild \""@);
            assert("0 "@ + "issuewild"@ + " \""@ + d + "\""@ =~= "0 issuewild \""@ + d + "\""@);
            assert(rs[ad.len() as int] == caa_records(req)[0]);
            if req.wildcard_certificate {
                assert(rs[ad.len() + 1int] == caa_records(req)[1]);
            }
        },
    }
}

/// Why a domain is refused, in order: a blank hostname; a hostname that is
/// not a bare DNS name (it holds a scheme, a slash or backslash or white
/// space, starts or ends with a dot, or has two dots in a row); no origin
/// address at all; for a CA other than Let's Encrypt, a blank CAA domain or
/// one that is not a bare DNS name.  A planned domain is free of all of
/// these.
pub proof fn lemma_plan_refusals(req: DomainOnboardingRequest)
    ensures
        ({
            let h = req.hostname@;
            let bad_shape = |v: Seq<char>|
                contains_seq(v, "://"@) || contains_char(v, '/') || contains_char(v, '\\') || (exists|i: int|
                    0 <= i < v.len() && is_white_space(#[trigger] v[i])) || (v.len() > 0 && (v[0] == '.'
                    || v[v.len() - 1] == '.')) || contains_seq(v, ".."@);
            &&& is_blank(h) ==> plan_error(req) == Some(CloudflareDnsPlanError::EmptyHostname)
            &&& (!is_blank(h) && bad_shape(h)) ==> plan_error(req) == Some(
                CloudflareDnsPlanError::InvalidHostname,
            )
            &&& (!is_blank(h) && !bad_shape(h) && req.ipv4_addresses@.len() == 0
                && req.ipv6_addresses@.len() == 0) ==> plan_error(req) == Some(
                CloudflareDnsPlanError::MissingOriginAddress,
            )
            &&& (plan_error(req) is None ==> {
                &&& !is_blank(h) && !bad_shape(h)
                &&& req.ipv4_addresses@.len() + req.ipv6_addresses@.len() > 0
                &&& (req.acme_issuer matches AcmeIssuer::Custom { caa_domain } ==> !is_blank(caa_domain@)
                    && !bad_shape(caa_domain@))
            })
            &&& (req.acme_issuer matches AcmeIssuer::Custom { caa_domain } ==> {
                &&& (!is_blank(h) && !bad_shape(h) && req.ipv4_addresses@.len() + req.ipv6_addresses@.len()
                    > 0 && is_blank(caa_domain@)) ==> plan_error(req) == Some(
                    CloudflareDnsPlanError::MissingCaaDomain,
                )
                &&& (!is_blank(h) && !bad_shape(h) && req.ipv4_addresses@.len() + req.ipv6_addresses@.len()
                    > 0 && !is_blank(caa_domain@) && bad_shape(caa_domain@)) ==> plan_error(req) == Some(
                    CloudflareDnsPlanError::InvalidCaaDomain,
                )
            })
        }),
{
    lemma_shape(req.hostname@);
    if let AcmeIssuer::Custom { caa_domain } = req.acme_issuer {
        lemma_shape(caa_domain@);
    }
}

proof fn lemma_shape(v: Seq<char>)
    ensures
        invalid_dns_name_shape(v) <==> (contains_seq(v, "://"@) || contains_char(v, '/') || contains_char(
            v,
            '\\',
        ) || (exists|i: int| 0 <= i < v.len() && is_white_space(#[trigger] v[i])) || (v.len() > 0 && (v[0]
            == '.' || v[v.len() - 1] == '.')) || contains_seq(v, ".."@) || v.len() == 0),
{
}

} // verus!
