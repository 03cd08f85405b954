//! The catalog of the runtime components the core manages: their
//! settings, secrets, capabilities and how a change reaches them.
use vstd::prelude::*;

verus! {

#[derive(Debug, Clone, PartialEq, Eq)]
pub struct ComponentDescriptor {
    pub id: ComponentId,
    pub name: &'static str,
    pub role: &'static str,
    pub management_surface: ComponentManagementSurface,
    pub apply_mode: ComponentApplyMode,
    pub settings: Vec<ComponentSetting>,
    pub secrets: Vec<ComponentSecret>,
    pub capabilities: Vec<&'static str>,
    pub user_facing_configuration: Vec<&'static str>,
}

#[derive(Debug, Clone, Copy, PartialEq, Eq, Structural)]
pub enum ComponentId {
    Core,
    Web,
    Caddy,
    Postgres,
    Redis,
    PowerDns,
    Cloudflare,
    CrowdSec,
    Acme,
}

#[derive(Debug, Clone, Copy, PartialEq, Eq, Structural)]
pub enum ComponentManagementSurface {
    Core,
    ExternalProvider,
}

#[derive(Debug, Clone, Copy, PartialEq, Eq, Structural)]
pub enum ComponentApplyMode {
    HotReload,
    RestartRequired,
    NoRuntimeApply,
    ExternalApi,
}

#[derive(Debug, Clone, Copy, PartialEq, Eq)]
pub struct ComponentSetting {
    pub key: &'static str,
    pub label: &'static str,
    pub value_type: ComponentSettingType,
    pub required: bool,
    pub sensitive: bool,
}

#[derive(Debug, Clone, Copy, PartialEq, Eq, Structural)]
pub enum ComponentSettingType {
    Boolean,
    Hostname,
    Url,
    Port,
    SecretReference,
    ProviderChoice,
}

/// A secret a component needs, by the environment variable that holds it.
#[derive(Debug, Clone, Copy, PartialEq, Eq)]
pub struct ComponentSecret {
    pub env_key: &'static str,
}

impl ComponentSecret {
    pub fn new(env_key: &'static str) -> (r: ComponentSecret)
        ensures
            r.env_key@ == env_key@,
    {
        ComponentSecret { env_key }
    }
}

// ----- Model -----

pub struct SettingModel {
    pub key: Seq<char>,
    pub label: Seq<char>,
    pub value_type: ComponentSettingType,
    pub required: bool,
    pub sensitive: bool,
}

pub struct DescriptorModel {
    pub id: ComponentId,
    pub name: Seq<char>,
    pub role: Seq<char>,
    pub management_surface: ComponentManagementSurface,
    pub apply_mode: ComponentApplyMode,
    pub settings: Seq<SettingModel>,
    pub secrets: Seq<Seq<char>>,
    pub capabilities: Seq<Seq<char>>,
    pub user_facing_configuration: Seq<Seq<char>>,
}

pub open spec fn setting_model(s: ComponentSetting) -> SettingModel {
    SettingModel {
        key: s.key@,
        label: s.label@,
        value_type: s.value_type,
        required: s.required,
        sensitive: s.sensitive,
    }
}

pub open spec fn texts(v: Seq<&'static str>) -> Seq<Seq<char>> {
    v.map_values(|s: &'static str| s@)
}

pub open spec fn descriptor_model(d: ComponentDescriptor) -> DescriptorModel {
    DescriptorModel {
        id: d.id,
        name: d.name@,
        role: d.role@,
        management_surface: d.management_surface,
        apply_mode: d.apply_mode,
        settings: d.settings@.map_values(|s: ComponentSetting| setting_model(s)),
        secrets: d.secrets@.map_values(|s: ComponentSecret| s.env_key@),
        capabilities: texts(d.capabilities@),
        user_facing_configuration: texts(d.user_facing_configuration@),
    }
}

/// A setting as written in the catalog.
pub open spec fn plain_setting(
    key: Seq<char>,
    label: Seq<char>,
    value_type: ComponentSettingType,
    required: bool,
) -> SettingModel {
    SettingModel { key, label, value_type, required, sensitive: false }
}

/// A setting whose value must be masked.
pub open spec fn sensitive_setting_model(
    key: Seq<char>,
    label: Seq<char>,
    value_type: ComponentSettingType,
    required: bool,
) -> SettingModel {
    SettingModel { key, label, value_type, required, sensitive: true }
}

/// The catalog entry of Core.
pub open spec fn core_component() -> DescriptorModel {
    DescriptorModel {
        id: ComponentId::Core,
        name: "Core"@,
        role: "Control plane API, validation, persistence, audit and jobs"@,
        management_surface: ComponentManagementSurface::Core,
        apply_mode: ComponentApplyMode::HotReload,
        settings: seq![
            plain_setting("platform.publicUrl"@, "Public URL"@, ComponentSettingType::Url, true),
            plain_setting("platform.adminHostname"@, "Admin hostname"@, ComponentSettingType::Hostname, true),
        ],
        secrets: seq![],
        capabilities: seq!["api"@, "rbac"@, "audit"@, "jobs"@, "configuration"@],
        user_facing_configuration: seq!["platform"@, "modules"@, "integrations"@, "tls"@],
    }
}

/// The catalog entry of Web panel.
pub open spec fn web_component() -> DescriptorModel {
    DescriptorModel {
        id: ComponentId::Web,
        name: "Web panel"@,
        role: "Administrative UI with i18n"@,
        management_surface: ComponentManagementSurface::Core,
        apply_mode: ComponentApplyMode::NoRuntimeApply,
        settings: seq![],
        secrets: seq![],
        capabilities: seq!["dashboard"@, "i18n"@, "guided_configuration"@],
        user_facing_configuration: seq!["locale"@],
    }
}

/// The catalog entry of Caddy.
pub open spec fn caddy_component() -> DescriptorModel {
    DescriptorModel {
        id: ComponentId::Caddy,
        name: "Caddy"@,
        role: "Reverse proxy, TLS termination, WAF enforcement and routing"@,
        management_surface: ComponentManagementSurface::Core,
        apply_mode: ComponentApplyMode::HotReload,
        settings: seq![
            plain_setting("services.caddyAdminUrl"@, "Admin API URL"@, ComponentSettingType::Url, true),
        ],
        secrets: seq![],
        capabilities: seq!["reverse_proxy"@, "tls"@, "headers"@, "rate_limit"@, "crowdsec_bouncer"@, "dynamic_config"@],
        user_facing_configuration: seq!["applications"@, "upstreams"@, "waf_rules"@, "rate_limits"@],
    }
}

/// The catalog entry of PostgreSQL.
pub open spec fn postgres_component() -> DescriptorModel {
    DescriptorModel {
        id: ComponentId::Postgres,
        name: "PostgreSQL"@,
        role: "Persistent database for platform state"@,
        management_surface: ComponentManagementSurface::Core,
        apply_mode: ComponentApplyMode::RestartRequired,
        settings: seq![
            plain_setting("services.postgres.host"@, "Host"@, ComponentSettingType::Hostname, true),
            plain_setting("services.postgres.port"@, "Port"@, ComponentSettingType::Port, true),
        ],
        secrets: seq!["POSTGRES_PASSWORD"@],
        capabilities: seq!["persistence"@, "migrations"@, "audit_storage"@],
        user_facing_configuration: seq![],
    }
}

/// The catalog entry of Redis.
pub open spec fn redis_component() -> DescriptorModel {
    DescriptorModel {
        id: ComponentId::Redis,
        name: "Redis"@,
        role: "Sessions, cache, locks and transient distributed state"@,
        management_surface: ComponentManagementSurface::Core,
        apply_mode: ComponentApplyMode::RestartRequired,
        settings: seq![
            plain_setting("services.redis.host"@, "Host"@, ComponentSettingType::Hostname, true),
            plain_setting("services.redis.port"@, "Port"@, ComponentSettingType::Port, true),
        ],
        secrets: seq!["REDIS_PASSWORD"@],
        capabilities: seq!["sessions"@, "locks"@, "cache"@, "queues"@, "rate_limit_state"@],
        user_facing_configuration: seq![],
    }
}

/// The catalog entry of PowerDNS.
pub open spec fn power_dns_component() -> DescriptorModel {
    DescriptorModel {
        id: ComponentId::PowerDns,
        name: "PowerDNS"@,
        role: "Integrated or external authoritative DNS provider"@,
        management_surface: ComponentManagementSurface::Core,
        apply_mode: ComponentApplyMode::ExternalApi,
        settings: seq![
            plain_setting("integrations.powerdns.mode"@, "Mode"@, ComponentSettingType::ProviderChoice, true),
            plain_setting("integrations.powerdns.apiUrl"@, "API URL"@, ComponentSettingType::Url, true),
            sensitive_setting_model("integrations.powerdns.apiKeyEnv"@, "API key environment variable"@, ComponentSettingType::SecretReference, true),
        ],
        secrets: seq!["BAIA_POWERDNS_API_KEY"@],
        capabilities: seq!["zones"@, "records"@, "dnssec"@, "integrated_dns"@],
        user_facing_configuration: seq!["dns_zones"@, "dns_records"@],
    }
}

/// The catalog entry of Cloudflare.
pub open spec fn cloudflare_component() -> DescriptorModel {
    DescriptorModel {
        id: ComponentId::Cloudflare,
        name: "Cloudflare"@,
        role: "External DNS provider, proxied records and DNS-01 support"@,
        management_surface: ComponentManagementSurface::ExternalProvider,
        apply_mode: ComponentApplyMode::ExternalApi,
        settings: seq![
            sensitive_setting_model("integrations.cloudflare.apiTokenEnv"@, "API token environment variable"@, ComponentSettingType::SecretReference, true),
            plain_setting("integrations.cloudflare.automaticDns.enabled"@, "Automatic DNS"@, ComponentSettingType::Boolean, true),
            plain_setting("integrations.cloudflare.automaticDns.defaultProxied"@, "Default proxied records"@, ComponentSettingType::Boolean, true),
        ],
        secrets: seq!["BAIA_CLOUDFLARE_API_TOKEN"@],
        capabilities: seq!["zones"@, "a_records"@, "aaaa_records"@, "caa_records"@, "proxied_dns"@],
        user_facing_configuration: seq!["dns_zones"@, "dns_records"@, "certificates"@],
    }
}

/// The catalog entry of CrowdSec.
pub open spec fn crowd_sec_component() -> DescriptorModel {
    DescriptorModel {
        id: ComponentId::CrowdSec,
        name: "CrowdSec"@,
        role: "Threat intelligence, decisions and remediation feed"@,
        management_surface: ComponentManagementSurface::Core,
        apply_mode: ComponentApplyMode::ExternalApi,
        settings: seq![
            plain_setting("integrations.crowdsec.localApiUrl"@, "Local API URL"@, ComponentSettingType::Url, true),
            sensitive_setting_model("integrations.crowdsec.apiKeyEnv"@, "API key environment variable"@, ComponentSettingType::SecretReference, true),
        ],
        secrets: seq!["BAIA_CROWDSEC_API_KEY"@],
        capabilities: seq!["decisions"@, "bouncers"@, "collections"@, "appsec"@],
        user_facing_configuration: seq!["decisions"@, "allowlists"@, "blocklists"@],
    }
}

/// The catalog entry of ACME.
pub open spec fn acme_component() -> DescriptorModel {
    DescriptorModel {
        id: ComponentId::Acme,
        name: "ACME"@,
        role: "Certificate issuing and renewal policy"@,
        management_surface: ComponentManagementSurface::Core,
        apply_mode: ComponentApplyMode::HotReload,
        settings: seq![
            sensitive_setting_model("tls.acme.emailEnv"@, "Email environment variable"@, ComponentSettingType::SecretReference, true),
            plain_setting("tls.acme.http01Enabled"@, "HTTP-01"@, ComponentSettingType::Boolean, true),
            plain_setting("tls.acme.dnsProvider"@, "DNS provider"@, ComponentSettingType::ProviderChoice, false),
            plain_setting("tls.acme.wildcardEnabled"@, "Wildcard certificates"@, ComponentSettingType::Boolean, true),
        ],
        secrets: seq!["BAIA_ACME_EMAIL"@],
        capabilities: seq!["http_01"@, "dns_01"@, "wildcard"@, "caa_planning"@],
        user_facing_configuration: seq!["certificates"@, "caa_records"@],
    }
}

/// The catalog, in order.
pub open spec fn catalog_model() -> Seq<DescriptorModel> {
    seq![
        core_component(),
        web_component(),
        caddy_component(),
        postgres_component(),
        redis_component(),
        power_dns_component(),
        cloudflare_component(),
        crowd_sec_component(),
        acme_component(),
    ]
}

// ----- Catalog -----

fn setting(
    key: &'static str,
    label: &'static str,
    value_type: ComponentSettingType,
    required: bool,
) -> (r: ComponentSetting)
    ensures
        setting_model(r) == plain_setting(key@, label@, value_type, required),
{
    ComponentSetting { key, label, value_type, required, sensitive: false }
}

fn sensitive_setting(
    key: &'static str,
    label: &'static str,
    value_type: ComponentSettingType,
    required: bool,
) -> (r: ComponentSetting)
    ensures
        setting_model(r) == sensitive_setting_model(key@, label@, value_type, required),
{
    ComponentSetting { key, label, value_type, required, sensitive: true }
}

fn core_descriptor() -> (r: ComponentDescriptor)
    ensures
        descriptor_model(r) == core_component(),
{
    let settings = vec![
        setting("platform.publicUrl", "Public URL", ComponentSettingType::Url, true),
        setting("platform.adminHostname", "Admin hostname", ComponentSettingType::Hostname, true),
    ];
    let secrets = Vec::new();
    let capabilities = vec!["api", "rbac", "audit", "jobs", "configuration"];
    let user_facing_configuration = vec!["platform", "modules", "integrations", "tls"];
    let ghost m = core_component();
    assert(settings@.map_values(|s: ComponentSetting| setting_model(s)) =~= m.settings);
    assert(secrets@.map_values(|s: ComponentSecret| s.env_key@) =~= m.secrets);
    assert(texts(capabilities@) =~= m.capabilities);
    assert(texts(user_facing_configuration@) =~= m.user_facing_configuration);
    ComponentDescriptor {
        id: ComponentId::Core,
        name: "Core",
        role: "Control plane API, validation, persistence, audit and jobs",
        management_surface: ComponentManagementSurface::Core,
        apply_mode: ComponentApplyMode::HotReload,
        settings,
        secrets,
        capabilities,
        user_facing_configuration,
    }
}

fn web_descriptor() -> (r: ComponentDescriptor)
    ensures
        descriptor_model(r) == web_component(),
{
    let settings = Vec::new();
    let secrets = Vec::new();
    let capabilities = vec!["dashboard", "i18n", "guided_configuration"];
    let user_facing_configuration = vec!["locale"];
    let ghost m = web_component();
    assert(settings@.map_values(|s: ComponentSetting| setting_model(s)) =~= m.settings);
    assert(secrets@.map_values(|s: ComponentSecret| s.env_key@) =~= m.secrets);
    assert(texts(capabilities@) =~= m.capabilities);
    assert(texts(user_facing_configuration@) =~= m.user_facing_configuration);
    ComponentDescriptor {
        id: ComponentId::Web,
        name: "Web panel",
        role: "Administrative UI with i18n",
        management_surface: ComponentManagementSurface::Core,
        apply_mode: ComponentApplyMode::NoRuntimeApply,
        settings,
        secrets,
        capabilities,
        user_facing_configuration,
    }
}

fn caddy_descriptor() -> (r: ComponentDescriptor)
    ensures
        descriptor_model(r) == caddy_component(),
{
    let settings = vec![
        setting("services.caddyAdminUrl", "Admin API URL", ComponentSettingType::Url, true),
    ];
    let secrets = Vec::new();
    let capabilities = vec!["reverse_proxy", "tls", "headers", "rate_limit", "crowdsec_bouncer", "dynamic_config"];
    let user_facing_configuration = vec!["applications", "upstreams", "waf_rules", "rate_limits"];
    let ghost m = caddy_component();
    assert(settings@.map_values(|s: ComponentSetting| setting_model(s)) =~= m.settings);
    assert(secrets@.map_values(|s: ComponentSecret| s.env_key@) =~= m.secrets);
    assert(texts(capabilities@) =~= m.capabilities);
    assert(texts(user_facing_configuration@) =~= m.user_facing_configuration);
    ComponentDescriptor {
        id: ComponentId::Caddy,
        name: "Caddy",
        role: "Reverse proxy, TLS termination, WAF enforcement and routing",
        management_surface: ComponentManagementSurface::Core,
        apply_mode: ComponentApplyMode::HotReload,
        settings,
        secrets,
        capabilities,
        user_facing_configuration,
    }
}

fn postgres_descriptor() -> (r: ComponentDescriptor)
    ensures
        descriptor_model(r) == postgres_component(),
{
    let settings = vec![
        setting("services.postgres.host", "Host", ComponentSettingType::Hostname, true),
        setting("services.postgres.port", "Port", ComponentSettingType::Port, true),
    ];
    let secrets = vec![ComponentSecret::new("POSTGRES_PASSWORD")];
    let capabilities = vec!["persistence", "migrations", "audit_storage"];
    let user_facing_configuration = Vec::new();
    let ghost m = postgres_component();
    assert(settings@.map_values(|s: ComponentSetting| setting_model(s)) =~= m.settings);
    assert(secrets@.map_values(|s: ComponentSecret| s.env_key@) =~= m.secrets);
    assert(texts(capabilities@) =~= m.capabilities);
    assert(texts(user_facing_configuration@) =~= m.user_facing_configuration);
    ComponentDescriptor {
        id: ComponentId::Postgres,
        name: "PostgreSQL",
        role: "Persistent database for platform state",
        management_surface: ComponentManagementSurface::Core,
        apply_mode: ComponentApplyMode::RestartRequired,
        settings,
        secrets,
        capabilities,
        user_facing_configuration,
    }
}

fn redis_descriptor() -> (r: ComponentDescriptor)
    ensures
        descriptor_model(r) == redis_component(),
{
    let settings = vec![
        setting("services.redis.host", "Host", ComponentSettingType::Hostname, true),
        setting("services.redis.port", "Port", ComponentSettingType::Port, true),
    ];
    let secrets = vec![ComponentSecret::new("REDIS_PASSWORD")];
    let capabilities = vec!["sessions", "locks", "cache", "queues", "rate_limit_state"];
    let user_facing_configuration = Vec::new();
    let ghost m = redis_component();
    assert(settings@.map_values(|s: ComponentSetting| setting_model(s)) =~= m.settings);
    assert(secrets@.map_values(|s: ComponentSecret| s.env_key@) =~= m.secrets);
    assert(texts(capabilities@) =~= m.capabilities);
    assert(texts(user_facing_configuration@) =~= m.user_facing_configuration);
    ComponentDescriptor {
        id: ComponentId::Redis,
        name: "Redis",
        role: "Sessions, cache, locks and transient distributed state",
        management_surface: ComponentManagementSurface::Core,
        apply_mode: ComponentApplyMode::RestartRequired,
        settings,
        secrets,
        capabilities,
        user_facing_configuration,
    }
}

fn power_dns_descriptor() -> (r: ComponentDescriptor)
    ensures
        descriptor_model(r) == power_dns_component(),
{
    let settings = vec![
        setting("integrations.powerdns.mode", "Mode", ComponentSettingType::ProviderChoice, true),
        setting("integrations.powerdns.apiUrl", "API URL", ComponentSettingType::Url, true),
        sensitive_setting("integrations.powerdns.apiKeyEnv", "API key environment variable", ComponentSettingType::SecretReference, true),
    ];
    let secrets = vec![ComponentSecret::new("BAIA_POWERDNS_API_KEY")];
    let capabilities = vec!["zones", "records", "dnssec", "integrated_dns"];
    let user_facing_configuration = vec!["dns_zones", "dns_records"];
    let ghost m = power_dns_component();
    assert(settings@.map_values(|s: ComponentSetting| setting_model(s)) =~= m.settings);
    assert(secrets@.map_values(|s: ComponentSecret| s.env_key@) =~= m.secrets);
    assert(texts(capabilities@) =~= m.capabilities);
    assert(texts(user_facing_configuration@) =~= m.user_facing_configuration);
    ComponentDescriptor {
        id: ComponentId::PowerDns,
        name: "PowerDNS",
        role: "Integrated or external authoritative DNS provider",
        management_surface: ComponentManagementSurface::Core,
        apply_mode: ComponentApplyMode::ExternalApi,
        settings,
        secrets,
        capabilities,
        user_facing_configuration,
    }
}

fn cloudflare_descriptor() -> (r: ComponentDescriptor)
    ensures
        descriptor_model(r) == cloudflare_component(),
{
    let settings = vec![
        sensitive_setting("integrations.cloudflare.apiTokenEnv", "API token environment variable", ComponentSettingType::SecretReference, true),
        setting("integrations.cloudflare.automaticDns.enabled", "Automatic DNS", ComponentSettingType::Boolean, true),
        setting("integrations.cloudflare.automaticDns.defaultProxied", "Default proxied records", ComponentSettingType::Boolean, true),
    ];
    let secrets = vec![ComponentSecret::new("BAIA_CLOUDFLARE_API_TOKEN")];
    let capabilities = vec!["zones", "a_records", "aaaa_records", "caa_records", "proxied_dns"];
    let user_facing_configuration = vec!["dns_zones", "dns_records", "certificates"];
    let ghost m = cloudflare_component();
    assert(settings@.map_values(|s: ComponentSetting| setting_model(s)) =~= m.settings);
    assert(secrets@.map_values(|s: ComponentSecret| s.env_key@) =~= m.secrets);
    assert(texts(capabilities@) =~= m.capabilities);
    assert(texts(user_facing_configuration@) =~= m.user_facing_configuration);
    ComponentDescriptor {
        id: ComponentId::Cloudflare,
        name: "Cloudflare",
        role: "External DNS provider, proxied records and DNS-01 support",
        management_surface: ComponentManagementSurface::ExternalProvider,
        apply_mode: ComponentApplyMode::ExternalApi,
        settings,
        secrets,
        capabilities,
        user_facing_configuration,
    }
}

fn crowd_sec_descriptor() -> (r: ComponentDescriptor)
    ensures
        descriptor_model(r) == crowd_sec_component(),
{
    let settings = vec![
        setting("integrations.crowdsec.localApiUrl", "Local API URL", ComponentSettingType::Url, true),
        sensitive_setting("integrations.crowdsec.apiKeyEnv", "API key environment variable", ComponentSettingType::SecretReference, true),
    ];
    let secrets = vec![ComponentSecret::new("BAIA_CROWDSEC_API_KEY")];
    let capabilities = vec!["decisions", "bouncers", "collections", "appsec"];
    let user_facing_configuration = vec!["decisions", "allowlists", "blocklists"];
    let ghost m = crowd_sec_component();
    assert(settings@.map_values(|s: ComponentSetting| setting_model(s)) =~= m.settings);
    assert(secrets@.map_values(|s: ComponentSecret| s.env_key@) =~= m.secrets);
    assert(texts(capabilities@) =~= m.capabilities);
    assert(texts(user_facing_configuration@) =~= m.user_facing_configuration);
    ComponentDescriptor {
        id: ComponentId::CrowdSec,
        name: "CrowdSec",
        role: "Threat intelligence, decisions and remediation feed",
        management_surface: ComponentManagementSurface::Core,
        apply_mode: ComponentApplyMode::ExternalApi,
        settings,
        secrets,
        capabilities,
        user_facing_configuration,
    }
}

fn acme_descriptor() -> (r: ComponentDescriptor)
    ensures
        descriptor_model(r) == acme_component(),
{
    let settings = vec![
        sensitive_setting("tls.acme.emailEnv", "Email environment variable", ComponentSettingType::SecretReference, true),
        setting("tls.acme.http01Enabled", "HTTP-01", ComponentSettingType::Boolean, true),
        setting("tls.acme.dnsProvider", "DNS provider", ComponentSettingType::ProviderChoice, false),
        setting("tls.acme.wildcardEnabled", "Wildcard certificates", ComponentSettingType::Boolean, true),
    ];
    let secrets = vec![ComponentSecret::new("BAIA_ACME_EMAIL")];
    let capabilities = vec!["http_01", "dns_01", "wildcard", "caa_planning"];
    let user_facing_configuration = vec!["certificates", "caa_records"];
    let ghost m = acme_component();
    assert(settings@.map_values(|s: ComponentSetting| setting_model(s)) =~= m.settings);
    assert(secrets@.map_values(|s: ComponentSecret| s.env_key@) =~= m.secrets);
    assert(texts(capabilities@) =~= m.capabilities);
    assert(texts(user_facing_configuration@) =~= m.user_facing_configuration);
    ComponentDescriptor {
        id: ComponentId::Acme,
        name: "ACME",
        role: "Certificate issuing and renewal policy",
        management_surface: ComponentManagementSurface::Core,
        apply_mode: ComponentApplyMode::HotReload,
        settings,
        secrets,
        capabilities,
        user_facing_configuration,
    }
}

/// Every runtime component the core manages, in order: core, web panel,
/// Caddy, PostgreSQL, Redis, PowerDNS, Cloudflare, CrowdSec and ACME.
pub fn component_catalog() -> (r: Vec<ComponentDescriptor>)
    ensures
        r@.map_values(|d: ComponentDescriptor| descriptor_model(d)) == catalog_model(),
{
    let r = vec![
        core_descriptor(),
        web_descriptor(),
        caddy_descriptor(),
        postgres_descriptor(),
        redis_descriptor(),
        power_dns_descriptor(),
        cloudflare_descriptor(),
        crowd_sec_descriptor(),
        acme_descriptor(),
    ];
    assert(r@.map_values(|d: ComponentDescriptor| descriptor_model(d)) =~= catalog_model());
    r
}

// ----- Laws -----

/// The catalog names each component once, in this order.
pub proof fn lemma_catalog_lists_each_component_once()
    ensures
        catalog_model().map_values(|d: DescriptorModel| d.id) == seq![
            ComponentId::Core,
            ComponentId::Web,
            ComponentId::Caddy,
            ComponentId::Postgres,
            ComponentId::Redis,
            ComponentId::PowerDns,
            ComponentId::Cloudflare,
            ComponentId::CrowdSec,
            ComponentId::Acme,
        ],
{
    assert(catalog_model().map_values(|d: DescriptorModel| d.id) =~= seq![
        ComponentId::Core,
        ComponentId::Web,
        ComponentId::Caddy,
        ComponentId::Postgres,
        ComponentId::Redis,
        ComponentId::PowerDns,
        ComponentId::Cloudflare,
        ComponentId::CrowdSec,
        ComponentId::Acme,
    ]);
}

/// Secrets stay out of the public configuration: a setting is masked
/// exactly when its value is a reference to a secret, and every component
/// with such a setting declares the secret it needs.
pub proof fn lemma_secret_settings_are_masked()
    ensures
        forall|i: int, j: int|
            0 <= i < catalog_model().len() && 0 <= j < catalog_model()[i].settings.len() ==> (
            #[trigger] catalog_model()[i].settings[j]).sensitive == (catalog_model()[i].settings[j].value_type
                == ComponentSettingType::SecretReference),
        forall|i: int, j: int|
            0 <= i < catalog_model().len() && 0 <= j < catalog_model()[i].settings.len() && (
            #[trigger] catalog_model()[i].settings[j]).value_type
                == ComponentSettingType::SecretReference ==> catalog_model()[i].secrets.len() > 0,
{
}

/// Stateful services need a coordinated restart, are managed by the core and
/// offer nothing to configure in the panel.
pub proof fn lemma_stateful_services_restart()
    ensures
        forall|i: int|
            0 <= i < catalog_model().len() && (#[trigger] catalog_model()[i]).apply_mode
                == ComponentApplyMode::RestartRequired ==> {
                &&& catalog_model()[i].management_surface == ComponentManagementSurface::Core
                &&& catalog_model()[i].user_facing_configuration.len() == 0
                &&& (catalog_model()[i].id == ComponentId::Postgres || catalog_model()[i].id
                    == ComponentId::Redis)
            },
{
}

} // verus!
