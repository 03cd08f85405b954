//! The central platform configuration, its validation and the rules of its
//! synchronisation with the configuration file.
use vstd::prelude::*;

verus! {

#[derive(Debug, Clone, PartialEq, Eq)]
pub struct PlatformConfig {
    pub platform: PlatformSection,
    pub modules: ModuleSection,
    pub services: ServiceSection,
    pub integrations: IntegrationSection,
    pub tls: TlsSection,
}

#[derive(Debug, Clone, PartialEq, Eq)]
pub struct PlatformSection {
    pub public_url: String,
    pub admin_hostname: String,
}

#[derive(Debug, Clone, PartialEq, Eq)]
pub struct ModuleSection {
    pub acme: ModuleToggle,
    pub crowdsec: ModuleToggle,
    pub captcha: ModuleToggle,
    pub redis: ModuleToggle,
    pub email: ModuleToggle,
    pub powerdns: ModuleToggle,
    pub cloudflare: ModuleToggle,
    pub metrics: ModuleToggle,
    pub experimental: ModuleToggle,
}

#[derive(Debug, Clone, Copy, PartialEq, Eq, Structural)]
pub struct ModuleToggle {
    pub enabled: bool,
}

#[derive(Debug, Clone, PartialEq, Eq)]
pub struct ServiceSection {
    pub postgres: NetworkService,
    pub redis: NetworkService,
    pub caddy_admin_url: String,
}

#[derive(Debug, Clone, PartialEq, Eq)]
pub struct NetworkService {
    pub host: String,
    pub port: u16,
}

#[derive(Debug, Clone, PartialEq, Eq)]
pub struct IntegrationSection {
    pub powerdns: PowerDnsIntegration,
    pub cloudflare: CloudflareIntegration,
    pub crowdsec: CrowdSecIntegration,
}

#[derive(Debug, Clone, PartialEq, Eq)]
pub struct PowerDnsIntegration {
    pub mode: PowerDnsMode,
    pub api_url: Option<String>,
    pub api_key_env: Option<String>,
}

#[derive(Debug, Clone, Copy, PartialEq, Eq, Structural)]
pub enum PowerDnsMode {
    Integrated,
    External,
}

#[derive(Debug, Clone, PartialEq, Eq)]
pub struct CloudflareIntegration {
    pub api_token_env: Option<String>,
    pub account_id: Option<String>,
    pub automatic_dns: CloudflareAutomaticDnsConfig,
}

#[derive(Debug, Clone, Copy, PartialEq, Eq, Structural)]
pub struct CloudflareAutomaticDnsConfig {
    pub enabled: bool,
    pub default_proxied: bool,
    pub require_double_proxy_acknowledgement: bool,
}

#[derive(Debug, Clone, PartialEq, Eq)]
pub struct CrowdSecIntegration {
    pub local_api_url: Option<String>,
    pub api_key_env: Option<String>,
}

#[derive(Debug, Clone, PartialEq, Eq)]
pub struct TlsSection {
    pub acme: AcmeConfig,
}

#[derive(Debug, Clone, PartialEq, Eq)]
pub struct AcmeConfig {
    pub email_env: String,
    pub http01_enabled: bool,
    pub dns_provider: Option<DnsProvider>,
    pub wildcard_enabled: bool,
}

#[derive(Debug, Clone, Copy, PartialEq, Eq, Structural)]
pub enum DnsProvider {
    PowerDns,
    Cloudflare,
}

#[derive(Debug, Clone, Copy, PartialEq, Eq, Structural)]
pub enum ConfigValidationError {
    MissingPowerDnsApiUrl,
    MissingPowerDnsApiKeyEnv,
    MissingCloudflareApiTokenEnv,
    MissingCrowdSecApiUrl,
    MissingCrowdSecApiKeyEnv,
    WildcardAcmeRequiresDnsProvider,
}

#[derive(Debug, Clone, PartialEq, Eq)]
pub enum ConfigSyncError {
    Read(String),
    Write(String),
    Parse(String),
    Serialize(String),
    Validation(ConfigValidationError),
}

/// The first rule that `c` breaks, in this order: an enabled module needs
/// its integration settings (PowerDNS: API URL then key; Cloudflare: token;
/// CrowdSec: API URL then key), and wildcard certificates need a DNS-01
/// provider.
pub open spec fn config_error(c: PlatformConfig) -> Option<ConfigValidationError> {
    if c.modules.powerdns.enabled && c.integrations.powerdns.api_url is None {
        Some(ConfigValidationError::MissingPowerDnsApiUrl)
    } else if c.modules.powerdns.enabled && c.integrations.powerdns.api_key_env is None {
        Some(ConfigValidationError::MissingPowerDnsApiKeyEnv)
    } else if c.modules.cloudflare.enabled && c.integrations.cloudflare.api_token_env is None {
        Some(ConfigValidationError::MissingCloudflareApiTokenEnv)
    } else if c.modules.crowdsec.enabled && c.integrations.crowdsec.local_api_url is None {
        Some(ConfigValidationError::MissingCrowdSecApiUrl)
    } else if c.modules.crowdsec.enabled && c.integrations.crowdsec.api_key_env is None {
        Some(ConfigValidationError::MissingCrowdSecApiKeyEnv)
    } else if c.tls.acme.wildcard_enabled && c.tls.acme.dns_provider is None {
        Some(ConfigValidationError::WildcardAcmeRequiresDnsProvider)
    } else {
        None
    }
}

impl PlatformConfig {
    /// Checks the configuration; the error names the first rule broken.
    pub fn validate(&self) -> (r: Result<(), ConfigValidationError>)
        ensures
            match config_error(*self) {
                Some(e) => r == Err::<(), ConfigValidationError>(e),
                None => r is Ok,
            },
    {
        if self.modules.powerdns.enabled && self.integrations.powerdns.api_url.is_none() {
            return Err(ConfigValidationError::MissingPowerDnsApiUrl);
        }
        if self.modules.powerdns.enabled && self.integrations.powerdns.api_key_env.is_none() {
            return Err(ConfigValidationError::MissingPowerDnsApiKeyEnv);
        }
        if self.modules.cloudflare.enabled && self.integrations.cloudflare.api_token_env.is_none() {
            return Err(ConfigValidationError::MissingCloudflareApiTokenEnv);
        }
        if self.modules.crowdsec.enabled && self.integrations.crowdsec.local_api_url.is_none() {
            return Err(ConfigValidationError::MissingCrowdSecApiUrl);
        }
        if self.modules.crowdsec.enabled && self.integrations.crowdsec.api_key_env.is_none() {
            return Err(ConfigValidationError::MissingCrowdSecApiKeyEnv);
        }
        if self.tls.acme.wildcard_enabled && self.tls.acme.dns_provider.is_none() {
            return Err(ConfigValidationError::WildcardAcmeRequiresDnsProvider);
        }
        Ok(())
    }
}

pub open spec fn opt_text(o: Option<String>) -> Option<Seq<char>> {
    match o {
        Some(s) => Some(s@),
        None => None,
    }
}

/// The shipped configuration: ACME, Redis and metrics on, the other modules
/// off; services at their Compose addresses; integrations pointing at the
/// bundled services and secret variable names; HTTP-01 certificates.
pub open spec fn is_default_config(c: PlatformConfig) -> bool {
    &&& c.platform.public_url@ == "https://waf.localhost"@
    &&& c.platform.admin_hostname@ == "admin.waf.localhost"@
    &&& c.modules.acme.enabled
    &&& !c.modules.crowdsec.enabled
    &&& !c.modules.captcha.enabled
    &&& c.modules.redis.enabled
    &&& !c.modules.email.enabled
    &&& !c.modules.powerdns.enabled
    &&& !c.modules.cloudflare.enabled
    &&& c.modules.metrics.enabled
    &&& !c.modules.experimental.enabled
    &&& c.services.postgres.host@ == "postgres"@
    &&& c.services.postgres.port == 5432
    &&& c.services.redis.host@ == "redis"@
    &&& c.services.redis.port == 6379
    &&& c.services.caddy_admin_url@ == "http://caddy:2019"@
    &&& c.integrations.powerdns.mode == PowerDnsMode::Integrated
    &&& opt_text(c.integrations.powerdns.api_url) == Some("http://powerdns:8081/api/v1"@)
    &&& opt_text(c.integrations.powerdns.api_key_env) == Some("BAIA_POWERDNS_API_KEY"@)
    &&& opt_text(c.integrations.cloudflare.api_token_env) == Some("BAIA_CLOUDFLARE_API_TOKEN"@)
    &&& c.integrations.cloudflare.account_id is None
    &&& c.integrations.cloudflare.automatic_dns == CloudflareAutomaticDnsConfig {
        enabled: true,
        default_proxied: false,
        require_double_proxy_acknowledgement: true,
    }
    &&& opt_text(c.integrations.crowdsec.local_api_url) == Some("http://crowdsec:8080"@)
    &&& opt_text(c.integrations.crowdsec.api_key_env) == Some("BAIA_CROWDSEC_API_KEY"@)
    &&& c.tls.acme.email_env@ == "BAIA_ACME_EMAIL"@
    &&& c.tls.acme.http01_enabled
    &&& c.tls.acme.dns_provider is None
    &&& !c.tls.acme.wildcard_enabled
}

impl Default for PlatformConfig {
    fn default() -> (r: Self)
        ensures
            is_default_config(r),
    {
        PlatformConfig {
            platform: PlatformSection {
                public_url: "https://waf.localhost".to_string(),
                admin_hostname: "admin.waf.localhost".to_string(),
            },
            modules: ModuleSection {
                acme: ModuleToggle { enabled: true },
                crowdsec: ModuleToggle { enabled: false },
                captcha: ModuleToggle { enabled: false },
                redis: ModuleToggle { enabled: true },
                email: ModuleToggle { enabled: false },
                powerdns: ModuleToggle { enabled: false },
                cloudflare: ModuleToggle { enabled: false },
                metrics: ModuleToggle { enabled: true },
                experimental: ModuleToggle { enabled: false },
            },
            services: ServiceSection {
                postgres: NetworkService { host: "postgres".to_string(), port: 5432 },
                redis: NetworkService { host: "redis".to_string(), port: 6379 },
                caddy_admin_url: "http://caddy:2019".to_string(),
            },
            integrations: IntegrationSection {
                powerdns: PowerDnsIntegration {
                    mode: PowerDnsMode::Integrated,
                    api_url: Some("http://powerdns:8081/api/v1".to_string()),
                    api_key_env: Some("BAIA_POWERDNS_API_KEY".to_string()),
                },
                cloudflare: CloudflareIntegration {
                    api_token_env: Some("BAIA_CLOUDFLARE_API_TOKEN".to_string()),
                    account_id: None,
                    automatic_dns: CloudflareAutomaticDnsConfig {
                        enabled: true,
                        default_proxied: false,
                        require_double_proxy_acknowledgement: true,
                    },
                },
                crowdsec: CrowdSecIntegration {
                    local_api_url: Some("http://crowdsec:8080".to_string()),
                    api_key_env: Some("BAIA_CROWDSEC_API_KEY".to_string()),
                },
            },
            tls: TlsSection {
                acme: AcmeConfig {
                    email_env: "BAIA_ACME_EMAIL".to_string(),
                    http01_enabled: true,
                    dns_provider: None,
                    wildcard_enabled: false,
                },
            },
        }
    }
}

/// The shipped configuration passes validation.
pub proof fn lemma_default_config_is_valid(c: PlatformConfig)
    requires
        is_default_config(c),
    ensures
        config_error(c) is None,
{
}

/// The configuration file the platform configuration is synchronised with.
#[derive(Debug, Clone, PartialEq, Eq)]
pub struct ConfigFileStore {
    path: String,
}

impl ConfigFileStore {
    pub fn new(path: &str) -> (r: ConfigFileStore)
        ensures
            r.spec_path() == path@,
    {
        ConfigFileStore { path: path.to_string() }
    }

    pub closed spec fn spec_path(&self) -> Seq<char> {
        self.path@
    }

    /// Where the file lives.
    pub fn path(&self) -> (r: &str)
        ensures
            r@ == self.spec_path(),
    {
        self.path.as_str()
    }

    /// A configuration read from the file is taken only when it is valid.
    pub fn accept_loaded(&self, config: PlatformConfig) -> (r: Result<PlatformConfig, ConfigSyncError>)
        ensures
            match config_error(config) {
                Some(e) => r == Err::<PlatformConfig, ConfigSyncError>(ConfigSyncError::Validation(e)),
                None => r == Ok::<PlatformConfig, ConfigSyncError>(config),
            },
    {
        match config.validate() {
            Ok(()) => Ok(config),
            Err(e) => Err(ConfigSyncError::Validation(e)),
        }
    }

    /// A configuration may be written to the file only when it is valid.
    pub fn check_before_save(&self, config: &PlatformConfig) -> (r: Result<(), ConfigSyncError>)
        ensures
            match config_error(*config) {
                Some(e) => r == Err::<(), ConfigSyncError>(ConfigSyncError::Validation(e)),
                None => r is Ok,
            },
    {
        match config.validate() {
            Ok(()) => Ok(()),
            Err(e) => Err(ConfigSyncError::Validation(e)),
        }
    }
}

/// A configuration is valid exactly when every enabled integration module
/// has its settings (PowerDNS: API URL and key variable; Cloudflare: token
/// variable; CrowdSec: local API URL and key variable) and wildcard
/// certificates, when enabled, have a DNS-01 provider, whichever it is.  Each
/// error is reported only when the setting it names is missing.
pub proof fn lemma_valid_config_iff_settings_present(c: PlatformConfig)
    ensures
        config_error(c) is None <==> {
            &&& c.modules.powerdns.enabled ==> c.integrations.powerdns.api_url is Some
                && c.integrations.powerdns.api_key_env is Some
            &&& c.modules.cloudflare.enabled ==> c.integrations.cloudflare.api_token_env is Some
            &&& c.modules.crowdsec.enabled ==> c.integrations.crowdsec.local_api_url is Some
                && c.integrations.crowdsec.api_key_env is Some
            &&& c.tls.acme.wildcard_enabled ==> c.tls.acme.dns_provider is Some
        },
        config_error(c) == Some(ConfigValidationError::MissingPowerDnsApiUrl) ==> c.modules.powerdns.enabled
            && c.integrations.powerdns.api_url is None,
        config_error(c) == Some(ConfigValidationError::MissingPowerDnsApiKeyEnv)
            ==> c.modules.powerdns.enabled && c.integrations.powerdns.api_key_env is None,
        config_error(c) == Some(ConfigValidationError::MissingCloudflareApiTokenEnv)
            ==> c.modules.cloudflare.enabled && c.integrations.cloudflare.api_token_env is None,
        config_error(c) == Some(ConfigValidationError::MissingCrowdSecApiUrl) ==> c.modules.crowdsec.enabled
            && c.integrations.crowdsec.local_api_url is None,
        config_error(c) == Some(ConfigValidationError::MissingCrowdSecApiKeyEnv) ==> c.modules.crowdsec.enabled
            && c.integrations.crowdsec.api_key_env is None,
        config_error(c) == Some(ConfigValidationError::WildcardAcmeRequiresDnsProvider)
            ==> c.tls.acme.wildcard_enabled && c.tls.acme.dns_provider is None,
        c.tls.acme.dns_provider is Some ==> config_error(c) != Some(
            ConfigValidationError::WildcardAcmeRequiresDnsProvider,
        ),
{
}

} // verus!
