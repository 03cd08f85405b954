use baia_core::config::{
    ConfigFileStore, ConfigSyncError, ConfigValidationError, DnsProvider, PlatformConfig, PowerDnsMode,
};

#[test]
fn default_config_enables_required_foundation_modules() {
    let config = PlatformConfig::default();

    assert!(config.modules.acme.enabled);
    assert!(config.modules.redis.enabled);
    assert!(config.modules.metrics.enabled);
    assert_eq!(config.services.postgres.host, "postgres");
    assert_eq!(config.services.redis.host, "redis");
}

#[test]
fn validation_rejects_enabled_powerdns_without_api_url() {
    let mut config = PlatformConfig::default();
    config.modules.powerdns.enabled = true;
    config.integrations.powerdns.api_url = None;

    let error = config
        .validate()
        .expect_err("PowerDNS must require an API URL");

    assert_eq!(error, ConfigValidationError::MissingPowerDnsApiUrl);
}

#[test]
fn validation_rejects_wildcard_acme_without_dns_provider() {
    let mut config = PlatformConfig::default();
    config.tls.acme.wildcard_enabled = true;
    config.tls.acme.dns_provider = None;

    let error = config
        .validate()
        .expect_err("Wildcard ACME must require DNS-01 provider");

    assert_eq!(
        error,
        ConfigValidationError::WildcardAcmeRequiresDnsProvider
    );
}

#[test]
fn default_config_is_valid_and_points_at_the_compose_services() {
    let config = PlatformConfig::default();

    assert_eq!(config.validate(), Ok(()));
    assert_eq!(config.platform.public_url, "https://waf.localhost");
    assert_eq!(config.services.postgres.port, 5432);
    assert_eq!(config.services.redis.port, 6379);
    assert_eq!(config.services.caddy_admin_url, "http://caddy:2019");
    assert_eq!(config.integrations.powerdns.mode, PowerDnsMode::Integrated);
    assert!(!config.modules.powerdns.enabled);
    assert!(!config.tls.acme.wildcard_enabled);
}

#[test]
fn validation_reports_each_missing_integration_setting_in_order() {
    let mut config = PlatformConfig::default();
    config.modules.powerdns.enabled = true;
    config.integrations.powerdns.api_key_env = None;
    assert_eq!(config.validate(), Err(ConfigValidationError::MissingPowerDnsApiKeyEnv));

    config.integrations.powerdns.api_url = None;
    assert_eq!(config.validate(), Err(ConfigValidationError::MissingPowerDnsApiUrl));

    let mut config = PlatformConfig::default();
    config.modules.cloudflare.enabled = true;
    config.integrations.cloudflare.api_token_env = None;
    assert_eq!(config.validate(), Err(ConfigValidationError::MissingCloudflareApiTokenEnv));

    let mut config = PlatformConfig::default();
    config.modules.crowdsec.enabled = true;
    config.integrations.crowdsec.local_api_url = None;
    config.integrations.crowdsec.api_key_env = None;
    assert_eq!(config.validate(), Err(ConfigValidationError::MissingCrowdSecApiUrl));

    config.integrations.crowdsec.local_api_url = Some("http://crowdsec:8080".to_string());
    assert_eq!(config.validate(), Err(ConfigValidationError::MissingCrowdSecApiKeyEnv));

    let mut config = PlatformConfig::default();
    config.tls.acme.wildcard_enabled = true;
    config.tls.acme.dns_provider = Some(DnsProvider::Cloudflare);
    assert_eq!(config.validate(), Ok(()));
}

#[test]
fn invalid_configurations_are_neither_loaded_nor_saved() {
    let store = ConfigFileStore::new("config/platform.yaml");
    let mut invalid = PlatformConfig::default();
    invalid.modules.powerdns.enabled = true;
    invalid.integrations.powerdns.api_url = None;

    assert_eq!(store.path(), "config/platform.yaml");
    assert_eq!(
        store.check_before_save(&invalid),
        Err(ConfigSyncError::Validation(ConfigValidationError::MissingPowerDnsApiUrl))
    );
    assert_eq!(
        store.accept_loaded(invalid),
        Err(ConfigSyncError::Validation(ConfigValidationError::MissingPowerDnsApiUrl))
    );
    assert_eq!(store.check_before_save(&PlatformConfig::default()), Ok(()));
    assert_eq!(
        store.accept_loaded(PlatformConfig::default()),
        Ok(PlatformConfig::default())
    );
}
