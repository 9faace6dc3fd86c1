use oxmux::configuration::address::parse_ip_address;
use oxmux::configuration::parse_error::classify_parse_error;
use oxmux::{
    validate_raw_configuration, ConfigurationErrorKind, ConfigurationSourceMetadata,
    ConfigurationUpdateIntent, CoreError, FileConfigurationState, InvalidConfigurationValue,
    IpAddress, LoggingSetting, AutoStartIntent, RawAccountConfiguration, RawConfiguration,
    RawLifecycleConfiguration, RawObservabilityConfiguration, RawProviderConfiguration,
    RawProxyConfiguration, RawRoutingConfiguration, RawRoutingDefaultConfiguration,
    RawSettingValue, RoutingDefault,
};

fn text(value: &str) -> Option<String> {
    Some(value.to_string())
}

fn provider(id: &str, family: &str, routing_eligible: bool, account: &str, credential: &str) -> RawProviderConfiguration {
    RawProviderConfiguration {
        id: text(id),
        protocol_family: text(family),
        routing_eligible: Some(routing_eligible),
        accounts: vec![RawAccountConfiguration { id: text(account), credential_reference: text(credential) }],
    }
}

fn routing_default(name: &str, model: &str, provider_id: &str, account_id: Option<&str>, fallback: bool) -> RawRoutingDefaultConfiguration {
    RawRoutingDefaultConfiguration {
        name: text(name),
        model: text(model),
        provider_id: text(provider_id),
        account_id: account_id.map(str::to_string),
        fallback_enabled: Some(fallback),
    }
}

fn valid_raw() -> RawConfiguration {
    RawConfiguration {
        version: Some(1),
        proxy: Some(RawProxyConfiguration { listen_address: text("127.0.0.1"), port: Some(8787) }),
        providers: vec![provider("mock-openai", "openai", true, "default", "mock-openai/default")],
        routing: RawRoutingConfiguration {
            defaults: vec![routing_default("chat", "gpt-4o-mini", "mock-openai", Some("default"), true)],
        },
        observability: RawObservabilityConfiguration::default(),
        lifecycle: RawLifecycleConfiguration::default(),
    }
}

fn issues(error: CoreError) -> Vec<(ConfigurationErrorKind, String, InvalidConfigurationValue)> {
    match error {
        CoreError::Configuration { errors } => errors
            .into_iter()
            .map(|error| (error.kind, error.field_path, error.invalid_value))
            .collect(),
        other => panic!("expected configuration error, got {other:?}"),
    }
}

#[test]
fn valid_raw_configuration_validates_into_typed_configuration() {
    let configuration =
        validate_raw_configuration(valid_raw(), ConfigurationSourceMetadata::memory()).expect("valid");
    assert_eq!(configuration.proxy.listen_address, IpAddress::V4(127, 0, 0, 1));
    assert_eq!(configuration.proxy.port, 8787);
    assert_eq!(configuration.providers.len(), 1);
    assert!(configuration.providers[0].accounts[0].credential_reference_present());
    assert_eq!(configuration.routing_defaults[0].name, "chat");
    assert_eq!(configuration.routing_default_groups.len(), 1);
    assert_eq!(configuration.routing_policy.routes[0].resolved_model, "gpt-4o-mini");
    assert_eq!(configuration.logging, LoggingSetting::Standard);
    assert!(configuration.usage_collection_enabled);
    assert_eq!(configuration.auto_start, AutoStartIntent::Disabled);
    let snapshot = configuration.configuration_snapshot();
    assert_eq!(snapshot.routing_default.name, "chat");
    assert_eq!(snapshot.provider_references, vec!["mock-openai".to_string()]);
    let summaries = configuration.provider_summaries();
    assert_eq!(summaries[0].accounts[0].account_id, "default");
}

#[test]
fn every_problem_is_reported_in_document_order() {
    let mut raw = valid_raw();
    raw.version = Some(2);
    raw.proxy = Some(RawProxyConfiguration { listen_address: text("8.8.8.8"), port: Some(0) });
    raw.observability.logging = text("trace");
    raw.observability.usage_collection = Some(RawSettingValue::Other);
    raw.lifecycle.auto_start = text("login-item");
    let error = validate_raw_configuration(raw, ConfigurationSourceMetadata::memory()).expect_err("invalid");
    assert_eq!(
        issues(error),
        vec![
            (ConfigurationErrorKind::InvalidVersion, "version".to_string(), InvalidConfigurationValue::Unsupported),
            (ConfigurationErrorKind::InvalidListenAddress, "proxy.listen-address".to_string(), InvalidConfigurationValue::Unsupported),
            (ConfigurationErrorKind::InvalidPort, "proxy.port".to_string(), InvalidConfigurationValue::OutOfRange),
            (ConfigurationErrorKind::InvalidLoggingSetting, "observability.logging".to_string(), InvalidConfigurationValue::Unsupported),
            (ConfigurationErrorKind::InvalidUsageCollectionSetting, "observability.usage-collection".to_string(), InvalidConfigurationValue::Malformed),
            (ConfigurationErrorKind::InvalidAutoStartIntent, "lifecycle.auto-start".to_string(), InvalidConfigurationValue::Unsupported),
        ]
    );
}

#[test]
fn hostname_listen_address_is_malformed_and_missing_proxy_is_reported() {
    let mut raw = valid_raw();
    raw.proxy = Some(RawProxyConfiguration { listen_address: text("localhost"), port: Some(70000) });
    assert_eq!(
        issues(validate_raw_configuration(raw, ConfigurationSourceMetadata::memory()).expect_err("invalid")),
        vec![
            (ConfigurationErrorKind::InvalidListenAddress, "proxy.listen-address".to_string(), InvalidConfigurationValue::Malformed),
            (ConfigurationErrorKind::InvalidPort, "proxy.port".to_string(), InvalidConfigurationValue::OutOfRange),
        ]
    );
    let mut raw = valid_raw();
    raw.proxy = None;
    assert_eq!(
        issues(validate_raw_configuration(raw, ConfigurationSourceMetadata::memory()).expect_err("invalid")),
        vec![(ConfigurationErrorKind::MissingRequiredField, "proxy".to_string(), InvalidConfigurationValue::Missing)]
    );
}

#[test]
fn provider_account_and_reference_problems_name_indexed_fields() {
    let mut raw = valid_raw();
    raw.providers = vec![
        provider("mock-openai", "openai", true, "default", "sk-secret-token"),
        provider("mock-openai", "smtp", true, "default", "mock/ok"),
    ];
    raw.routing.defaults = vec![
        routing_default("chat", "gpt-4o-mini", "missing-provider", None, true),
        routing_default("chat", "gpt-4o-mini", "mock-openai", Some("missing-account"), true),
    ];
    assert_eq!(
        issues(validate_raw_configuration(raw, ConfigurationSourceMetadata::memory()).expect_err("invalid")),
        vec![
            (ConfigurationErrorKind::InvalidCredentialReference, "providers[0].accounts[0].credential-reference".to_string(), InvalidConfigurationValue::SecretLike),
            (ConfigurationErrorKind::DuplicateProviderId, "providers[1].id".to_string(), InvalidConfigurationValue::Duplicate),
            (ConfigurationErrorKind::InvalidProviderProtocolFamily, "providers[1].protocol-family".to_string(), InvalidConfigurationValue::Unsupported),
            (ConfigurationErrorKind::UnknownProviderReference, "routing.defaults[0].provider-id".to_string(), InvalidConfigurationValue::UnknownReference),
            (ConfigurationErrorKind::UnknownAccountReference, "routing.defaults[1].account-id".to_string(), InvalidConfigurationValue::UnknownReference),
        ]
    );
}

#[test]
fn disabled_fallback_followed_by_same_group_and_duplicates_are_refused() {
    let mut raw = valid_raw();
    raw.routing.defaults = vec![
        routing_default("chat", "gpt-4o-mini", "mock-openai", Some("default"), false),
        routing_default("chat", "gpt-4o-mini", "mock-openai", Some("default"), true),
    ];
    assert_eq!(
        issues(validate_raw_configuration(raw, ConfigurationSourceMetadata::memory()).expect_err("invalid")),
        vec![
            (ConfigurationErrorKind::InvalidRoutingDefault, "routing.defaults[0].fallback-enabled".to_string(), InvalidConfigurationValue::Unsupported),
            (ConfigurationErrorKind::InvalidRoutingDefault, "routing.defaults[1].provider-id".to_string(), InvalidConfigurationValue::Duplicate),
        ]
    );
}

#[test]
fn routing_policy_routes_are_ordered_by_model() {
    let mut raw = valid_raw();
    raw.providers.push(provider("mock-anthropic", "anthropic", true, "primary", "mock-anthropic/primary"));
    raw.routing.defaults = vec![
        routing_default("chat", "zeta-model", "mock-openai", Some("default"), true),
        routing_default("chat", "alpha-model", "mock-anthropic", None, true),
        routing_default("chat", "zeta-model", "mock-anthropic", Some("primary"), true),
    ];
    let configuration =
        validate_raw_configuration(raw, ConfigurationSourceMetadata::memory()).expect("valid");
    let models: Vec<&str> =
        configuration.routing_policy.routes.iter().map(|route| route.resolved_model.as_str()).collect();
    assert_eq!(models, vec!["alpha-model", "zeta-model"]);
    assert_eq!(configuration.routing_policy.routes[1].candidates.len(), 2);
    assert_eq!(configuration.routing_default_groups.len(), 2);
    assert_eq!(configuration.routing_default_groups[0].candidates.len(), 2);
}

#[test]
fn failed_replacement_keeps_last_valid_configuration() {
    let mut state = FileConfigurationState::new();
    let first = validate_raw_configuration(valid_raw(), ConfigurationSourceMetadata::memory());
    assert!(state.replace_with_load(ConfigurationSourceMetadata::memory(), first).is_ok());
    assert!(state.last_failure().is_none());
    let mut broken = valid_raw();
    broken.version = None;
    let second = validate_raw_configuration(broken, ConfigurationSourceMetadata::memory());
    assert!(state.replace_with_load(ConfigurationSourceMetadata::memory(), second).is_err());
    assert_eq!(state.active().expect("kept").proxy.port, 8787);
    let failure = state.last_failure().expect("recorded");
    assert_eq!(failure.errors[0].field_path, "version");
    let third = validate_raw_configuration(valid_raw(), ConfigurationSourceMetadata::memory());
    assert!(state.replace_with_load(ConfigurationSourceMetadata::memory(), third).is_ok());
    assert!(state.last_failure().is_none());
}

#[test]
fn parse_errors_are_classified_by_message_and_table() {
    let contents = "version = 1\n[lifecycle]\nextra-field = true\n";
    let start = contents.find("extra-field").expect("field");
    let (kind, path, value) =
        classify_parse_error(contents, Some(start), "unknown field `extra-field`, expected `auto-start`");
    assert_eq!(kind, ConfigurationErrorKind::UnknownField);
    assert_eq!(path, "lifecycle.extra-field");
    assert_eq!(value, InvalidConfigurationValue::Unsupported);
    let (kind, path, _) = classify_parse_error("[[providers]]\nbad = 1\n", Some(14), "unknown field `bad`");
    assert_eq!(kind, ConfigurationErrorKind::UnknownField);
    assert_eq!(path, "providers.bad");
    let (kind, path, value) = classify_parse_error("x", None, "missing field `version`");
    assert_eq!(kind, ConfigurationErrorKind::MissingRequiredField);
    assert_eq!(path, "configuration");
    assert_eq!(value, InvalidConfigurationValue::Missing);
    let (kind, _, value) = classify_parse_error("x", None, "expected `=`");
    assert_eq!(kind, ConfigurationErrorKind::ParseFailed);
    assert_eq!(value, InvalidConfigurationValue::Malformed);
}

#[test]
fn address_text_follows_the_standard_parser() {
    let v6 = |g: [u16; 8]| Some(IpAddress::V6(g[0], g[1], g[2], g[3], g[4], g[5], g[6], g[7]));
    let cases: Vec<(&str, Option<IpAddress>)> = vec![
        ("127.0.0.1", Some(IpAddress::V4(127, 0, 0, 1))),
        ("8.8.8.8", Some(IpAddress::V4(8, 8, 8, 8))),
        ("01.0.0.1", None),
        ("256.0.0.1", None),
        ("1.2.3", None),
        ("1.2.3.4.5", None),
        ("localhost", None),
        ("::1", v6([0, 0, 0, 0, 0, 0, 0, 1])),
        ("::", v6([0; 8])),
        ("1:2:3:4:5:6:7:8", v6([1, 2, 3, 4, 5, 6, 7, 8])),
        ("1::8", v6([1, 0, 0, 0, 0, 0, 0, 8])),
        ("::ffff:1.2.3.4", v6([0, 0, 0, 0, 0, 0xffff, 0x0102, 0x0304])),
        ("1:2:3:4:5:6:1.2.3.4", v6([1, 2, 3, 4, 5, 6, 0x0102, 0x0304])),
        ("1::2::3", None),
        ("12345::", None),
        ("1:2:3:4:5:6:7:8:9", None),
        ("1:2:3:4:5:6:7::", v6([1, 2, 3, 4, 5, 6, 7, 0])),
        ("::1.2.3.4", v6([0, 0, 0, 0, 0, 0, 0x0102, 0x0304])),
        ("1.2.3.4::", None),
        ("fe80::1%1", None),
        (":1", None),
        ("1:", None),
        ("ABCD:ef01::", v6([0xabcd, 0xef01, 0, 0, 0, 0, 0, 0])),
        ("1::2:3:4:5:6:7", v6([1, 0, 2, 3, 4, 5, 6, 7])),
        ("1::2:3:4:5:6:7:8", None),
    ];
    for (case, expected) in cases {
        assert_eq!(parse_ip_address(case), expected, "{case}");
    }
}

#[test]
fn ipv6_loopback_is_an_accepted_listen_address() {
    let mut raw = valid_raw();
    raw.proxy = Some(RawProxyConfiguration { listen_address: text("::1"), port: Some(8787) });
    let configuration =
        validate_raw_configuration(raw, ConfigurationSourceMetadata::memory()).expect("valid");
    assert_eq!(configuration.proxy.listen_address, IpAddress::V6(0, 0, 0, 0, 0, 0, 0, 1));
}

#[test]
fn update_intent_reports_the_quoted_address() {
    let invalid = ConfigurationUpdateIntent {
        listen_address: Some("local host".to_string()),
        ..ConfigurationUpdateIntent::default()
    };
    match invalid.validate() {
        Err(CoreError::ConfigurationValidation { field, message }) => {
            assert_eq!(field, "listen_address");
            assert_eq!(message, "\"local host\" is not a valid IP address");
        }
        other => panic!("unexpected {other:?}"),
    }
    let valid = ConfigurationUpdateIntent {
        listen_address: Some("127.0.0.1".to_string()),
        routing_default: Some(RoutingDefault::named("primary")),
        ..ConfigurationUpdateIntent::default()
    };
    let validated = valid.validate().expect("valid");
    assert_eq!(validated.listen_address, Some(IpAddress::V4(127, 0, 0, 1)));
}

#[test]
fn file_sources_record_their_path_and_copies_keep_it() {
    let source = oxmux::ConfigurationSourceMetadata::for_path("configs/oxmux.toml");
    assert_eq!(source.path, Some(std::path::PathBuf::from("configs/oxmux.toml")));
    assert_eq!(source.description, "configs/oxmux.toml");
    let copy = source.clone();
    assert_eq!(copy.path, Some(std::path::PathBuf::from("configs/oxmux.toml")));
    assert_eq!(copy, source);
    let memory = oxmux::ConfigurationSourceMetadata::memory();
    assert_eq!(memory.path, None);
    assert_eq!(memory.description, "in-memory TOML contents");
}
