use ark_resolver::ark_url_formatter::{ArkUrlFormatterConfig, ArkUrlFormatterService};
use ark_resolver::ark_url_settings::ArkUrlSettings;
use ark_resolver::errors::{ArkUrlFormatterError, ArkUrlInfoError, SettingsError};
use ark_resolver::legacy_uuid::UuidGenerationAdapter;
use ark_resolver::parser::ArkPathParser;
use ark_resolver::ports::{ArkUrlFormatterPort, ConfigurationPort};
use ark_resolver::processor::ArkUrlInfoProcessor;
use ark_resolver::settings::{
    ArkConfig, DefaultSettingsValidator, ProjectConfig, Settings, SettingsRegistry,
    SettingsValidator,
};
use ark_resolver::string_map::StringMap;
use ark_resolver::template::TemplateAdapter;

fn map(pairs: &[(&str, &str)]) -> StringMap {
    let mut m = StringMap::new();
    for (k, v) in pairs {
        m.insert(k.to_string(), v.to_string());
    }
    m
}

#[test]
fn test_project_config_boolean_parsing() {
    let config = ProjectConfig::new(map(&[
        ("BoolTrue", "true"),
        ("BoolFalse", "false"),
        ("BoolOne", "1"),
        ("BoolZero", "0"),
        ("BoolInvalid", "invalid"),
    ]));
    assert_eq!(config.get_boolean("BoolTrue"), Ok(true));
    assert_eq!(config.get_boolean("BoolFalse"), Ok(false));
    assert_eq!(config.get_boolean("BoolOne"), Ok(true));
    assert_eq!(config.get_boolean("BoolZero"), Ok(false));
    assert_eq!(config.get_boolean("NonExistent"), Ok(false));
    assert!(config.get_boolean("BoolInvalid").is_err());
}

#[test]
fn test_project_config_merge_with_defaults() {
    let defaults = map(&[
        ("DefaultKey", "default_value"),
        ("OverrideKey", "default_override"),
    ]);
    let config = ProjectConfig::new(map(&[
        ("ProjectKey", "project_value"),
        ("OverrideKey", "project_override"),
    ]));
    let merged = config.merge_with_defaults(&defaults);
    assert_eq!(merged.get("DefaultKey"), Some(&"default_value".to_string()));
    assert_eq!(merged.get("ProjectKey"), Some(&"project_value".to_string()));
    assert_eq!(
        merged.get("OverrideKey"),
        Some(&"project_override".to_string())
    );
}

#[test]
fn test_settings_registry() {
    let defaults = map(&[("DefaultKey", "default_value")]);
    let project_config = map(&[("ProjectKey", "project_value")]);
    let projects = vec![("test".to_string(), ProjectConfig::new(project_config))];
    let registry = SettingsRegistry::new(projects, defaults);

    let config = registry.get_project_config("test").unwrap();
    assert_eq!(config.get("DefaultKey"), Some(&"default_value".to_string()));
    assert_eq!(config.get("ProjectKey"), Some(&"project_value".to_string()));

    let config_upper = registry.get_project_config("TEST").unwrap();
    assert_eq!(
        config_upper.get("ProjectKey"),
        Some(&"project_value".to_string())
    );

    assert!(registry.get_project_config("nonexistent").is_none());
}

#[test]
fn boolean_error_message_and_defaults() {
    let config = ProjectConfig::new(map(&[("AllowVersion0", "yes")]));
    assert_eq!(
        config.get_boolean("AllowVersion0"),
        Err("Invalid boolean value for key 'AllowVersion0': yes".to_string())
    );
    let registry = SettingsRegistry::new(Vec::new(), map(&[("TopLevelObjectUrl", "http://dasch.swiss")]));
    assert_eq!(
        registry.get_default_config("TopLevelObjectUrl"),
        Some("http://dasch.swiss".to_string())
    );
    assert_eq!(registry.get_default_config("Missing"), None);
}

fn ark_config(external_host: &str) -> ArkConfig {
    ArkConfig::new(
        external_host.to_string(),
        "0.0.0.0".to_string(),
        "3336".to_string(),
        "00000".to_string(),
        "true".to_string(),
        "registry.ini".to_string(),
        "secret".to_string(),
    )
}

#[test]
fn test_ark_config_validation() {
    let valid_config = ark_config("ark.example.org");
    assert!(valid_config.validate().is_ok());
    let invalid_config = ark_config("");
    assert!(invalid_config.validate().is_err());
}

#[test]
fn test_settings_validation() {
    let registry = || SettingsRegistry::new(Vec::new(), StringMap::new());
    let valid_settings = Settings::new(ark_config("ark.example.org"), registry(), 1, 982451653);
    assert!(valid_settings.validate().is_ok());
    let invalid_version = Settings::new(ark_config("ark.example.org"), registry(), 0, 982451653);
    assert!(invalid_version.validate().is_err());
    let invalid_factor = Settings::new(ark_config("ark.example.org"), registry(), 1, 0);
    assert!(invalid_factor.validate().is_err());
}

#[test]
fn test_default_settings_validator() {
    let validator = DefaultSettingsValidator;
    assert!(validator.validate_ark_config(&ark_config("ark.example.org")).is_ok());
    assert!(validator.validate_ark_config(&ark_config("")).is_err());
}

#[test]
fn validation_messages() {
    assert_eq!(
        ark_config("").validate(),
        Err("ARK external host cannot be empty".to_string())
    );
    let validator = DefaultSettingsValidator;
    let registry = SettingsRegistry::new(
        vec![
            ("0001".to_string(), ProjectConfig::new(map(&[("Host", "h")]))),
            ("0002".to_string(), ProjectConfig::new(StringMap::new())),
        ],
        StringMap::new(),
    );
    assert_eq!(
        validator.validate_registry(&registry),
        Err(SettingsError::ValidationError(
            "Invalid project configuration for '0002': Configuration validation failed: Project configuration cannot be empty".to_string()
        ))
    );
    let config = ark_config("ark.example.org").to_config_map();
    assert_eq!(config.get("ArkNaan"), Some(&"00000".to_string()));
    assert_eq!(config.get("ArkGithubSecret"), Some(&"secret".to_string()));
}

fn resolver_settings() -> ArkUrlSettings {
    let registry = SettingsRegistry::new(
        vec![
            (
                "0001".to_string(),
                ProjectConfig::new(map(&[("ProjectHost", "project.dasch.swiss")])),
            ),
            (
                "080e".to_string(),
                ProjectConfig::new(map(&[
                    ("Host", "data.dasch.swiss"),
                    ("AllowVersion0", "true"),
                ])),
            ),
            ("0002".to_string(), ProjectConfig::new(map(&[("AllowVersion0", "maybe")]))),
        ],
        map(&[
            ("TopLevelObjectUrl", "http://dasch.swiss"),
            ("Host", "app.dasch.swiss"),
            ("ProjectHost", "meta.dasch.swiss"),
            ("ResourceIri", "http://rdfh.ch/${project_id}/${resource_id}"),
            ("ProjectIri", "http://rdfh.ch/projects/${project_id}"),
            ("ResourceRedirectUrl", "https://${host}/resource/${resource_iri}"),
        ]),
    );
    ArkUrlSettings::new(
        ProjectConfig::new(ark_config("ark.example.org").to_config_map()),
        registry,
        "00000".to_string(),
        1,
        982451653,
    )
}

#[test]
fn settings_as_configuration() {
    let settings = resolver_settings();
    assert_eq!(settings.get_top_level_redirect_url(), "http://dasch.swiss");
    assert_eq!(settings.get_project_host("0001"), Ok("project.dasch.swiss".to_string()));
    assert_eq!(settings.get_project_host("080E"), Ok("meta.dasch.swiss".to_string()));
    assert_eq!(settings.get_project_host("9999"), Ok("meta.dasch.swiss".to_string()));
    assert_eq!(
        settings.get_project_template("080E", "Host"),
        Ok("data.dasch.swiss".to_string())
    );
    assert_eq!(
        settings.get_project_template("0001", "Host"),
        Ok("app.dasch.swiss".to_string())
    );
    assert_eq!(
        settings.get_project_template("9999", "Host"),
        Err(ArkUrlInfoError::TemplateNotFound { template_name: "Host".to_string() })
    );
    assert_eq!(settings.is_version_0_allowed("080E"), Ok(true));
    assert_eq!(settings.is_version_0_allowed("0001"), Ok(false));
    assert!(matches!(
        settings.is_version_0_allowed("0002"),
        Err(ArkUrlInfoError::ConfigurationError { .. })
    ));
    assert!(matches!(
        settings.is_version_0_allowed("9999"),
        Err(ArkUrlInfoError::ConfigurationError { .. })
    ));
}

#[test]
fn settings_as_formatter_configuration() {
    let settings = resolver_settings();
    assert_eq!(settings.get_ark_naan(), Ok("00000".to_string()));
    assert_eq!(ArkUrlFormatterConfig::get_dsp_ark_version(&settings), Ok("1".to_string()));
    assert_eq!(ConfigurationPort::get_dsp_ark_version(&settings), 1);
    assert_eq!(settings.get_external_host(), Ok("ark.example.org".to_string()));
    assert_eq!(settings.get_use_https_proxy(), Ok(true));
    assert_eq!(
        ArkUrlFormatterConfig::match_resource_iri(&settings, "http://rdfh.ch/0001/x"),
        Ok(("0001".to_string(), "x".to_string()))
    );
    assert_eq!(
        ArkUrlFormatterConfig::match_resource_iri(&settings, "http://other/0001/x"),
        Err(ArkUrlFormatterError::InvalidResourceIri("http://other/0001/x".to_string()))
    );
    let service = ArkUrlFormatterService::new(settings);
    assert_eq!(
        service
            .resource_iri_to_ark_url("http://rdfh.ch/0001/cmfk1DMHRBiR4-_6HXpEFA", None, None)
            .unwrap(),
        "https://ark.example.org/ark:/00000/1/0001/cmfk1DMHRBiR4=_6HXpEFAn"
    );
}

#[test]
fn resolve_with_settings() {
    let engine = ArkUrlInfoProcessor::new(
        ArkPathParser::new("00000".to_string()),
        resolver_settings(),
        TemplateAdapter,
        UuidGenerationAdapter,
    );
    let info = engine
        .parse_ark_id("ark:/00000/1/0001/cmfk1DMHRBiR4=_6HXpEFAn")
        .unwrap();
    assert_eq!(
        engine.generate_redirect_url(&info).unwrap(),
        "https://app.dasch.swiss/resource/http%3A%2F%2Frdfh.ch%2F0001%2Fcmfk1DMHRBiR4-_6HXpEFA"
    );
    let legacy = engine.parse_ark_id("ark:/00000/080e-779b9990a0c3f-6e").unwrap();
    assert_eq!(
        engine.generate_resource_iri(&legacy).unwrap(),
        "http://rdfh.ch/080E/Ef9heHjPWDS7dMR_gGax2Q"
    );
    assert_eq!(
        engine.parse_ark_id("ark:/00000/0001-779b9990a0c3f-6e"),
        Err(ArkUrlInfoError::Version0NotAllowed {
            ark_id: "ark:/00000/0001-779b9990a0c3f-6e".to_string()
        })
    );
    let top = engine.parse_ark_id("ark:/00000/1").unwrap();
    assert_eq!(engine.generate_redirect_url(&top).unwrap(), "http://dasch.swiss");
}

#[test]
fn test_config_wrapper_boolean_parsing() {
    let wrapper = ProjectConfig::new(map(&[
        ("true_val", "true"),
        ("false_val", "false"),
        ("one_val", "1"),
        ("zero_val", "0"),
        ("invalid_val", "invalid"),
    ]));
    assert_eq!(wrapper.get_boolean("true_val").unwrap(), true);
    assert_eq!(wrapper.get_boolean("false_val").unwrap(), false);
    assert_eq!(wrapper.get_boolean("one_val").unwrap(), true);
    assert_eq!(wrapper.get_boolean("zero_val").unwrap(), false);
    assert_eq!(wrapper.get_boolean("missing_val").unwrap(), false);
    assert!(wrapper.get_boolean("invalid_val").is_err());
}

#[test]
fn test_config_wrapper_get() {
    let wrapper = ProjectConfig::new(map(&[("key1", "value1"), ("key2", "value2")]));
    assert_eq!(wrapper.get("key1"), Some(&"value1".to_string()));
    assert_eq!(wrapper.get("key2"), Some(&"value2".to_string()));
    assert_eq!(wrapper.get("missing"), None);
}

#[test]
fn test_config_wrapper_from_hashmap() {
    let wrapper = ProjectConfig::new(map(&[("test_key", "test_value")]));
    assert_eq!(wrapper.get("test_key"), Some(&"test_value".to_string()));
}

fn settings_formatter() -> ArkUrlFormatterService<ArkUrlSettings> {
    ArkUrlFormatterService::new(resolver_settings())
}

#[test]
fn test_pyo3_adapter_resource_iri_to_ark_id() {
    let formatter = settings_formatter();
    let resource_iri = "http://rdfh.ch/0001/cmfk1DMHRBiR4-_6HXpEFA";
    let result = formatter.resource_iri_to_ark_id(resource_iri, None).unwrap();
    assert!(result.starts_with("ark:/00000/1/0001/"));
    assert!(result.contains("cmfk1DMHRBiR4=_6HXpEFA"));
    assert!(result.ends_with("n"));
}

#[test]
fn test_pyo3_adapter_resource_iri_to_ark_id_with_timestamp() {
    let formatter = settings_formatter();
    let resource_iri = "http://rdfh.ch/0001/cmfk1DMHRBiR4-_6HXpEFA";
    let timestamp = "20180604T085622513Z";
    let result = formatter
        .resource_iri_to_ark_id(resource_iri, Some(timestamp))
        .unwrap();
    assert!(result.starts_with("ark:/00000/1/0001/"));
    assert!(result.contains("cmfk1DMHRBiR4=_6HXpEFA"));
    assert!(result.ends_with(".20180604T085622513Z"));
}

#[test]
fn test_pyo3_adapter_resource_iri_to_ark_url() {
    let formatter = settings_formatter();
    let resource_iri = "http://rdfh.ch/0001/cmfk1DMHRBiR4-_6HXpEFA";
    let result = formatter
        .resource_iri_to_ark_url(resource_iri, None, None)
        .unwrap();
    assert!(result.starts_with("https://ark.example.org/ark:/00000/1/0001/"));
    assert!(result.contains("cmfk1DMHRBiR4=_6HXpEFA"));
    assert!(result.ends_with("n"));
}

#[test]
fn test_pyo3_adapter_resource_iri_to_ark_url_with_value_and_timestamp() {
    let formatter = settings_formatter();
    let resource_iri = "http://rdfh.ch/0001/cmfk1DMHRBiR4-_6HXpEFA";
    let value_id = "pLlW4ODASumZfZFbJdpw1g";
    let timestamp = "20180604T085622513Z";
    let result = formatter
        .resource_iri_to_ark_url(resource_iri, Some(value_id), Some(timestamp))
        .unwrap();
    assert!(result.starts_with("https://ark.example.org/ark:/00000/1/0001/"));
    assert!(result.contains("cmfk1DMHRBiR4=_6HXpEFA"));
    assert!(result.contains("pLlW4ODASumZfZFbJdpw1g"));
    assert!(result.ends_with(".20180604T085622513Z"));
}

#[test]
fn test_pyo3_adapter_format_ark_url() {
    let formatter = settings_formatter();
    let result = formatter
        .format_ark_url("0001", "cmfk1DMHRBiR4=_6HXpEFAn", None, None)
        .unwrap();
    assert_eq!(
        result,
        "https://ark.example.org/ark:/00000/1/0001/cmfk1DMHRBiR4=_6HXpEFAn"
    );
}

#[test]
fn test_pyo3_adapter_format_ark_url_with_value_and_timestamp() {
    let formatter = settings_formatter();
    let result = formatter
        .format_ark_url(
            "0001",
            "cmfk1DMHRBiR4=_6HXpEFAn",
            Some("pLlW4ODASumZfZFbJdpw1gu"),
            Some("20180604T085622513Z"),
        )
        .unwrap();
    assert_eq!(result, "https://ark.example.org/ark:/00000/1/0001/cmfk1DMHRBiR4=_6HXpEFAn/pLlW4ODASumZfZFbJdpw1gu.20180604T085622513Z");
}

#[test]
fn test_pyo3_adapter_invalid_resource_iri() {
    let formatter = settings_formatter();
    let result = formatter.resource_iri_to_ark_id("invalid://example.com", None);
    assert!(result.is_err());
}

#[test]
fn test_pyo3_adapter_empty_timestamp() {
    let formatter = settings_formatter();
    let resource_iri = "http://rdfh.ch/0001/cmfk1DMHRBiR4-_6HXpEFA";
    let result = formatter.resource_iri_to_ark_id(resource_iri, Some(""));
    assert!(result.is_err());
}

#[test]
fn test_pyo3_adapter_empty_project_id() {
    let formatter = settings_formatter();
    let result = formatter.format_ark_url("", "test", None, None);
    assert!(result.is_err());
}

#[test]
fn test_pyo3_adapter_as_port() {
    let formatter = settings_formatter();
    let port: &dyn ArkUrlFormatterPort = &formatter;
    let result = port
        .resource_iri_to_ark_id("http://rdfh.ch/0001/cmfk1DMHRBiR4-_6HXpEFA", None)
        .unwrap();
    assert!(result.starts_with("ark:/00000/1/0001/"));
}
