use ark_resolver::ark_url_info::{redirect_template_name, ArkUrlInfo};
use ark_resolver::errors::{ArkUrlInfoError, ArkUrlInfoResult};
use ark_resolver::legacy_uuid::UuidGenerationAdapter;
use ark_resolver::parser::ArkPathParser;
use ark_resolver::ports::{
    ArkUrlInfoPort, ArkUrlParsingPort, ConfigurationPort, TemplatePort, UuidGenerationPort,
};
use ark_resolver::processor::ArkUrlInfoProcessor;
use ark_resolver::string_map::StringMap;
use ark_resolver::template::TemplateAdapter;

#[test]
fn test_new_ark_url_info() {
    let info = ArkUrlInfo::new(
        1,
        Some("0001".to_string()),
        Some("resource123".to_string()),
        None,
        None,
    );
    assert_eq!(info.url_version, 1);
    assert_eq!(info.project_id, Some("0001".to_string()));
    assert_eq!(info.resource_id, Some("resource123".to_string()));
    assert_eq!(info.value_id, None);
    assert_eq!(info.timestamp, None);
}

#[test]
fn test_get_timestamp_version_0() {
    let info = ArkUrlInfo::new(
        0,
        Some("0001".to_string()),
        Some("resource123".to_string()),
        None,
        Some("20240101".to_string()),
    );
    assert_eq!(info.get_timestamp(), Some("20240101T000000Z".to_string()));
}

#[test]
fn test_get_timestamp_version_1() {
    let info = ArkUrlInfo::new(
        1,
        Some("0001".to_string()),
        Some("resource123".to_string()),
        None,
        Some("20240101T123456Z".to_string()),
    );
    assert_eq!(info.get_timestamp(), Some("20240101T123456Z".to_string()));
}

#[test]
fn test_get_timestamp_none() {
    let info = ArkUrlInfo::new(
        1,
        Some("0001".to_string()),
        Some("resource123".to_string()),
        None,
        None,
    );
    assert_eq!(info.get_timestamp(), None);
}

#[test]
fn test_to_template_dict() {
    let info = ArkUrlInfo::new(
        1,
        Some("0001".to_string()),
        Some("resource123".to_string()),
        Some("value456".to_string()),
        Some("20240101T123456Z".to_string()),
    );
    let dict = info.to_template_dict();
    assert_eq!(dict.get("url_version"), Some(&"1".to_string()));
    assert_eq!(dict.get("project_id"), Some(&"0001".to_string()));
    assert_eq!(dict.get("resource_id"), Some(&"resource123".to_string()));
    assert_eq!(dict.get("value_id"), Some(&"value456".to_string()));
    assert_eq!(dict.get("timestamp"), Some(&"20240101T123456Z".to_string()));
}

#[test]
fn test_level_detection() {
    let project_info = ArkUrlInfo::new(1, Some("0001".to_string()), None, None, None);
    assert!(project_info.is_project_level());
    assert!(!project_info.is_resource_level());
    assert!(!project_info.is_value_level());

    let resource_info = ArkUrlInfo::new(
        1,
        Some("0001".to_string()),
        Some("resource123".to_string()),
        None,
        None,
    );
    assert!(!resource_info.is_project_level());
    assert!(resource_info.is_resource_level());
    assert!(!resource_info.is_value_level());

    let value_info = ArkUrlInfo::new(
        1,
        Some("0001".to_string()),
        Some("resource123".to_string()),
        Some("value456".to_string()),
        None,
    );
    assert!(!value_info.is_project_level());
    assert!(!value_info.is_resource_level());
    assert!(value_info.is_value_level());
}

#[test]
fn test_version_detection() {
    let v0_info = ArkUrlInfo::new(0, Some("0001".to_string()), None, None, None);
    assert!(v0_info.is_version_0());
    assert!(!v0_info.is_version_1());
    let v1_info = ArkUrlInfo::new(1, Some("0001".to_string()), None, None, None);
    assert!(!v1_info.is_version_0());
    assert!(v1_info.is_version_1());
}

#[test]
fn test_has_timestamp() {
    let with_timestamp = ArkUrlInfo::new(
        1,
        Some("0001".to_string()),
        None,
        None,
        Some("20240101T123456Z".to_string()),
    );
    assert!(with_timestamp.has_timestamp());
    let without_timestamp = ArkUrlInfo::new(1, Some("0001".to_string()), None, None, None);
    assert!(!without_timestamp.has_timestamp());
}

struct MockParser;
struct MockConfig;
struct MockTemplate;
struct MockUuidGenerator;

impl ArkUrlParsingPort for MockParser {
    fn parse_ark_v1(
        &self,
        _ark_id: &str,
    ) -> Option<(u32, Option<String>, Option<String>, Option<String>, Option<String>)> {
        Some((
            1,
            Some("0001".to_string()),
            Some("resource123".to_string()),
            None,
            None,
        ))
    }

    fn parse_ark_v0(&self, _ark_id: &str) -> Option<(String, String, Option<String>)> {
        Some(("0001".to_string(), "resource123".to_string(), None))
    }

    fn unescape_and_validate_uuid(
        &self,
        _ark_url: &str,
        escaped_uuid: &str,
    ) -> ArkUrlInfoResult<String> {
        Ok(escaped_uuid.to_string())
    }
}

impl ConfigurationPort for MockConfig {
    fn get_dsp_ark_version(&self) -> u32 {
        1
    }

    fn is_version_0_allowed(&self, _project_id: &str) -> ArkUrlInfoResult<bool> {
        Ok(true)
    }

    fn get_top_level_redirect_url(&self) -> String {
        "https://example.com/top".to_string()
    }

    fn get_project_template(
        &self,
        _project_id: &str,
        _template_name: &str,
    ) -> ArkUrlInfoResult<String> {
        Ok("https://example.com/template".to_string())
    }

    fn get_project_host(&self, _project_id: &str) -> ArkUrlInfoResult<String> {
        Ok("example.com".to_string())
    }
}

impl TemplatePort for MockTemplate {
    fn substitute(&self, _template: &str, _values: &StringMap) -> ArkUrlInfoResult<String> {
        Ok("https://example.com/substituted".to_string())
    }

    fn url_encode(&self, input: &str) -> ArkUrlInfoResult<String> {
        Ok(input.to_string())
    }
}

impl UuidGenerationPort for MockUuidGenerator {
    fn generate_v5_uuid(&self, _input: &str) -> ArkUrlInfoResult<String> {
        Ok("generated-uuid".to_string())
    }
}

fn mock_processor() -> ArkUrlInfoProcessor<MockParser, MockConfig, MockTemplate, MockUuidGenerator>
{
    ArkUrlInfoProcessor::new(MockParser, MockConfig, MockTemplate, MockUuidGenerator)
}

#[test]
fn test_parse_ark_v1_success() {
    let processor = mock_processor();
    let result = processor.parse_ark_id("ark:/12345/1/0001/resource123");
    assert!(result.is_ok());
    let ark_info = result.unwrap();
    assert_eq!(ark_info.url_version, 1);
    assert_eq!(ark_info.project_id, Some("0001".to_string()));
    assert_eq!(ark_info.resource_id, Some("resource123".to_string()));
}

#[test]
fn test_generate_redirect_url_top_level() {
    let processor = mock_processor();
    let ark_info = ArkUrlInfo::new(1, None, None, None, None);
    let result = processor.generate_redirect_url(&ark_info);
    assert!(result.is_ok());
    assert_eq!(result.unwrap(), "https://example.com/top");
}

#[test]
fn test_generate_redirect_url_project_level() {
    let processor = mock_processor();
    let ark_info = ArkUrlInfo::new(1, Some("0001".to_string()), None, None, None);
    let result = processor.generate_redirect_url(&ark_info);
    assert!(result.is_ok());
    assert_eq!(result.unwrap(), "https://example.com/substituted");
}

#[test]
fn test_generate_resource_iri() {
    let processor = mock_processor();
    let ark_info = ArkUrlInfo::new(
        1,
        Some("0001".to_string()),
        Some("resource123".to_string()),
        None,
        None,
    );
    let result = processor.generate_resource_iri(&ark_info);
    assert!(result.is_ok());
    assert_eq!(result.unwrap(), "https://example.com/substituted");
}

#[test]
fn test_generate_resource_iri_no_project_id() {
    let processor = mock_processor();
    let ark_info = ArkUrlInfo::new(1, None, None, None, None);
    let result = processor.generate_resource_iri(&ark_info);
    assert!(result.is_err());
    assert_eq!(result.unwrap_err(), ArkUrlInfoError::ProjectIdRequired);
}

#[test]
fn test_determine_redirect_template() {
    let project_info = ArkUrlInfo::new(1, Some("0001".to_string()), None, None, None);
    let result = redirect_template_name(&project_info);
    assert_eq!(result.unwrap(), "ProjectRedirectUrl");

    let resource_info = ArkUrlInfo::new(
        1,
        Some("0001".to_string()),
        Some("resource123".to_string()),
        None,
        None,
    );
    let result = redirect_template_name(&resource_info);
    assert_eq!(result.unwrap(), "ResourceRedirectUrl");

    let resource_info_with_timestamp = ArkUrlInfo::new(
        1,
        Some("0001".to_string()),
        Some("resource123".to_string()),
        None,
        Some("20240101T123456Z".to_string()),
    );
    let result = redirect_template_name(&resource_info_with_timestamp);
    assert_eq!(result.unwrap(), "ResourceVersionRedirectUrl");

    let value_info = ArkUrlInfo::new(
        1,
        Some("0001".to_string()),
        Some("resource123".to_string()),
        Some("value456".to_string()),
        None,
    );
    let result = redirect_template_name(&value_info);
    assert_eq!(result.unwrap(), "ValueRedirectUrl");

    let value_info_with_timestamp = ArkUrlInfo::new(
        1,
        Some("0001".to_string()),
        Some("resource123".to_string()),
        Some("value456".to_string()),
        Some("20240101T123456Z".to_string()),
    );
    let result = redirect_template_name(&value_info_with_timestamp);
    assert_eq!(result.unwrap(), "ValueVersionRedirectUrl");
}

#[test]
fn value_without_resource_has_no_template() {
    let info = ArkUrlInfo::new(1, Some("0001".to_string()), None, Some("v".to_string()), None);
    assert_eq!(
        redirect_template_name(&info),
        Err(ArkUrlInfoError::RedirectTemplateUndetermined)
    );
    let processor = mock_processor();
    assert_eq!(
        processor.generate_dsp_redirect_url(&info),
        Err(ArkUrlInfoError::RedirectTemplateUndetermined)
    );
}

#[test]
fn test_trait_objects() {
    fn _test_ark_url_info_port(_port: &dyn ArkUrlInfoPort) {}
    fn _test_parsing_port(_port: &dyn ArkUrlParsingPort) {}
    fn _test_config_port(_port: &dyn ConfigurationPort) {}
    fn _test_template_port(_port: &dyn TemplatePort) {}
    fn _test_uuid_port(_port: &dyn UuidGenerationPort) {}
}

#[test]
fn test_error_types() {
    let error = ArkUrlInfoError::invalid_ark_id("test");
    assert!(error.to_string().contains("test"));
}

#[test]
fn test_ark_url_parsing_adapter() {
    let parser = ArkPathParser::new("00000".to_string());
    assert!(parser.parse_ark_v1("ark:/00000/1/0003").is_some());
}

#[test]
fn test_template_adapter() {
    let adapter = TemplateAdapter;
    let mut values = StringMap::new();
    values.insert("host".to_string(), "example.com".to_string());
    values.insert("project_id".to_string(), "0001".to_string());
    let result = adapter.substitute("https://${host}/project/${project_id}", &values);
    assert!(result.is_ok());
    assert_eq!(result.unwrap(), "https://example.com/project/0001");
}

#[test]
fn test_url_encoding() {
    let adapter = TemplateAdapter;
    let result = adapter.url_encode("hello world");
    assert!(result.is_ok());
    assert_eq!(result.unwrap(), "hello%20world");
}

#[test]
fn test_uuid_generation() {
    let adapter = UuidGenerationAdapter;
    let result = adapter.generate_v5_uuid("test-input");
    assert!(result.is_ok());
    let uuid_str = result.unwrap();
    assert!(!uuid_str.is_empty());
    assert!(!uuid_str.contains("="));
}

#[test]
fn uuid_generation_exact_values() {
    let adapter = UuidGenerationAdapter;
    assert_eq!(adapter.generate_v5_uuid("test-input").unwrap(), "z4JeHTfrVJWLEjdgWwc90Q");
    assert_eq!(
        adapter.generate_v5_uuid("779b9990a0c3f").unwrap(),
        "Ef9heHjPWDS7dMR_gGax2Q"
    );
}

#[test]
fn substitution_bare_placeholders_and_unknown_ones() {
    let adapter = TemplateAdapter;
    let mut values = StringMap::new();
    values.insert("host".to_string(), "h.org".to_string());
    values.insert("host".to_string(), "example.org".to_string());
    let result = adapter
        .substitute("https://$host/${host}/${missing}/$other", &values)
        .unwrap();
    assert_eq!(result, "https://example.org/example.org/${missing}/$other");
    assert_eq!(adapter.url_encode("a/b?c=d&e~f.g-h_i").unwrap(), "a%2Fb%3Fc%3Dd%26e~f.g-h_i");
    assert_eq!(adapter.url_encode("é").unwrap(), "%C3%A9");
}

// A configuration with one project (0001, 0002 and 0003 share it) and
// templates that show every value.
struct TestConfig {
    version: u32,
    allow_v0: bool,
}

impl ConfigurationPort for TestConfig {
    fn get_dsp_ark_version(&self) -> u32 {
        self.version
    }

    fn is_version_0_allowed(&self, project_id: &str) -> ArkUrlInfoResult<bool> {
        if project_id == "0002" || project_id == "080E" {
            Ok(self.allow_v0)
        } else {
            Err(ArkUrlInfoError::configuration_error("Project configuration not found"))
        }
    }

    fn get_top_level_redirect_url(&self) -> String {
        "http://dasch.swiss".to_string()
    }

    fn get_project_template(
        &self,
        _project_id: &str,
        template_name: &str,
    ) -> ArkUrlInfoResult<String> {
        let t = match template_name {
            "Host" => "app.dasch.swiss",
            "ResourceIri" => "http://rdfh.ch/${project_id}/${resource_id}",
            "ProjectIri" => "http://rdfh.ch/projects/${project_id}",
            "ProjectRedirectUrl" => "https://${project_host}/projects/${project_iri}",
            "ResourceRedirectUrl" => "https://${host}/resource/${resource_iri}",
            "ResourceVersionRedirectUrl" => {
                "https://${host}/resource/${resource_iri}?version=${timestamp}"
            }
            "ValueRedirectUrl" => "https://${host}/value/${resource_iri}/${value_id}",
            "ValueVersionRedirectUrl" => {
                "https://${host}/value/${resource_iri}/${value_id}?version=${timestamp}"
            }
            _ => return Err(ArkUrlInfoError::template_not_found(template_name)),
        };
        Ok(t.to_string())
    }

    fn get_project_host(&self, _project_id: &str) -> ArkUrlInfoResult<String> {
        Ok("meta.dasch.swiss".to_string())
    }
}

fn engine(
    version: u32,
    allow_v0: bool,
) -> ArkUrlInfoProcessor<ArkPathParser, TestConfig, TemplateAdapter, UuidGenerationAdapter> {
    ArkUrlInfoProcessor::new(
        ArkPathParser::new("00000".to_string()),
        TestConfig { version, allow_v0 },
        TemplateAdapter,
        UuidGenerationAdapter,
    )
}

#[test]
fn parse_project_level_ark() {
    let info = engine(1, true).parse_ark_id("ark:/00000/1/0003").unwrap();
    assert_eq!(info.url_version, 1);
    assert_eq!(info.project_id, Some("0003".to_string()));
    assert_eq!(info.resource_id, None);
    assert_eq!(info.value_id, None);
    assert!(info.is_project_level());
}

#[test]
fn parse_resource_ark_unescapes_the_resource() {
    let info = engine(1, true)
        .parse_ark_id("ark:/00000/1/0001/cmfk1DMHRBiR4=_6HXpEFAn")
        .unwrap();
    assert_eq!(info.resource_id, Some("cmfk1DMHRBiR4-_6HXpEFA".to_string()));
}

#[test]
fn parse_legacy_ark() {
    let parser = ArkPathParser::new("00000".to_string());
    assert!(parser.parse_ark_v1("ark:/00000/0002-779b9990a0c3f-6e").is_none());
    let info = engine(1, true)
        .parse_ark_id("ark:/00000/0002-779b9990a0c3f-6e")
        .unwrap();
    assert_eq!(info.url_version, 0);
    assert_eq!(info.project_id, Some("0002".to_string()));
    assert_eq!(info.resource_id, Some("779b9990a0c3f".to_string()));
    assert_eq!(info.timestamp, None);
}

#[test]
fn legacy_project_is_upper_cased_and_short_timestamps_dropped() {
    let info = engine(1, true)
        .parse_ark_id("ark:/00000/080e-76bb2132d30d6-0.20190129")
        .unwrap();
    assert_eq!(info.project_id, Some("080E".to_string()));
    assert_eq!(info.timestamp, Some("20190129".to_string()));
    let info = engine(1, true)
        .parse_ark_id("ark:/00000/080e-76bb2132d30d6-0.2019111")
        .unwrap();
    assert_eq!(info.timestamp, None);
}

#[test]
fn parse_errors() {
    assert_eq!(
        engine(2, true).parse_ark_id("ark:/00000/1/0003"),
        Err(ArkUrlInfoError::VersionMismatch { ark_id: "ark:/00000/1/0003".to_string() })
    );
    assert_eq!(
        engine(1, false).parse_ark_id("ark:/00000/0002-779b9990a0c3f-6e"),
        Err(ArkUrlInfoError::Version0NotAllowed {
            ark_id: "ark:/00000/0002-779b9990a0c3f-6e".to_string()
        })
    );
    assert_eq!(
        engine(1, true).parse_ark_id("not an ark"),
        Err(ArkUrlInfoError::InvalidArkId { ark_id: "not an ark".to_string() })
    );
    assert!(matches!(
        engine(1, true).parse_ark_id("ark:/00000/1/0001/cmfk1DMHRBiR4=_6HXpEFAx"),
        Err(ArkUrlInfoError::UuidProcessingFailed { .. })
    ));
    assert!(matches!(
        engine(1, true).parse_ark_id("ark:/00000/0001-779b9990a0c3f-6e"),
        Err(ArkUrlInfoError::ConfigurationError { .. })
    ));
}

#[test]
fn timestamp_selects_version_templates() {
    let e = engine(1, true);
    let info = e
        .parse_ark_id("ark:/00000/1/0001/cmfk1DMHRBiR4=_6HXpEFAn.20180604T085622Z")
        .unwrap();
    assert_eq!(redirect_template_name(&info).unwrap(), "ResourceVersionRedirectUrl");
    assert_eq!(
        e.generate_redirect_url(&info).unwrap(),
        "https://app.dasch.swiss/resource/http%3A%2F%2Frdfh.ch%2F0001%2Fcmfk1DMHRBiR4-_6HXpEFA?version=20180604T085622Z"
    );
    let info = e
        .parse_ark_id("ark:/00000/1/0001/cmfk1DMHRBiR4=_6HXpEFAn")
        .unwrap();
    assert_eq!(redirect_template_name(&info).unwrap(), "ResourceRedirectUrl");
    let info = e
        .parse_ark_id(
            "ark:/00000/1/0005/SQkTPdHdTzq_gqbwj6QR=AR/=SSbnPK3Q7WWxzBT1UPpRgo.20180604T085622Z",
        )
        .unwrap();
    assert_eq!(redirect_template_name(&info).unwrap(), "ValueVersionRedirectUrl");
}

#[test]
fn redirects_of_each_level() {
    let e = engine(1, true);
    let top = e.parse_ark_id("ark:/00000/1").unwrap();
    assert_eq!(e.generate_redirect_url(&top).unwrap(), "http://dasch.swiss");
    let project = e.parse_ark_id("ark:/00000/1/0003").unwrap();
    assert_eq!(
        e.generate_redirect_url(&project).unwrap(),
        "https://meta.dasch.swiss/projects/http%3A%2F%2Frdfh.ch%2Fprojects%2F0003"
    );
    let legacy = e.parse_ark_id("ark:/00000/0002-779b9990a0c3f-6e").unwrap();
    assert_eq!(
        e.generate_resource_iri(&legacy).unwrap(),
        "http://rdfh.ch/0002/Ef9heHjPWDS7dMR_gGax2Q"
    );
    assert_eq!(
        e.generate_redirect_url(&legacy).unwrap(),
        "https://app.dasch.swiss/resource/http%3A%2F%2Frdfh.ch%2F0002%2FEf9heHjPWDS7dMR_gGax2Q"
    );
}

#[test]
fn oversized_versions_are_refused() {
    let e = engine(1, true);
    assert_eq!(
        e.parse_ark_id("ark:/00000/4294967297/0001"),
        Err(ArkUrlInfoError::VersionMismatch { ark_id: "ark:/00000/4294967297/0001".to_string() })
    );
    assert_eq!(
        engine(256, true).parse_ark_id("ark:/00000/256/0001"),
        Err(ArkUrlInfoError::VersionMismatch { ark_id: "ark:/00000/256/0001".to_string() })
    );
}
