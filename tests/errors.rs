use ark_resolver::errors::{
    ArkUrlFormatterError, ArkUrlInfoError, CheckDigitError, SettingsError, UuidProcessingError,
};

#[test]
fn test_error_display() {
    let error = ArkUrlFormatterError::InvalidResourceIri("test".to_string());
    assert_eq!(error.to_string(), "Invalid resource IRI: test");
}

#[test]
fn test_error_equality() {
    let error1 = ArkUrlFormatterError::InvalidProjectId("test".to_string());
    let error2 = ArkUrlFormatterError::InvalidProjectId("test".to_string());
    let error3 = ArkUrlFormatterError::InvalidProjectId("other".to_string());
    assert_eq!(error1, error2);
    assert_ne!(error1, error3);
}

#[test]
fn test_error_debug() {
    let error = ArkUrlFormatterError::InvalidTimestamp("bad_timestamp".to_string());
    let debug_str = format!("{:?}", error);
    assert!(debug_str.contains("InvalidTimestamp"));
    assert!(debug_str.contains("bad_timestamp"));
}

#[test]
fn test_all_error_variants() {
    let errors = vec![
        ArkUrlFormatterError::InvalidResourceIri("test".to_string()),
        ArkUrlFormatterError::InvalidProjectId("test".to_string()),
        ArkUrlFormatterError::InvalidResourceId("test".to_string()),
        ArkUrlFormatterError::InvalidTimestamp("test".to_string()),
        ArkUrlFormatterError::InvalidRegexPattern("test".to_string()),
        ArkUrlFormatterError::MissingConfiguration("test".to_string()),
        ArkUrlFormatterError::UuidProcessingError("test".to_string()),
    ];
    for error in errors {
        assert!(!error.to_string().is_empty());
    }
}

#[test]
fn test_invalid_ark_id_error() {
    let error = ArkUrlInfoError::invalid_ark_id("invalid-ark");
    assert_eq!(error.to_string(), "Invalid ARK ID: invalid-ark");
}

#[test]
fn test_version_mismatch_error() {
    let error = ArkUrlInfoError::version_mismatch("ark:/12345/1");
    assert_eq!(
        error.to_string(),
        "Invalid ARK ID ark:/12345/1. The version of the ARK ID doesn't match the version defined in the settings."
    );
}

#[test]
fn test_version_0_not_allowed_error() {
    let error = ArkUrlInfoError::version_0_not_allowed("ark:/12345/0001-abc-def");
    assert_eq!(
        error.to_string(),
        "Invalid ARK ID (version 0 not allowed): ark:/12345/0001-abc-def"
    );
}

#[test]
fn test_project_id_required_error() {
    let error = ArkUrlInfoError::ProjectIdRequired;
    assert_eq!(
        error.to_string(),
        "Project ID is required for resource IRI generation"
    );
}

#[test]
fn test_template_not_found_error() {
    let error = ArkUrlInfoError::template_not_found("ResourceIri");
    assert_eq!(
        error.to_string(),
        "Configuration template not found: ResourceIri"
    );
}

#[test]
fn test_template_substitution_failed_error() {
    let error = ArkUrlInfoError::template_substitution_failed("Missing key 'host'");
    assert_eq!(
        error.to_string(),
        "Template substitution failed: Missing key 'host'"
    );
}

#[test]
fn test_uuid_processing_failed_error() {
    let error = ArkUrlInfoError::uuid_processing_failed("Invalid UUID format");
    assert_eq!(
        error.to_string(),
        "UUID processing failed: Invalid UUID format"
    );
}

#[test]
fn test_configuration_error() {
    let error = ArkUrlInfoError::configuration_error("Missing project config");
    assert_eq!(
        error.to_string(),
        "Configuration error: Missing project config"
    );
}

#[test]
fn test_string_template_error() {
    let error = ArkUrlInfoError::string_template_error("Template parsing failed");
    assert_eq!(
        error.to_string(),
        "String template error: Template parsing failed"
    );
}

#[test]
fn test_redirect_template_undetermined_error() {
    let error = ArkUrlInfoError::RedirectTemplateUndetermined;
    assert_eq!(
        error.to_string(),
        "Unable to determine redirect template for ARK URL"
    );
}

#[test]
fn test_settings_error_display() {
    let validation_error = SettingsError::ValidationError("Invalid config".to_string());
    assert_eq!(
        validation_error.to_string(),
        "Configuration validation failed: Invalid config"
    );
    let parse_error = SettingsError::ParseError("Invalid format".to_string());
    assert_eq!(
        parse_error.to_string(),
        "Configuration parsing failed: Invalid format"
    );
    let env_error = SettingsError::EnvironmentError("Variable not found".to_string());
    assert_eq!(
        env_error.to_string(),
        "Environment variable access failed: Variable not found"
    );
    let missing_key = SettingsError::MissingKey("required_key".to_string());
    assert_eq!(
        missing_key.to_string(),
        "Required configuration key missing: required_key"
    );
    let invalid_value = SettingsError::InvalidValue {
        key: "port".to_string(),
        value: "invalid".to_string(),
        expected: "integer".to_string(),
    };
    assert_eq!(
        invalid_value.to_string(),
        "Invalid value 'invalid' for key 'port', expected: integer"
    );
    let regex_error = SettingsError::RegexError("Invalid pattern".to_string());
    assert_eq!(
        regex_error.to_string(),
        "Regex compilation failed: Invalid pattern"
    );
    let fs_error = SettingsError::FileSystemError("File not found".to_string());
    assert_eq!(
        fs_error.to_string(),
        "File system access failed: File not found"
    );
}

#[test]
fn test_settings_error_equality() {
    let error1 = SettingsError::ValidationError("test".to_string());
    let error2 = SettingsError::ValidationError("test".to_string());
    let error3 = SettingsError::ValidationError("different".to_string());
    assert_eq!(error1, error2);
    assert_ne!(error1, error3);
}

#[test]
fn check_digit_and_uuid_error_messages() {
    assert_eq!(CheckDigitError::EmptyCode.to_string(), "Empty code provided");
    assert_eq!(
        CheckDigitError::InvalidCode("AA".to_string()).to_string(),
        "Invalid code: AA"
    );
    assert_eq!(
        CheckDigitError::InvalidCharacter('@').to_string(),
        "Invalid base64url character: '@'"
    );
    assert_eq!(
        CheckDigitError::InvalidCharacterValue(-1).to_string(),
        "Invalid character value: -1"
    );
    assert_eq!(
        CheckDigitError::InvalidCharacterValue(640).to_string(),
        "Invalid character value: 640"
    );
    assert_eq!(
        UuidProcessingError::CheckDigitError(CheckDigitError::EmptyCode).to_string(),
        "Check digit operation failed"
    );
    assert_eq!(
        UuidProcessingError::EmptyUuid("ark:/x".to_string()).to_string(),
        "Empty UUID in ARK ID: ark:/x"
    );
}
