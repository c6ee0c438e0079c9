//! Error types of the library. Each has a `to_string` that gives its message.
use vstd::prelude::*;

use crate::text::{concat, signed_decimal, signed_decimal_string, string_from};

verus! {

/// Failures of the check character computations.
#[derive(Debug, Clone, PartialEq)]
pub enum CheckDigitError {
    EmptyCode,
    InvalidCode(String),
    InvalidCharacter(char),
    InvalidCharacterValue(i32),
}

impl CheckDigitError {
    pub open spec fn message(&self) -> Seq<char> {
        match self {
            CheckDigitError::EmptyCode => "Empty code provided"@,
            CheckDigitError::InvalidCode(code) => "Invalid code: "@ + code@,
            CheckDigitError::InvalidCharacter(c) => "Invalid base64url character: '"@ + seq![*c]
                + "'"@,
            CheckDigitError::InvalidCharacterValue(v) => "Invalid character value: "@
                + signed_decimal(*v as int),
        }
    }

    pub fn to_string(&self) -> (r: String)
        ensures
            r@ == self.message(),
    {
        match self {
            CheckDigitError::EmptyCode => String::from_str("Empty code provided"),
            CheckDigitError::InvalidCode(code) => concat("Invalid code: ", code.as_str()),
            CheckDigitError::InvalidCharacter(c) => {
                let quoted = string_from(vec![*c]);
                let head = concat("Invalid base64url character: '", quoted.as_str());
                concat(head.as_str(), "'")
            },
            CheckDigitError::InvalidCharacterValue(v) => {
                let digits = signed_decimal_string(*v);
                concat("Invalid character value: ", digits.as_str())
            },
        }
    }
}

/// Failures of escaping and unescaping identifier segments.
#[derive(Debug, Clone, PartialEq)]
pub enum UuidProcessingError {
    CheckDigitError(CheckDigitError),
    InvalidArkId(String),
    EmptyUuid(String),
}

impl UuidProcessingError {
    pub open spec fn message(&self) -> Seq<char> {
        match self {
            UuidProcessingError::CheckDigitError(_) => "Check digit operation failed"@,
            UuidProcessingError::InvalidArkId(a) => "Invalid ARK ID: "@ + a@,
            UuidProcessingError::EmptyUuid(a) => "Empty UUID in ARK ID: "@ + a@,
        }
    }

    pub fn to_string(&self) -> (r: String)
        ensures
            r@ == self.message(),
    {
        match self {
            UuidProcessingError::CheckDigitError(_) => String::from_str(
                "Check digit operation failed",
            ),
            UuidProcessingError::InvalidArkId(a) => concat("Invalid ARK ID: ", a.as_str()),
            UuidProcessingError::EmptyUuid(a) => concat("Empty UUID in ARK ID: ", a.as_str()),
        }
    }
}

/// Failures of parsing an ARK and of resolving it to a redirect.
#[derive(Debug, Clone, PartialEq)]
pub enum ArkUrlInfoError {
    InvalidArkId { ark_id: String },
    VersionMismatch { ark_id: String },
    Version0NotAllowed { ark_id: String },
    ProjectIdRequired,
    TemplateNotFound { template_name: String },
    TemplateSubstitutionFailed { message: String },
    UuidProcessingFailed { message: String },
    ConfigurationError { message: String },
    StringTemplateError { message: String },
    RedirectTemplateUndetermined,
}

pub type ArkUrlInfoResult<T> = Result<T, ArkUrlInfoError>;

/// An error as a position of its variant and the text of its one field.
pub type ErrView = (nat, Seq<char>);

impl View for ArkUrlInfoError {
    type V = ErrView;

    open spec fn view(&self) -> ErrView {
        match self {
            ArkUrlInfoError::InvalidArkId { ark_id } => (0, ark_id@),
            ArkUrlInfoError::VersionMismatch { ark_id } => (1, ark_id@),
            ArkUrlInfoError::Version0NotAllowed { ark_id } => (2, ark_id@),
            ArkUrlInfoError::ProjectIdRequired => (3, Seq::empty()),
            ArkUrlInfoError::TemplateNotFound { template_name } => (4, template_name@),
            ArkUrlInfoError::TemplateSubstitutionFailed { message } => (5, message@),
            ArkUrlInfoError::UuidProcessingFailed { message } => (6, message@),
            ArkUrlInfoError::ConfigurationError { message } => (7, message@),
            ArkUrlInfoError::StringTemplateError { message } => (8, message@),
            ArkUrlInfoError::RedirectTemplateUndetermined => (9, Seq::empty()),
        }
    }
}

pub open spec fn invalid_ark_id_view(ark_id: Seq<char>) -> ErrView {
    (0, ark_id)
}

pub open spec fn version_mismatch_view(ark_id: Seq<char>) -> ErrView {
    (1, ark_id)
}

pub open spec fn version_0_not_allowed_view(ark_id: Seq<char>) -> ErrView {
    (2, ark_id)
}

pub open spec fn project_id_required_view() -> ErrView {
    (3, Seq::empty())
}

pub open spec fn template_not_found_view(name: Seq<char>) -> ErrView {
    (4, name)
}

pub open spec fn uuid_processing_failed_view(message: Seq<char>) -> ErrView {
    (6, message)
}

pub open spec fn configuration_error_view(message: Seq<char>) -> ErrView {
    (7, message)
}

pub open spec fn redirect_template_undetermined_view() -> ErrView {
    (9, Seq::empty())
}

/// The view of a text result.
pub open spec fn text_result(r: ArkUrlInfoResult<String>) -> Result<Seq<char>, ErrView> {
    match r {
        Ok(s) => Ok(s@),
        Err(e) => Err(e@),
    }
}

/// The view of a boolean result.
pub open spec fn bool_result(r: ArkUrlInfoResult<bool>) -> Result<bool, ErrView> {
    match r {
        Ok(b) => Ok(b),
        Err(e) => Err(e@),
    }
}

impl ArkUrlInfoError {
    pub open spec fn message(&self) -> Seq<char> {
        match self {
            ArkUrlInfoError::InvalidArkId { ark_id } => "Invalid ARK ID: "@ + ark_id@,
            ArkUrlInfoError::VersionMismatch { ark_id } => "Invalid ARK ID "@ + ark_id@
                + ". The version of the ARK ID doesn't match the version defined in the settings."@,
            ArkUrlInfoError::Version0NotAllowed { ark_id } =>
                "Invalid ARK ID (version 0 not allowed): "@ + ark_id@,
            ArkUrlInfoError::ProjectIdRequired =>
                "Project ID is required for resource IRI generation"@,
            ArkUrlInfoError::TemplateNotFound { template_name } =>
                "Configuration template not found: "@ + template_name@,
            ArkUrlInfoError::TemplateSubstitutionFailed { message } =>
                "Template substitution failed: "@ + message@,
            ArkUrlInfoError::UuidProcessingFailed { message } => "UUID processing failed: "@
                + message@,
            ArkUrlInfoError::ConfigurationError { message } => "Configuration error: "@ + message@,
            ArkUrlInfoError::StringTemplateError { message } => "String template error: "@
                + message@,
            ArkUrlInfoError::RedirectTemplateUndetermined =>
                "Unable to determine redirect template for ARK URL"@,
        }
    }

    pub fn to_string(&self) -> (r: String)
        ensures
            r@ == self.message(),
    {
        match self {
            ArkUrlInfoError::InvalidArkId { ark_id } => concat("Invalid ARK ID: ", ark_id.as_str()),
            ArkUrlInfoError::VersionMismatch { ark_id } => {
                let head = concat("Invalid ARK ID ", ark_id.as_str());
                concat(
                    head.as_str(),
                    ". The version of the ARK ID doesn't match the version defined in the settings.",
                )
            },
            ArkUrlInfoError::Version0NotAllowed { ark_id } => concat(
                "Invalid ARK ID (version 0 not allowed): ",
                ark_id.as_str(),
            ),
            ArkUrlInfoError::ProjectIdRequired => String::from_str(
                "Project ID is required for resource IRI generation",
            ),
            ArkUrlInfoError::TemplateNotFound { template_name } => concat(
                "Configuration template not found: ",
                template_name.as_str(),
            ),
            ArkUrlInfoError::TemplateSubstitutionFailed { message } => concat(
                "Template substitution failed: ",
                message.as_str(),
            ),
            ArkUrlInfoError::UuidProcessingFailed { message } => concat(
                "UUID processing failed: ",
                message.as_str(),
            ),
            ArkUrlInfoError::ConfigurationError { message } => concat(
                "Configuration error: ",
                message.as_str(),
            ),
            ArkUrlInfoError::StringTemplateError { message } => concat(
                "String template error: ",
                message.as_str(),
            ),
            ArkUrlInfoError::RedirectTemplateUndetermined => String::from_str(
                "Unable to determine redirect template for ARK URL",
            ),
        }
    }

    pub fn invalid_ark_id(ark_id: &str) -> (r: Self)
        ensures
            r matches ArkUrlInfoError::InvalidArkId { ark_id: a } && a@ == ark_id@,
            r@ == invalid_ark_id_view(ark_id@),
    {
        ArkUrlInfoError::InvalidArkId { ark_id: String::from_str(ark_id) }
    }

    pub fn version_mismatch(ark_id: &str) -> (r: Self)
        ensures
            r matches ArkUrlInfoError::VersionMismatch { ark_id: a } && a@ == ark_id@,
            r@ == version_mismatch_view(ark_id@),
    {
        ArkUrlInfoError::VersionMismatch { ark_id: String::from_str(ark_id) }
    }

    pub fn version_0_not_allowed(ark_id: &str) -> (r: Self)
        ensures
            r matches ArkUrlInfoError::Version0NotAllowed { ark_id: a } && a@ == ark_id@,
            r@ == version_0_not_allowed_view(ark_id@),
    {
        ArkUrlInfoError::Version0NotAllowed { ark_id: String::from_str(ark_id) }
    }

    pub fn template_not_found(template_name: &str) -> (r: Self)
        ensures
            r matches ArkUrlInfoError::TemplateNotFound { template_name: t } && t@
                == template_name@,
            r@ == template_not_found_view(template_name@),
    {
        ArkUrlInfoError::TemplateNotFound { template_name: String::from_str(template_name) }
    }

    pub fn template_substitution_failed(message: &str) -> (r: Self)
        ensures
            r matches ArkUrlInfoError::TemplateSubstitutionFailed { message: m } && m@
                == message@,
    {
        ArkUrlInfoError::TemplateSubstitutionFailed { message: String::from_str(message) }
    }

    pub fn uuid_processing_failed(message: &str) -> (r: Self)
        ensures
            r matches ArkUrlInfoError::UuidProcessingFailed { message: m } && m@ == message@,
            r@ == uuid_processing_failed_view(message@),
    {
        ArkUrlInfoError::UuidProcessingFailed { message: String::from_str(message) }
    }

    pub fn configuration_error(message: &str) -> (r: Self)
        ensures
            r matches ArkUrlInfoError::ConfigurationError { message: m } && m@ == message@,
            r@ == configuration_error_view(message@),
    {
        ArkUrlInfoError::ConfigurationError { message: String::from_str(message) }
    }

    pub fn string_template_error(message: &str) -> (r: Self)
        ensures
            r matches ArkUrlInfoError::StringTemplateError { message: m } && m@ == message@,
    {
        ArkUrlInfoError::StringTemplateError { message: String::from_str(message) }
    }
}

/// Failures of building an ARK from a resource IRI.
#[derive(Debug, Clone, PartialEq)]
pub enum ArkUrlFormatterError {
    InvalidResourceIri(String),
    InvalidProjectId(String),
    InvalidResourceId(String),
    InvalidTimestamp(String),
    InvalidRegexPattern(String),
    MissingConfiguration(String),
    UuidProcessingError(String),
}

pub type ArkUrlFormatterResult<T> = Result<T, ArkUrlFormatterError>;

impl ArkUrlFormatterError {
    pub open spec fn message(&self) -> Seq<char> {
        match self {
            ArkUrlFormatterError::InvalidResourceIri(s) => "Invalid resource IRI: "@ + s@,
            ArkUrlFormatterError::InvalidProjectId(s) => "Invalid project ID: "@ + s@,
            ArkUrlFormatterError::InvalidResourceId(s) => "Invalid resource ID: "@ + s@,
            ArkUrlFormatterError::InvalidTimestamp(s) => "Invalid timestamp: "@ + s@,
            ArkUrlFormatterError::InvalidRegexPattern(s) => "Invalid regex pattern: "@ + s@,
            ArkUrlFormatterError::MissingConfiguration(s) => "Missing configuration: "@ + s@,
            ArkUrlFormatterError::UuidProcessingError(s) => "UUID processing error: "@ + s@,
        }
    }

    pub fn to_string(&self) -> (r: String)
        ensures
            r@ == self.message(),
    {
        match self {
            ArkUrlFormatterError::InvalidResourceIri(s) => concat(
                "Invalid resource IRI: ",
                s.as_str(),
            ),
            ArkUrlFormatterError::InvalidProjectId(s) => concat("Invalid project ID: ", s.as_str()),
            ArkUrlFormatterError::InvalidResourceId(s) => concat(
                "Invalid resource ID: ",
                s.as_str(),
            ),
            ArkUrlFormatterError::InvalidTimestamp(s) => concat("Invalid timestamp: ", s.as_str()),
            ArkUrlFormatterError::InvalidRegexPattern(s) => concat(
                "Invalid regex pattern: ",
                s.as_str(),
            ),
            ArkUrlFormatterError::MissingConfiguration(s) => concat(
                "Missing configuration: ",
                s.as_str(),
            ),
            ArkUrlFormatterError::UuidProcessingError(s) => concat(
                "UUID processing error: ",
                s.as_str(),
            ),
        }
    }
}

/// Failures of loading and checking settings.
#[derive(Debug, Clone, PartialEq)]
pub enum SettingsError {
    ValidationError(String),
    ParseError(String),
    EnvironmentError(String),
    MissingKey(String),
    InvalidValue { key: String, value: String, expected: String },
    RegexError(String),
    FileSystemError(String),
}

pub type SettingsResult<T> = Result<T, SettingsError>;

impl SettingsError {
    pub open spec fn message(&self) -> Seq<char> {
        match self {
            SettingsError::ValidationError(m) => "Configuration validation failed: "@ + m@,
            SettingsError::ParseError(m) => "Configuration parsing failed: "@ + m@,
            SettingsError::EnvironmentError(m) => "Environment variable access failed: "@ + m@,
            SettingsError::MissingKey(k) => "Required configuration key missing: "@ + k@,
            SettingsError::InvalidValue { key, value, expected } => "Invalid value '"@ + value@
                + "' for key '"@ + key@ + "', expected: "@ + expected@,
            SettingsError::RegexError(m) => "Regex compilation failed: "@ + m@,
            SettingsError::FileSystemError(m) => "File system access failed: "@ + m@,
        }
    }

    pub fn to_string(&self) -> (r: String)
        ensures
            r@ == self.message(),
    {
        match self {
            SettingsError::ValidationError(m) => concat(
                "Configuration validation failed: ",
                m.as_str(),
            ),
            SettingsError::ParseError(m) => concat("Configuration parsing failed: ", m.as_str()),
            SettingsError::EnvironmentError(m) => concat(
                "Environment variable access failed: ",
                m.as_str(),
            ),
            SettingsError::MissingKey(k) => concat(
                "Required configuration key missing: ",
                k.as_str(),
            ),
            SettingsError::InvalidValue { key, value, expected } => {
                let a = concat("Invalid value '", value.as_str());
                let b = concat(a.as_str(), "' for key '");
                let c = concat(b.as_str(), key.as_str());
                let d = concat(c.as_str(), "', expected: ");
                concat(d.as_str(), expected.as_str())
            },
            SettingsError::RegexError(m) => concat("Regex compilation failed: ", m.as_str()),
            SettingsError::FileSystemError(m) => concat("File system access failed: ", m.as_str()),
        }
    }
}

} // verus!
