//! The interfaces through which the engine reaches its collaborators, and
//! those it offers. The engine's ports name what each method returns with a
//! spec function; an implementation defines those functions for itself and
//! proves its methods against them, and the engine's contracts are stated
//! over them.
use vstd::prelude::*;

use crate::ark_url_info::ArkUrlInfo;
use crate::ark_path::opt_view;
use crate::errors::{
    bool_result, configuration_error_view, invalid_ark_id_view, template_not_found_view,
    text_result, ArkUrlFormatterResult, ArkUrlInfoResult, CheckDigitError, ErrView,
    UuidProcessingError,
};
use crate::string_map::StringMap;

verus! {

/// ARK information processing, as offered to hosts.
pub trait ArkUrlInfoPort {
    fn parse_ark_id(&self, ark_id: &str) -> ArkUrlInfoResult<ArkUrlInfo>;

    fn generate_redirect_url(&self, ark_info: &ArkUrlInfo) -> ArkUrlInfoResult<String>;

    fn generate_resource_iri(&self, ark_info: &ArkUrlInfo) -> ArkUrlInfoResult<String>;

    fn generate_dsp_redirect_url(&self, ark_info: &ArkUrlInfo) -> ArkUrlInfoResult<String>;
}

/// Version, project, escaped resource, escaped value and timestamp of a
/// current-grammar ARK.
pub type V1Components = (u32, Option<Seq<char>>, Option<Seq<char>>, Option<Seq<char>>, Option<Seq<char>>);

/// Project, resource and timestamp of a legacy ARK.
pub type V0Components = (Seq<char>, Seq<char>, Option<Seq<char>>);

pub open spec fn v1_components(
    c: Option<(u32, Option<String>, Option<String>, Option<String>, Option<String>)>,
) -> Option<V1Components> {
    match c {
        Some((v, p, r, val, ts)) => Some((v, opt_view(p), opt_view(r), opt_view(val), opt_view(ts))),
        None => None,
    }
}

pub open spec fn v0_components(c: Option<(String, String, Option<String>)>) -> Option<V0Components> {
    match c {
        Some((p, r, ts)) => Some((p@, r@, opt_view(ts))),
        None => None,
    }
}

/// Recognition of the two ARK grammars. Each method returns what its spec
/// function names; implementations define those to say what they compute.
pub trait ArkUrlParsingPort {
    open spec fn v1_spec(&self, ark_id: Seq<char>) -> Option<V1Components> {
        None
    }

    open spec fn v0_spec(&self, ark_id: Seq<char>) -> Option<V0Components> {
        None
    }

    open spec fn unescape_spec(&self, ark_url: Seq<char>, escaped_uuid: Seq<char>) -> Result<
        Seq<char>,
        ErrView,
    > {
        Err(invalid_ark_id_view(ark_url))
    }

    /// Version, project, escaped resource, escaped value and timestamp of a
    /// current-grammar ARK.
    fn parse_ark_v1(&self, ark_id: &str) -> (r: Option<
        (u32, Option<String>, Option<String>, Option<String>, Option<String>),
    >)
        ensures
            v1_components(r) == self.v1_spec(ark_id@),
    ;

    /// Project, resource and timestamp of a legacy ARK.
    fn parse_ark_v0(&self, ark_id: &str) -> (r: Option<(String, String, Option<String>)>)
        ensures
            v0_components(r) == self.v0_spec(ark_id@),
    ;

    /// Unescapes and validates an escaped segment of an ARK.
    fn unescape_and_validate_uuid(&self, ark_url: &str, escaped_uuid: &str) -> (r:
        ArkUrlInfoResult<String>)
        ensures
            text_result(r) == self.unescape_spec(ark_url@, escaped_uuid@),
    ;
}

/// Configuration lookups. Each method returns what its spec function names.
pub trait ConfigurationPort {
    open spec fn dsp_version_spec(&self) -> u32 {
        1
    }

    open spec fn version_0_allowed_spec(&self, project_id: Seq<char>) -> Result<bool, ErrView> {
        Ok(false)
    }

    open spec fn top_level_redirect_url_spec(&self) -> Seq<char> {
        Seq::empty()
    }

    open spec fn project_template_spec(&self, project_id: Seq<char>, template_name: Seq<char>) -> Result<
        Seq<char>,
        ErrView,
    > {
        Err(template_not_found_view(template_name))
    }

    open spec fn project_host_spec(&self, project_id: Seq<char>) -> Result<Seq<char>, ErrView> {
        Err(configuration_error_view(Seq::empty()))
    }

    fn get_dsp_ark_version(&self) -> (r: u32)
        ensures
            r == self.dsp_version_spec(),
    ;

    fn is_version_0_allowed(&self, project_id: &str) -> (r: ArkUrlInfoResult<bool>)
        ensures
            bool_result(r) == self.version_0_allowed_spec(project_id@),
    ;

    fn get_top_level_redirect_url(&self) -> (r: String)
        ensures
            r@ == self.top_level_redirect_url_spec(),
    ;

    fn get_project_template(&self, project_id: &str, template_name: &str) -> (r: ArkUrlInfoResult<
        String,
    >)
        ensures
            text_result(r) == self.project_template_spec(project_id@, template_name@),
    ;

    fn get_project_host(&self, project_id: &str) -> (r: ArkUrlInfoResult<String>)
        ensures
            text_result(r) == self.project_host_spec(project_id@),
    ;
}

/// Template substitution and URL encoding. Each method returns what its spec
/// function names.
pub trait TemplatePort {
    open spec fn substitute_spec(&self, template: Seq<char>, values: Seq<(Seq<char>, Seq<char>)>) -> Result<
        Seq<char>,
        ErrView,
    > {
        Ok(template)
    }

    open spec fn url_encode_spec(&self, input: Seq<char>) -> Result<Seq<char>, ErrView> {
        Ok(input)
    }

    fn substitute(&self, template: &str, values: &StringMap) -> (r: ArkUrlInfoResult<String>)
        ensures
            text_result(r) == self.substitute_spec(template@, values.pairs()),
    ;

    fn url_encode(&self, input: &str) -> (r: ArkUrlInfoResult<String>)
        ensures
            text_result(r) == self.url_encode_spec(input@),
    ;
}

/// Generation of current-style identifiers for legacy resources. The method
/// returns what its spec function names.
pub trait UuidGenerationPort {
    open spec fn v5_spec(&self, input: Seq<char>) -> Result<Seq<char>, ErrView> {
        Ok(input)
    }

    fn generate_v5_uuid(&self, input: &str) -> (r: ArkUrlInfoResult<String>)
        ensures
            text_result(r) == self.v5_spec(input@),
    ;
}

/// Check character operations.
pub trait CheckDigitPort {
    fn is_valid(&self, code: &str) -> Result<bool, CheckDigitError>;

    fn calculate_check_digit(&self, code: &str) -> Result<char, CheckDigitError>;

    fn calculate_modulus(&self, code: &str, includes_check_digit: bool) -> Result<
        usize,
        CheckDigitError,
    >;

    fn weighted_value(&self, char_value: usize, right_pos: usize) -> usize;

    fn to_int(&self, ch: char) -> Result<usize, CheckDigitError>;

    fn to_check_digit(&self, char_value: i32) -> Result<char, CheckDigitError>;

    fn add_check_digit(&self, code: &str) -> Result<String, CheckDigitError>;

    fn validate_and_strip_check_digit(&self, code_with_check_digit: &str) -> Result<
        String,
        CheckDigitError,
    >;
}

/// Segment escaping operations.
pub trait UuidProcessingPort {
    fn add_check_digit_and_escape(&self, uuid: &str) -> Result<String, UuidProcessingError>;

    fn unescape_and_validate_uuid(&self, ark_url: &str, escaped_uuid: &str) -> Result<
        String,
        UuidProcessingError,
    >;

    fn process_uuid_for_ark(&self, uuid: &str) -> Result<String, UuidProcessingError>;

    fn extract_uuid_from_ark(&self, ark_url: &str, escaped_uuid: &str) -> Result<
        String,
        UuidProcessingError,
    >;
}

/// Building ARKs from resource IRIs.
pub trait ArkUrlFormatterPort {
    fn resource_iri_to_ark_id(&self, resource_iri: &str, timestamp: Option<&str>)
        -> ArkUrlFormatterResult<String>;

    fn resource_iri_to_ark_url(
        &self,
        resource_iri: &str,
        value_id: Option<&str>,
        timestamp: Option<&str>,
    ) -> ArkUrlFormatterResult<String>;

    fn format_ark_url(
        &self,
        project_id: &str,
        resource_id_with_check_digit: &str,
        value_id_with_check_digit: Option<&str>,
        timestamp: Option<&str>,
    ) -> ArkUrlFormatterResult<String>;
}

/// Shorthands over [`ArkUrlFormatterPort`].
pub trait ArkUrlFormatterPortExt: ArkUrlFormatterPort {
    fn resource_iri_to_simple_ark_url(&self, resource_iri: &str) -> ArkUrlFormatterResult<String> {
        self.resource_iri_to_ark_url(resource_iri, None, None)
    }

    fn resource_iri_to_timestamped_ark_url(&self, resource_iri: &str, timestamp: &str)
        -> ArkUrlFormatterResult<String> {
        self.resource_iri_to_ark_url(resource_iri, None, Some(timestamp))
    }

    fn resource_iri_to_value_ark_url(&self, resource_iri: &str, value_id: &str)
        -> ArkUrlFormatterResult<String> {
        self.resource_iri_to_ark_url(resource_iri, Some(value_id), None)
    }
}

impl<T: ArkUrlFormatterPort> ArkUrlFormatterPortExt for T {

}

} // verus!
