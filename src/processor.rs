//! The redirect resolution engine: parses ARKs through a parsing port and
//! turns their information into redirect URLs and resource IRIs, with
//! templates and settings from its configuration port.
use vstd::prelude::*;

use crate::ark_url_info::{redirect_template_name, template_name_of, ArkUrlInfo};
use crate::errors::{
    bool_result, configuration_error_view, invalid_ark_id_view, project_id_required_view,
    redirect_template_undetermined_view, text_result, version_0_not_allowed_view,
    version_mismatch_view, ArkUrlInfoError, ArkUrlInfoResult, ErrView,
};
use crate::ports::{
    ArkUrlInfoPort, ArkUrlParsingPort, ConfigurationPort, TemplatePort, UuidGenerationPort,
};
use crate::string_map::{insert_pair, StringMap};
use crate::ark_path::{all_in, opt_view, run_of, CharClass};
use crate::ark_url_formatter::ark_id_text;
use crate::check_digit::check_char_of;
use crate::parser::{lemma_parser_reads_built_ark, version_of, ArkPathParser};
use crate::text::{free_of, string_of};
use crate::uuid_processing::escaped;

verus! {

/// Upper-case form of a string, as `str::to_uppercase` gives it.
pub uninterp spec fn upper_of(s: Seq<char>) -> Seq<char>;

/// Relies on `str::to_uppercase`: the result depends on the characters alone.
#[verifier::external_body]
fn to_uppercase(s: &str) -> (r: String)
    ensures
        r@ == upper_of(s@),
{
    s.to_uppercase()
}

/// A legacy timestamp with at least 8 bytes; a shorter one counts as absent.
/// (The byte length is read as `str::len` gives it, a `usize`.)
pub open spec fn legacy_timestamp_of(submitted: Option<Seq<char>>) -> Option<Seq<char>> {
    match submitted {
        Some(t) => if vstd::utf8::encode_utf8(t).len() as usize >= 8 {
            submitted
        } else {
            None
        },
        None => None,
    }
}

/// Keeps a legacy timestamp only when it has at least 8 bytes.
pub fn legacy_timestamp(submitted: Option<String>) -> (r: Option<String>)
    ensures
        opt_view(r) == legacy_timestamp_of(opt_view(submitted)),
{
    match submitted {
        Some(t) => {
            let n = t.as_str().len();
            if n >= 8 {
                Some(t)
            } else {
                None
            }
        },
        None => None,
    }
}

/// Version, project, resource, value and timestamp of an ARK's information.
pub type InfoView = (u8, Option<Seq<char>>, Option<Seq<char>>, Option<Seq<char>>, Option<Seq<char>>);

pub open spec fn info_view(i: ArkUrlInfo) -> InfoView {
    (
        i.url_version,
        opt_view(i.project_id),
        opt_view(i.resource_id),
        opt_view(i.value_id),
        opt_view(i.timestamp),
    )
}

pub open spec fn info_result(r: ArkUrlInfoResult<ArkUrlInfo>) -> Result<InfoView, ErrView> {
    match r {
        Ok(i) => Ok(info_view(i)),
        Err(e) => Err(e@),
    }
}

pub open spec fn opt_text_result(o: Option<ArkUrlInfoResult<String>>) -> Option<
    Result<Seq<char>, ErrView>,
> {
    match o {
        Some(r) => Some(text_result(r)),
        None => None,
    }
}

/// The value of an unescaped segment, when there is one and it was valid.
pub open spec fn ok_part(o: Option<Result<Seq<char>, ErrView>>) -> Option<Seq<char>> {
    match o {
        Some(Ok(s)) => Some(s),
        _ => None,
    }
}

/// The information of a current-grammar ARK: its version must be the
/// configured one (and fit in a `u8`), then the first segment that failed to
/// unescape decides the error.
pub open spec fn v1_info_of(
    ark_id: Seq<char>,
    dsp_ark_version: u32,
    url_version: u32,
    project_id: Option<Seq<char>>,
    resource_id: Option<Result<Seq<char>, ErrView>>,
    value_id: Option<Result<Seq<char>, ErrView>>,
    timestamp: Option<Seq<char>>,
) -> Result<InfoView, ErrView> {
    if url_version != dsp_ark_version || url_version > 255 {
        Err(version_mismatch_view(ark_id))
    } else {
        match (resource_id, value_id) {
            (Some(Err(e)), _) => Err(e),
            (_, Some(Err(e))) => Err(e),
            _ => Ok(
                (url_version as u8, project_id, ok_part(resource_id), ok_part(value_id), timestamp),
            ),
        }
    }
}

/// The information of a current-grammar ARK, from what its parts gave.
pub fn v1_ark_url_info(
    ark_id: &str,
    dsp_ark_version: u32,
    url_version: u32,
    project_id: Option<String>,
    resource_id: Option<ArkUrlInfoResult<String>>,
    value_id: Option<ArkUrlInfoResult<String>>,
    timestamp: Option<String>,
) -> (r: ArkUrlInfoResult<ArkUrlInfo>)
    ensures
        info_result(r) == v1_info_of(
            ark_id@,
            dsp_ark_version,
            url_version,
            opt_view(project_id),
            opt_text_result(resource_id),
            opt_text_result(value_id),
            opt_view(timestamp),
        ),
{
    if url_version != dsp_ark_version || url_version > 255 {
        return Err(ArkUrlInfoError::version_mismatch(ark_id));
    }
    let resource_id = match resource_id {
        Some(Ok(s)) => Some(s),
        Some(Err(e)) => return Err(e),
        None => None,
    };
    let value_id = match value_id {
        Some(Ok(s)) => Some(s),
        Some(Err(e)) => return Err(e),
        None => None,
    };
    Ok(ArkUrlInfo::new(url_version as u8, project_id, resource_id, value_id, timestamp))
}

/// The information of a legacy ARK, from whether its project allows legacy
/// ARKs: project and resource as given, no value, and the timestamp only
/// when it has at least 8 bytes.
pub open spec fn v0_info_of(
    ark_id: Seq<char>,
    project_id: Seq<char>,
    resource_id: Seq<char>,
    timestamp: Option<Seq<char>>,
    allowed: Result<bool, ErrView>,
) -> Result<InfoView, ErrView> {
    match allowed {
        Err(e) => Err(e),
        Ok(false) => Err(version_0_not_allowed_view(ark_id)),
        Ok(true) => Ok(
            (0, Some(project_id), Some(resource_id), None, legacy_timestamp_of(timestamp)),
        ),
    }
}

/// The information of a legacy ARK, from what the project's setting gave.
pub fn v0_ark_url_info(
    ark_id: &str,
    project_id: String,
    resource_id: String,
    submitted_timestamp: Option<String>,
    allowed: ArkUrlInfoResult<bool>,
) -> (r: ArkUrlInfoResult<ArkUrlInfo>)
    ensures
        info_result(r) == v0_info_of(
            ark_id@,
            project_id@,
            resource_id@,
            opt_view(submitted_timestamp),
            bool_result(allowed),
        ),
{
    match allowed {
        Err(e) => Err(e),
        Ok(false) => Err(ArkUrlInfoError::version_0_not_allowed(ark_id)),
        Ok(true) => {
            let timestamp = legacy_timestamp(submitted_timestamp);
            Ok(ArkUrlInfo::new(0, Some(project_id), Some(resource_id), None, timestamp))
        },
    }
}

/// `ps` with `(k, v)` inserted when `o` is `Some(v)`.
pub open spec fn insert_some(
    ps: Seq<(Seq<char>, Seq<char>)>,
    k: Seq<char>,
    o: Option<Seq<char>>,
) -> Seq<(Seq<char>, Seq<char>)> {
    match o {
        Some(v) => insert_pair(ps, k, v),
        None => ps,
    }
}

/// The values of a resource IRI template: the ARK's values, the host, and
/// the generated identifier of a legacy resource in place of its own.
pub open spec fn resource_iri_pairs(
    info: ArkUrlInfo,
    host: Seq<char>,
    generated: Option<Seq<char>>,
) -> Seq<(Seq<char>, Seq<char>)> {
    insert_some(insert_pair(info.template_pairs(), "host"@, host), "resource_id"@, generated)
}

/// The values of a redirect template before the IRIs: those of the resource
/// IRI, and the project host of a project-level ARK.
pub open spec fn redirect_pairs(
    info: ArkUrlInfo,
    host: Seq<char>,
    generated: Option<Seq<char>>,
    project_host: Option<Seq<char>>,
) -> Seq<(Seq<char>, Seq<char>)> {
    insert_some(resource_iri_pairs(info, host, generated), "project_host"@, project_host)
}

/// `ps` with the URL-encoded resource and project IRIs.
pub open spec fn with_iris(
    ps: Seq<(Seq<char>, Seq<char>)>,
    resource_iri: Seq<char>,
    project_iri: Seq<char>,
) -> Seq<(Seq<char>, Seq<char>)> {
    insert_pair(insert_pair(ps, "resource_iri"@, resource_iri), "project_iri"@, project_iri)
}

fn insert_opt(map: &mut StringMap, key: &str, value: Option<String>)
    ensures
        final(map).pairs() == insert_some(old(map).pairs(), key@, opt_view(value)),
        old(map).wf() ==> final(map).wf(),
{
    if let Some(v) = value {
        map.insert(string_of(key), v);
    }
}

/// Builds the values of a resource IRI template.
pub fn resource_iri_values(info: &ArkUrlInfo, host: String, generated: Option<String>) -> (r:
    StringMap)
    ensures
        r.pairs() == resource_iri_pairs(*info, host@, opt_view(generated)),
        r.wf(),
{
    let mut map = info.to_template_dict();
    map.insert(String::from_str("host"), host);
    insert_opt(&mut map, "resource_id", generated);
    map
}

/// Builds the values of a redirect template before the IRIs.
pub fn redirect_values(
    info: &ArkUrlInfo,
    host: String,
    generated: Option<String>,
    project_host: Option<String>,
) -> (r: StringMap)
    ensures
        r.pairs() == redirect_pairs(*info, host@, opt_view(generated), opt_view(project_host)),
        r.wf(),
{
    let mut map = resource_iri_values(info, host, generated);
    insert_opt(&mut map, "project_host", project_host);
    map
}

/// The engine, over its parsing, configuration, template and UUID ports.
pub struct ArkUrlInfoProcessor<P, C, T, U> {
    parser: P,
    config: C,
    template: T,
    uuid_generator: U,
}

impl<
    P: ArkUrlParsingPort,
    C: ConfigurationPort,
    T: TemplatePort,
    U: UuidGenerationPort,
> ArkUrlInfoProcessor<P, C, T, U> {
    /// The parsing, configuration, template and UUID ports.
    pub closed spec fn ports(&self) -> (P, C, T, U) {
        (self.parser, self.config, self.template, self.uuid_generator)
    }

    pub fn new(parser: P, config: C, template: T, uuid_generator: U) -> (r: Self)
        ensures
            r.ports() == (parser, config, template, uuid_generator),
    {
        ArkUrlInfoProcessor { parser, config, template, uuid_generator }
    }

    /// What unescaping an optional escaped segment gives.
    pub open spec fn unescaped_of(&self, ark_id: Seq<char>, escaped: Option<Seq<char>>) -> Option<
        Result<Seq<char>, ErrView>,
    > {
        match escaped {
            Some(e) => Some(self.ports().0.unescape_spec(ark_id, e)),
            None => None,
        }
    }

    /// What parsing an ARK gives: the current grammar first, then the legacy
    /// one with the project upper-cased, else `InvalidArkId`.
    pub open spec fn parse_of(&self, ark_id: Seq<char>) -> Result<InfoView, ErrView> {
        match self.ports().0.v1_spec(ark_id) {
            Some(c) => v1_info_of(
                ark_id,
                self.ports().1.dsp_version_spec(),
                c.0,
                c.1,
                self.unescaped_of(ark_id, c.2),
                self.unescaped_of(ark_id, c.3),
                c.4,
            ),
            None => match self.ports().0.v0_spec(ark_id) {
                Some(c) => v0_info_of(
                    ark_id,
                    upper_of(c.0),
                    c.1,
                    c.2,
                    self.ports().1.version_0_allowed_spec(upper_of(c.0)),
                ),
                None => Err(invalid_ark_id_view(ark_id)),
            },
        }
    }

    /// Parses an ARK: first as a current-grammar ARK, whose version must be
    /// the configured one and whose segments must carry valid check
    /// characters; then as a legacy ARK, which the project (upper-cased) must
    /// allow; else it is no ARK.
    pub fn parse_ark_id(&self, ark_id: &str) -> (r: ArkUrlInfoResult<ArkUrlInfo>)
        ensures
            info_result(r) == self.parse_of(ark_id@),
    {
        if let Some(components) = self.parser.parse_ark_v1(ark_id) {
            let (url_version, project_id, escaped_resource_id, escaped_value_id, timestamp) =
                components;
            let dsp_ark_version = self.config.get_dsp_ark_version();
            if url_version != dsp_ark_version || url_version > 255 {
                return Err(ArkUrlInfoError::version_mismatch(ark_id));
            }
            let resource_id = match escaped_resource_id {
                Some(e) => Some(self.parser.unescape_and_validate_uuid(ark_id, e.as_str())),
                None => None,
            };
            let value_id = match escaped_value_id {
                Some(e) => Some(self.parser.unescape_and_validate_uuid(ark_id, e.as_str())),
                None => None,
            };
            return v1_ark_url_info(
                ark_id,
                dsp_ark_version,
                url_version,
                project_id,
                resource_id,
                value_id,
                timestamp,
            );
        }
        if let Some(components) = self.parser.parse_ark_v0(ark_id) {
            let (project_id, resource_id, submitted_timestamp) = components;
            let project_id = to_uppercase(project_id.as_str());
            let allowed = self.config.is_version_0_allowed(project_id.as_str());
            return v0_ark_url_info(ark_id, project_id, resource_id, submitted_timestamp, allowed);
        }
        Err(ArkUrlInfoError::invalid_ark_id(ark_id))
    }

    /// The generated identifier of a legacy resource; none for a current ARK.
    pub open spec fn generated_id_of(&self, info: ArkUrlInfo) -> Result<Option<Seq<char>>, ErrView> {
        if info.url_version == 0 {
            match info.resource_id {
                None => Err(configuration_error_view("Resource ID required for version 0 ARK URLs"@)),
                Some(r) => match self.ports().3.v5_spec(r@) {
                    Ok(g) => Ok(Some(g)),
                    Err(e) => Err(e),
                },
            }
        } else {
            Ok(None)
        }
    }

    fn generated_id(&self, info: &ArkUrlInfo) -> (r: ArkUrlInfoResult<Option<String>>)
        ensures
            match r {
                Ok(g) => self.generated_id_of(*info) == Ok::<Option<Seq<char>>, ErrView>(opt_view(g)),
                Err(e) => self.generated_id_of(*info) == Err::<Option<Seq<char>>, ErrView>(e@),
            },
    {
        if info.url_version == 0 {
            match &info.resource_id {
                None => Err(
                    ArkUrlInfoError::configuration_error("Resource ID required for version 0 ARK URLs"),
                ),
                Some(r) => match self.uuid_generator.generate_v5_uuid(r.as_str()) {
                    Ok(g) => Ok(Some(g)),
                    Err(e) => Err(e),
                },
            }
        } else {
            Ok(None)
        }
    }

    /// What `generate_resource_iri` gives.
    pub open spec fn resource_iri_of(&self, info: ArkUrlInfo) -> Result<Seq<char>, ErrView> {
        match info.project_id {
            None => Err(project_id_required_view()),
            Some(p) => match self.ports().1.project_template_spec(p@, "ResourceIri"@) {
                Err(e) => Err(e),
                Ok(tpl) => match self.ports().1.project_template_spec(p@, "Host"@) {
                    Err(e) => Err(e),
                    Ok(host) => match self.generated_id_of(info) {
                        Err(e) => Err(e),
                        Ok(g) => self.ports().2.substitute_spec(
                            tpl,
                            resource_iri_pairs(info, host, g),
                        ),
                    },
                },
            },
        }
    }

    /// The resource IRI of an ARK: the project's `ResourceIri` template,
    /// filled with its values and the project's host; a legacy resource is
    /// named by its generated current-style identifier.
    pub fn generate_resource_iri(&self, ark_info: &ArkUrlInfo) -> (r: ArkUrlInfoResult<String>)
        ensures
            text_result(r) == self.resource_iri_of(*ark_info),
    {
        let project_id = match &ark_info.project_id {
            Some(p) => p,
            None => return Err(ArkUrlInfoError::ProjectIdRequired),
        };
        let template = match self.config.get_project_template(project_id.as_str(), "ResourceIri") {
            Ok(t) => t,
            Err(e) => return Err(e),
        };
        let host = match self.config.get_project_template(project_id.as_str(), "Host") {
            Ok(h) => h,
            Err(e) => return Err(e),
        };
        let generated = match self.generated_id(ark_info) {
            Ok(g) => g,
            Err(e) => return Err(e),
        };
        let values = resource_iri_values(ark_info, host, generated);
        self.template.substitute(template.as_str(), &values)
    }

    /// The project host of a project-level ARK; none otherwise.
    pub open spec fn project_host_of(&self, info: ArkUrlInfo, p: Seq<char>) -> Result<
        Option<Seq<char>>,
        ErrView,
    > {
        if info.resource_id is None {
            match self.ports().1.project_host_spec(p) {
                Ok(h) => Ok(Some(h)),
                Err(e) => Err(e),
            }
        } else {
            Ok(None)
        }
    }

    /// The redirect template filled with `ps` and the URL-encoded resource
    /// and project IRIs made from `ps`.
    pub open spec fn fill_redirect_of(
        &self,
        p: Seq<char>,
        template: Seq<char>,
        ps: Seq<(Seq<char>, Seq<char>)>,
    ) -> Result<Seq<char>, ErrView> {
        let c = self.ports().1;
        let t = self.ports().2;
        match c.project_template_spec(p, "ResourceIri"@) {
            Err(e) => Err(e),
            Ok(rt) => match t.substitute_spec(rt, ps) {
                Err(e) => Err(e),
                Ok(ri) => match c.project_template_spec(p, "ProjectIri"@) {
                    Err(e) => Err(e),
                    Ok(pt) => match t.substitute_spec(pt, ps) {
                        Err(e) => Err(e),
                        Ok(pi) => match t.url_encode_spec(ri) {
                            Err(e) => Err(e),
                            Ok(er) => match t.url_encode_spec(pi) {
                                Err(e) => Err(e),
                                Ok(ep) => t.substitute_spec(template, with_iris(ps, er, ep)),
                            },
                        },
                    },
                },
            },
        }
    }

    /// What `generate_dsp_redirect_url` gives.
    pub open spec fn dsp_redirect_of(&self, info: ArkUrlInfo) -> Result<Seq<char>, ErrView> {
        match info.project_id {
            None => Err(project_id_required_view()),
            Some(p) => match template_name_of(info) {
                None => Err(redirect_template_undetermined_view()),
                Some(name) => match self.ports().1.project_template_spec(p@, name) {
                    Err(e) => Err(e),
                    Ok(tpl) => match self.ports().1.project_template_spec(p@, "Host"@) {
                        Err(e) => Err(e),
                        Ok(host) => match self.generated_id_of(info) {
                            Err(e) => Err(e),
                            Ok(g) => match self.project_host_of(info, p@) {
                                Err(e) => Err(e),
                                Ok(ph) => self.fill_redirect_of(
                                    p@,
                                    tpl,
                                    redirect_pairs(info, host, g, ph),
                                ),
                            },
                        },
                    },
                },
            },
        }
    }

    /// What `generate_redirect_url` gives.
    pub open spec fn redirect_of(&self, info: ArkUrlInfo) -> Result<Seq<char>, ErrView> {
        if info.project_id is None {
            Ok(self.ports().1.top_level_redirect_url_spec())
        } else {
            self.dsp_redirect_of(info)
        }
    }

    /// The redirect URL of an ARK: the configured top-level URL, verbatim,
    /// for an ARK without a project, else the project's redirect.
    pub fn generate_redirect_url(&self, ark_info: &ArkUrlInfo) -> (r: ArkUrlInfoResult<String>)
        ensures
            text_result(r) == self.redirect_of(*ark_info),
    {
        if ark_info.project_id.is_none() {
            return Ok(self.config.get_top_level_redirect_url());
        }
        self.generate_dsp_redirect_url(ark_info)
    }

    fn fill_redirect(&self, project_id: &str, template: &str, values: StringMap) -> (r:
        ArkUrlInfoResult<String>)
        ensures
            text_result(r) == self.fill_redirect_of(project_id@, template@, values.pairs()),
    {
        let mut values = values;
        let ghost ps = values.pairs();
        let resource_template = match self.config.get_project_template(project_id, "ResourceIri") {
            Ok(t) => t,
            Err(e) => return Err(e),
        };
        let resource_iri = match self.template.substitute(resource_template.as_str(), &values) {
            Ok(t) => t,
            Err(e) => return Err(e),
        };
        let project_template = match self.config.get_project_template(project_id, "ProjectIri") {
            Ok(t) => t,
            Err(e) => return Err(e),
        };
        let project_iri = match self.template.substitute(project_template.as_str(), &values) {
            Ok(t) => t,
            Err(e) => return Err(e),
        };
        let encoded_resource_iri = match self.template.url_encode(resource_iri.as_str()) {
            Ok(t) => t,
            Err(e) => return Err(e),
        };
        let encoded_project_iri = match self.template.url_encode(project_iri.as_str()) {
            Ok(t) => t,
            Err(e) => return Err(e),
        };
        values.insert(String::from_str("resource_iri"), encoded_resource_iri);
        values.insert(String::from_str("project_iri"), encoded_project_iri);
        self.template.substitute(template, &values)
    }

    /// The redirect URL of an ARK with a project: the template that its level
    /// and timestamp select, filled with its values, the project's host, the
    /// generated identifier of a legacy resource, the project host of a
    /// project-level ARK, and the URL-encoded resource and project IRIs.
    pub fn generate_dsp_redirect_url(&self, ark_info: &ArkUrlInfo) -> (r: ArkUrlInfoResult<String>)
        ensures
            text_result(r) == self.dsp_redirect_of(*ark_info),
    {
        let project_id = match &ark_info.project_id {
            Some(p) => p,
            None => return Err(ArkUrlInfoError::ProjectIdRequired),
        };
        let template_name = match redirect_template_name(ark_info) {
            Ok(n) => n,
            Err(e) => return Err(e),
        };
        let template = match self.config.get_project_template(
            project_id.as_str(),
            template_name.as_str(),
        ) {
            Ok(t) => t,
            Err(e) => return Err(e),
        };
        let host = match self.config.get_project_template(project_id.as_str(), "Host") {
            Ok(h) => h,
            Err(e) => return Err(e),
        };
        let generated = match self.generated_id(ark_info) {
            Ok(g) => g,
            Err(e) => return Err(e),
        };
        let project_host = if ark_info.is_project_level() {
            match self.config.get_project_host(project_id.as_str()) {
                Ok(h) => Some(h),
                Err(e) => return Err(e),
            }
        } else {
            None
        };
        let values = redirect_values(ark_info, host, generated, project_host);
        self.fill_redirect(project_id.as_str(), template.as_str(), values)
    }
}

impl<
    P: ArkUrlParsingPort,
    C: ConfigurationPort,
    T: TemplatePort,
    U: UuidGenerationPort,
> ArkUrlInfoPort for ArkUrlInfoProcessor<P, C, T, U> {
    fn parse_ark_id(&self, ark_id: &str) -> ArkUrlInfoResult<ArkUrlInfo> {
        ArkUrlInfoProcessor::parse_ark_id(self, ark_id)
    }

    fn generate_redirect_url(&self, ark_info: &ArkUrlInfo) -> ArkUrlInfoResult<String> {
        ArkUrlInfoProcessor::generate_redirect_url(self, ark_info)
    }

    fn generate_resource_iri(&self, ark_info: &ArkUrlInfo) -> ArkUrlInfoResult<String> {
        ArkUrlInfoProcessor::generate_resource_iri(self, ark_info)
    }

    fn generate_dsp_redirect_url(&self, ark_info: &ArkUrlInfo) -> ArkUrlInfoResult<String> {
        ArkUrlInfoProcessor::generate_dsp_redirect_url(self, ark_info)
    }
}

/// Building an ARK and parsing it back with the engine recovers the project
/// and the resource identifier, when the engine reads with the grammars of
/// this crate for a NAAN without `.` and is configured for the ARK's version.
pub proof fn lemma_engine_reads_built_ark<C: ConfigurationPort, T: TemplatePort, U: UuidGenerationPort>(
    engine: ArkUrlInfoProcessor<ArkPathParser, C, T, U>,
    version: Seq<char>,
    project_id: Seq<char>,
    resource_id: Seq<char>,
    timestamp: Option<Seq<char>>,
)
    requires
        free_of(engine.ports().0.ark_naan@, '.'),
        run_of(version, CharClass::Digit),
        project_id.len() == 4 && all_in(project_id, CharClass::Hex),
        check_char_of(resource_id) is Some,
        engine.ports().1.dsp_version_spec() == version_of(version),
        version_of(version) <= 255,
    ensures
        engine.parse_of(
            ark_id_text(
                engine.ports().0.ark_naan@,
                version,
                project_id,
                escaped(resource_id),
                timestamp,
            ),
        ) == Ok::<InfoView, ErrView>(
            (
                version_of(version) as u8,
                Some(project_id),
                Some(resource_id),
                None::<Seq<char>>,
                timestamp,
            ),
        ),
{
    let naan = engine.ports().0.ark_naan@;
    let s = ark_id_text(naan, version, project_id, escaped(resource_id), timestamp);
    lemma_parser_reads_built_ark(naan, version, project_id, resource_id, timestamp, s);
}

} // verus!
