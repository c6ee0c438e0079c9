//! Building ARKs and ARK URLs from a resource IRI, or from a project and
//! already escaped segments.
use vstd::prelude::*;

use crate::ark_path::{
    all_in, ark_prefix, lemma_v1_text_unique, opt_view, run_of, v1_segments, v1_text, v1_wf, CharClass,
    V1Parts,
};
use crate::check_digit::{all_alphabet, is_alphabet_char, is_valid_code, modulus_of};
use crate::errors::{ArkUrlFormatterError, ArkUrlFormatterResult};
use crate::text::{concat, free_of, lemma_join3, replace_char, string_of, with_tail};
use crate::uuid_processing::{add_check_digit_and_escape, escaped, lemma_escape_round_trip};

verus! {

pub open spec fn opt_str(o: Option<&str>) -> Option<Seq<char>> {
    match o {
        Some(s) => Some(s@),
        None => None,
    }
}

/// `ark:/<naan>/<version>/<project>/<resource>`, then `.` and the timestamp if any.
pub open spec fn ark_id_text(
    naan: Seq<char>,
    version: Seq<char>,
    project_id: Seq<char>,
    resource: Seq<char>,
    timestamp: Option<Seq<char>>,
) -> Seq<char> {
    with_tail(
        ark_prefix(naan) + version + seq!['/'] + project_id + seq!['/'] + resource,
        timestamp,
        '.',
    )
}

/// `<http or https>://<host>/ark:/<naan>/<version>/<project>/<resource>`, then
/// `/` and the value if any, then `.` and the timestamp if any.
pub open spec fn ark_url_text(
    use_https: bool,
    host: Seq<char>,
    naan: Seq<char>,
    version: Seq<char>,
    project_id: Seq<char>,
    resource: Seq<char>,
    value: Option<Seq<char>>,
    timestamp: Option<Seq<char>>,
) -> Seq<char> {
    let protocol = if use_https {
        "https"@
    } else {
        "http"@
    };
    with_tail(
        with_tail(
            protocol + "://"@ + host + seq!['/'] + ark_prefix(naan) + version + seq!['/']
                + project_id + seq!['/'] + resource,
            value,
            '/',
        ),
        timestamp,
        '.',
    )
}

fn append_tail(s: String, tail: Option<&str>, sep: &str) -> (r: String)
    requires
        sep@.len() == 1,
    ensures
        r@ == with_tail(s@, opt_str(tail), sep@[0]),
{
    match tail {
        Some(t) => {
            let a = concat(s.as_str(), sep);
            let r = concat(a.as_str(), t);
            assert(sep@ =~= seq![sep@[0]]);
            r
        },
        None => s,
    }
}

/// Formats an ARK from its parts; the resource must already carry its check
/// character and be escaped.
pub fn format_ark_id(
    ark_naan: &str,
    dsp_ark_version: &str,
    project_id: &str,
    escaped_resource_id_with_check_digit: &str,
    timestamp: Option<&str>,
) -> (r: String)
    ensures
        r@ == ark_id_text(
            ark_naan@,
            dsp_ark_version@,
            project_id@,
            escaped_resource_id_with_check_digit@,
            opt_str(timestamp),
        ),
{
    let s = concat("ark:/", ark_naan);
    let s = concat(s.as_str(), "/");
    let s = concat(s.as_str(), dsp_ark_version);
    let s = concat(s.as_str(), "/");
    let s = concat(s.as_str(), project_id);
    let s = concat(s.as_str(), "/");
    let s = concat(s.as_str(), escaped_resource_id_with_check_digit);
    proof {
        reveal_strlit("ark:/");
        reveal_strlit("/");
        reveal_strlit(".");
        assert(s@ =~= ark_prefix(ark_naan@) + dsp_ark_version@ + seq!['/'] + project_id@ + seq![
            '/',
        ] + escaped_resource_id_with_check_digit@);
    }
    append_tail(s, timestamp, ".")
}

/// The parts of an ARK URL.
pub struct ArkUrlParams<'a> {
    pub use_https: bool,
    pub external_host: &'a str,
    pub ark_naan: &'a str,
    pub dsp_ark_version: &'a str,
    pub project_id: &'a str,
    pub escaped_resource_id_with_check_digit: &'a str,
    pub escaped_value_id_with_check_digit: Option<&'a str>,
    pub timestamp: Option<&'a str>,
}

/// Formats an ARK URL from its parts; resource and value must already carry
/// their check characters and be escaped.
pub fn format_ark_url(params: ArkUrlParams) -> (r: String)
    ensures
        r@ == ark_url_text(
            params.use_https,
            params.external_host@,
            params.ark_naan@,
            params.dsp_ark_version@,
            params.project_id@,
            params.escaped_resource_id_with_check_digit@,
            opt_str(params.escaped_value_id_with_check_digit),
            opt_str(params.timestamp),
        ),
{
    let protocol = if params.use_https {
        "https"
    } else {
        "http"
    };
    let s = concat(protocol, "://");
    let s = concat(s.as_str(), params.external_host);
    let s = concat(s.as_str(), "/ark:/");
    let s = concat(s.as_str(), params.ark_naan);
    let s = concat(s.as_str(), "/");
    let s = concat(s.as_str(), params.dsp_ark_version);
    let s = concat(s.as_str(), "/");
    let s = concat(s.as_str(), params.project_id);
    let s = concat(s.as_str(), "/");
    let s = concat(s.as_str(), params.escaped_resource_id_with_check_digit);
    proof {
        reveal_strlit("/ark:/");
        reveal_strlit("ark:/");
        reveal_strlit("/");
        reveal_strlit(".");
        let protocol_text = if params.use_https {
            "https"@
        } else {
            "http"@
        };
        assert(s@ =~= protocol_text + "://"@ + params.external_host@ + seq!['/'] + ark_prefix(
            params.ark_naan@,
        ) + params.dsp_ark_version@ + seq!['/'] + params.project_id@ + seq!['/']
            + params.escaped_resource_id_with_check_digit@);
    }
    let s = append_tail(s, params.escaped_value_id_with_check_digit, "/");
    append_tail(s, params.timestamp, ".")
}

/// Rejects an empty timestamp.
pub fn validate_timestamp(timestamp: &str) -> (r: ArkUrlFormatterResult<()>)
    ensures
        timestamp@.len() == 0 <==> (r matches Err(ArkUrlFormatterError::InvalidTimestamp(t))
            && t@ == timestamp@),
        r is Ok <==> timestamp@.len() > 0,
{
    if timestamp.is_empty() {
        return Err(ArkUrlFormatterError::InvalidTimestamp(string_of(timestamp)));
    }
    Ok(())
}

/// Rejects an empty project identifier.
pub fn validate_project_id(project_id: &str) -> (r: ArkUrlFormatterResult<()>)
    ensures
        project_id@.len() == 0 <==> (r matches Err(ArkUrlFormatterError::InvalidProjectId(t))
            && t@ == project_id@),
        r is Ok <==> project_id@.len() > 0,
{
    if project_id.is_empty() {
        return Err(ArkUrlFormatterError::InvalidProjectId(string_of(project_id)));
    }
    Ok(())
}

/// Rejects an empty resource identifier.
pub fn validate_resource_id(resource_id: &str) -> (r: ArkUrlFormatterResult<()>)
    ensures
        resource_id@.len() == 0 <==> (r matches Err(ArkUrlFormatterError::InvalidResourceId(t))
            && t@ == resource_id@),
        r is Ok <==> resource_id@.len() > 0,
{
    if resource_id.is_empty() {
        return Err(ArkUrlFormatterError::InvalidResourceId(string_of(resource_id)));
    }
    Ok(())
}

/// The parts of an ARK built from a project and a resource identifier with a
/// check character are well-formed, and the ARK is their current-grammar text.
pub proof fn lemma_built_ark_parts(
    naan: Seq<char>,
    version: Seq<char>,
    project_id: Seq<char>,
    resource_id: Seq<char>,
    timestamp: Option<Seq<char>>,
)
    requires
        run_of(version, CharClass::Digit),
        project_id.len() == 4 && all_in(project_id, CharClass::Hex),
        crate::check_digit::check_char_of(resource_id) is Some,
    ensures
        v1_wf((version, Some(project_id), Some(escaped(resource_id)), None)),
        ark_id_text(naan, version, project_id, escaped(resource_id), timestamp) == v1_text(
            naan,
            (version, Some(project_id), Some(escaped(resource_id)), None),
            timestamp,
        ),
{
    let e = escaped(resource_id);
    let built: V1Parts = (version, Some(project_id), Some(e), None);
    assert(run_of(e, CharClass::Escaped)) by {
        assert forall|i: int| 0 <= i < e.len() implies crate::ark_path::in_class(
            #[trigger] e[i],
            CharClass::Escaped,
        ) by {
            let full = resource_id.push(crate::check_digit::check_char_of(resource_id)->0);
            crate::check_digit::lemma_check_char_makes_valid(resource_id);
            assert(is_alphabet_char(full[i]));
        }
    }
    assert(v1_segments(built) =~= seq![version, project_id, e]);
    lemma_join3(version, project_id, e, '/');
    assert(ark_id_text(naan, version, project_id, e, timestamp) =~= v1_text(naan, built, timestamp));
}

/// An ARK built from a project and a resource identifier, parsed back with
/// the current grammar, gives back the project, the escaped resource and the
/// timestamp, and unescaping the resource gives back the resource identifier;
/// for a NAAN without `.`, a version of digits, a 4-digit hexadecimal project
/// and a non-empty resource identifier over the base64url alphabet whose
/// weighted sum is not zero.
pub proof fn lemma_build_then_parse(
    naan: Seq<char>,
    version: Seq<char>,
    project_id: Seq<char>,
    resource_id: Seq<char>,
    timestamp: Option<Seq<char>>,
    parsed: V1Parts,
    parsed_timestamp: Option<Seq<char>>,
)
    requires
        free_of(naan, '.'),
        run_of(version, CharClass::Digit),
        project_id.len() == 4 && all_in(project_id, CharClass::Hex),
        resource_id.len() > 0,
        all_alphabet(resource_id),
        modulus_of(resource_id, false) is Some,
        v1_wf(parsed),
        ark_id_text(naan, version, project_id, escaped(resource_id), timestamp) == v1_text(
            naan,
            parsed,
            parsed_timestamp,
        ),
    ensures
        parsed == (version, Some(project_id), Some(escaped(resource_id)), None::<Seq<char>>),
        parsed_timestamp == timestamp,
        is_valid_code(replace_char(parsed.2->0, '=', '-')),
        replace_char(parsed.2->0, '=', '-').drop_last() == resource_id,
{
    let built: V1Parts = (version, Some(project_id), Some(escaped(resource_id)), None);
    lemma_escape_round_trip(resource_id);
    lemma_built_ark_parts(naan, version, project_id, resource_id, timestamp);
    lemma_v1_text_unique(naan, built, timestamp, parsed, parsed_timestamp);
}

} // verus!

verus! {

/// An error as a position of its variant and the text of its field.
pub type FormatterErrView = (nat, Seq<char>);

impl View for ArkUrlFormatterError {
    type V = FormatterErrView;

    open spec fn view(&self) -> FormatterErrView {
        match self {
            ArkUrlFormatterError::InvalidResourceIri(s) => (0, s@),
            ArkUrlFormatterError::InvalidProjectId(s) => (1, s@),
            ArkUrlFormatterError::InvalidResourceId(s) => (2, s@),
            ArkUrlFormatterError::InvalidTimestamp(s) => (3, s@),
            ArkUrlFormatterError::InvalidRegexPattern(s) => (4, s@),
            ArkUrlFormatterError::MissingConfiguration(s) => (5, s@),
            ArkUrlFormatterError::UuidProcessingError(s) => (6, s@),
        }
    }
}

pub open spec fn formatter_text(r: ArkUrlFormatterResult<String>) -> Result<Seq<char>, FormatterErrView> {
    match r {
        Ok(s) => Ok(s@),
        Err(e) => Err(e@),
    }
}

pub open spec fn formatter_bool(r: ArkUrlFormatterResult<bool>) -> Result<bool, FormatterErrView> {
    match r {
        Ok(b) => Ok(b),
        Err(e) => Err(e@),
    }
}

pub open spec fn formatter_pair(r: ArkUrlFormatterResult<(String, String)>) -> Result<
    (Seq<char>, Seq<char>),
    FormatterErrView,
> {
    match r {
        Ok((a, b)) => Ok((a@, b@)),
        Err(e) => Err(e@),
    }
}

/// The error of a segment that cannot be escaped.
pub open spec fn escape_failure_view() -> FormatterErrView {
    (6, "Check digit operation failed"@)
}

/// Settings that building ARKs needs; implemented by hosts. Each method
/// returns what its spec function names.
pub trait ArkUrlFormatterConfig {
    open spec fn ark_naan_spec(&self) -> Result<Seq<char>, FormatterErrView> {
        Err((5, Seq::empty()))
    }

    open spec fn dsp_ark_version_spec(&self) -> Result<Seq<char>, FormatterErrView> {
        Err((5, Seq::empty()))
    }

    open spec fn external_host_spec(&self) -> Result<Seq<char>, FormatterErrView> {
        Err((5, Seq::empty()))
    }

    open spec fn use_https_proxy_spec(&self) -> Result<bool, FormatterErrView> {
        Ok(true)
    }

    open spec fn resource_iri_pattern_spec(&self) -> Result<Seq<char>, FormatterErrView> {
        Err((5, Seq::empty()))
    }

    open spec fn match_resource_iri_spec(&self, resource_iri: Seq<char>) -> Result<
        (Seq<char>, Seq<char>),
        FormatterErrView,
    > {
        Err((0, resource_iri))
    }

    fn get_ark_naan(&self) -> (r: ArkUrlFormatterResult<String>)
        ensures
            formatter_text(r) == self.ark_naan_spec(),
    ;

    fn get_dsp_ark_version(&self) -> (r: ArkUrlFormatterResult<String>)
        ensures
            formatter_text(r) == self.dsp_ark_version_spec(),
    ;

    fn get_external_host(&self) -> (r: ArkUrlFormatterResult<String>)
        ensures
            formatter_text(r) == self.external_host_spec(),
    ;

    fn get_use_https_proxy(&self) -> (r: ArkUrlFormatterResult<bool>)
        ensures
            formatter_bool(r) == self.use_https_proxy_spec(),
    ;

    fn get_resource_iri_pattern(&self) -> (r: ArkUrlFormatterResult<String>)
        ensures
            formatter_text(r) == self.resource_iri_pattern_spec(),
    ;

    /// Project and resource identifier of a resource IRI.
    fn match_resource_iri(&self, resource_iri: &str) -> (r: ArkUrlFormatterResult<(String, String)>)
        ensures
            formatter_pair(r) == self.match_resource_iri_spec(resource_iri@),
    ;
}

/// The escaped form of an optional segment.
pub open spec fn opt_escaped(o: Option<Seq<char>>) -> Option<Seq<char>> {
    match o {
        Some(v) => Some(escaped(v)),
        None => None,
    }
}

/// Builds ARKs and ARK URLs with the settings of its configuration.
pub struct ArkUrlFormatterService<C> {
    config: C,
}

fn escape_for_ark(id: &str) -> (r: ArkUrlFormatterResult<String>)
    ensures
        r is Ok <==> crate::check_digit::check_char_of(id@) is Some,
        r matches Ok(s) ==> s@ == escaped(id@),
        r matches Err(e) ==> e@ == escape_failure_view(),
{
    match add_check_digit_and_escape(id) {
        Ok(s) => Ok(s),
        Err(e) => {
            let message = e.to_string();
            Err(ArkUrlFormatterError::UuidProcessingError(message))
        },
    }
}

/// The checks on an ARK's project, resource and timestamp, in this order.
pub open spec fn parts_check_of(
    project_id: Seq<char>,
    resource_id: Seq<char>,
    timestamp: Option<Seq<char>>,
) -> Option<FormatterErrView> {
    if project_id.len() == 0 {
        Some((1, project_id))
    } else if resource_id.len() == 0 {
        Some((2, resource_id))
    } else if timestamp matches Some(t) && t.len() == 0 {
        Some((3, Seq::empty()))
    } else {
        None
    }
}

fn check_parts(project_id: &str, resource_id: &str, timestamp: Option<&str>) -> (r:
    ArkUrlFormatterResult<()>)
    ensures
        match parts_check_of(project_id@, resource_id@, opt_str(timestamp)) {
            Some(e) => r matches Err(x) && x@ == e,
            None => r is Ok,
        },
{
    if project_id.is_empty() {
        return Err(ArkUrlFormatterError::InvalidProjectId(string_of(project_id)));
    }
    if resource_id.is_empty() {
        return Err(ArkUrlFormatterError::InvalidResourceId(string_of(resource_id)));
    }
    if let Some(ts) = timestamp {
        if ts.is_empty() {
            return Err(ArkUrlFormatterError::InvalidTimestamp(string_of(ts)));
        }
    }
    Ok(())
}

impl<C: ArkUrlFormatterConfig> ArkUrlFormatterService<C> {
    pub closed spec fn config(&self) -> C {
        self.config
    }

    pub fn new(config: C) -> (r: Self)
        ensures
            r.config() == config,
    {
        ArkUrlFormatterService { config }
    }

    /// What `resource_iri_to_ark_id` gives.
    pub open spec fn ark_id_of(&self, resource_iri: Seq<char>, timestamp: Option<Seq<char>>) -> Result<
        Seq<char>,
        FormatterErrView,
    > {
        let c = self.config();
        match c.match_resource_iri_spec(resource_iri) {
            Err(e) => Err(e),
            Ok((p, id)) => match parts_check_of(p, id, timestamp) {
                Some(e) => Err(e),
                None => if crate::check_digit::check_char_of(id) is None {
                    Err(escape_failure_view())
                } else {
                    match c.ark_naan_spec() {
                        Err(e) => Err(e),
                        Ok(naan) => match c.dsp_ark_version_spec() {
                            Err(e) => Err(e),
                            Ok(v) => Ok(ark_id_text(naan, v, p, escaped(id), timestamp)),
                        },
                    }
                },
            },
        }
    }

    /// The ARK of a resource IRI: the configured NAAN and version, the
    /// project of the IRI, and its resource identifier with a check character
    /// and escaped; an empty project, resource or timestamp is refused.
    pub fn resource_iri_to_ark_id(&self, resource_iri: &str, timestamp: Option<&str>) -> (r:
        ArkUrlFormatterResult<String>)
        ensures
            formatter_text(r) == self.ark_id_of(resource_iri@, opt_str(timestamp)),
    {
        let (project_id, resource_id) = match self.config.match_resource_iri(resource_iri) {
            Ok(parts) => parts,
            Err(e) => return Err(e),
        };
        match check_parts(project_id.as_str(), resource_id.as_str(), timestamp) {
            Ok(()) => {},
            Err(e) => return Err(e),
        }
        let escaped_resource_id = match escape_for_ark(resource_id.as_str()) {
            Ok(s) => s,
            Err(e) => return Err(e),
        };
        let ark_naan = match self.config.get_ark_naan() {
            Ok(s) => s,
            Err(e) => return Err(e),
        };
        let dsp_ark_version = match self.config.get_dsp_ark_version() {
            Ok(s) => s,
            Err(e) => return Err(e),
        };
        Ok(
            format_ark_id(
                ark_naan.as_str(),
                dsp_ark_version.as_str(),
                project_id.as_str(),
                escaped_resource_id.as_str(),
                timestamp,
            ),
        )
    }

    /// The URL of an ARK from the configured protocol, host, NAAN and version.
    pub open spec fn url_of(
        &self,
        project_id: Seq<char>,
        resource: Seq<char>,
        value: Option<Seq<char>>,
        timestamp: Option<Seq<char>>,
    ) -> Result<Seq<char>, FormatterErrView> {
        let c = self.config();
        match c.ark_naan_spec() {
            Err(e) => Err(e),
            Ok(naan) => match c.dsp_ark_version_spec() {
                Err(e) => Err(e),
                Ok(v) => match c.external_host_spec() {
                    Err(e) => Err(e),
                    Ok(host) => match c.use_https_proxy_spec() {
                        Err(e) => Err(e),
                        Ok(https) => Ok(
                            ark_url_text(https, host, naan, v, project_id, resource, value, timestamp),
                        ),
                    },
                },
            },
        }
    }

    fn build_url(
        &self,
        project_id: &str,
        resource: &str,
        value: Option<&str>,
        timestamp: Option<&str>,
    ) -> (r: ArkUrlFormatterResult<String>)
        ensures
            formatter_text(r) == self.url_of(project_id@, resource@, opt_str(value), opt_str(timestamp)),
    {
        let ark_naan = match self.config.get_ark_naan() {
            Ok(s) => s,
            Err(e) => return Err(e),
        };
        let dsp_ark_version = match self.config.get_dsp_ark_version() {
            Ok(s) => s,
            Err(e) => return Err(e),
        };
        let external_host = match self.config.get_external_host() {
            Ok(s) => s,
            Err(e) => return Err(e),
        };
        let use_https = match self.config.get_use_https_proxy() {
            Ok(b) => b,
            Err(e) => return Err(e),
        };
        let params = ArkUrlParams {
            use_https,
            external_host: external_host.as_str(),
            ark_naan: ark_naan.as_str(),
            dsp_ark_version: dsp_ark_version.as_str(),
            project_id,
            escaped_resource_id_with_check_digit: resource,
            escaped_value_id_with_check_digit: value,
            timestamp,
        };
        Ok(format_ark_url(params))
    }

    /// What `resource_iri_to_ark_url` gives.
    pub open spec fn ark_url_of(
        &self,
        resource_iri: Seq<char>,
        value_id: Option<Seq<char>>,
        timestamp: Option<Seq<char>>,
    ) -> Result<Seq<char>, FormatterErrView> {
        match self.config().match_resource_iri_spec(resource_iri) {
            Err(e) => Err(e),
            Ok((p, id)) => match parts_check_of(p, id, timestamp) {
                Some(e) => Err(e),
                None => if crate::check_digit::check_char_of(id) is None {
                    Err(escape_failure_view())
                } else if value_id matches Some(v) && crate::check_digit::check_char_of(v) is None {
                    Err(escape_failure_view())
                } else {
                    self.url_of(p, escaped(id), opt_escaped(value_id), timestamp)
                },
            },
        }
    }

    /// The ARK URL of a resource IRI, optionally of one of its values: the
    /// configured protocol, host, NAAN and version, the project of the IRI,
    /// and resource and value identifiers with check characters and escaped;
    /// an empty project, resource or timestamp is refused.
    pub fn resource_iri_to_ark_url(
        &self,
        resource_iri: &str,
        value_id: Option<&str>,
        timestamp: Option<&str>,
    ) -> (r: ArkUrlFormatterResult<String>)
        ensures
            formatter_text(r) == self.ark_url_of(resource_iri@, opt_str(value_id), opt_str(timestamp)),
    {
        let (project_id, resource_id) = match self.config.match_resource_iri(resource_iri) {
            Ok(parts) => parts,
            Err(e) => return Err(e),
        };
        match check_parts(project_id.as_str(), resource_id.as_str(), timestamp) {
            Ok(()) => {},
            Err(e) => return Err(e),
        }
        let escaped_resource_id = match escape_for_ark(resource_id.as_str()) {
            Ok(s) => s,
            Err(e) => return Err(e),
        };
        let escaped_value_id = match value_id {
            Some(v) => match escape_for_ark(v) {
                Ok(s) => Some(s),
                Err(e) => return Err(e),
            },
            None => None,
        };
        let escaped_value_ref: Option<&str> = match &escaped_value_id {
            Some(v) => Some(v.as_str()),
            None => None,
        };
        self.build_url(
            project_id.as_str(),
            escaped_resource_id.as_str(),
            escaped_value_ref,
            timestamp,
        )
    }

    /// What `format_ark_url` gives.
    pub open spec fn format_url_of(
        &self,
        project_id: Seq<char>,
        resource: Seq<char>,
        value: Option<Seq<char>>,
        timestamp: Option<Seq<char>>,
    ) -> Result<Seq<char>, FormatterErrView> {
        match parts_check_of(project_id, resource, timestamp) {
            Some(e) => Err(e),
            None => self.url_of(project_id, resource, value, timestamp),
        }
    }

    /// An ARK URL from a project and already escaped segments with check
    /// characters: an empty project, then an empty resource, then an empty
    /// timestamp is refused before the configuration is read.
    pub fn format_ark_url(
        &self,
        project_id: &str,
        resource_id_with_check_digit: &str,
        value_id_with_check_digit: Option<&str>,
        timestamp: Option<&str>,
    ) -> (r: ArkUrlFormatterResult<String>)
        ensures
            formatter_text(r) == self.format_url_of(
                project_id@,
                resource_id_with_check_digit@,
                opt_str(value_id_with_check_digit),
                opt_str(timestamp),
            ),
    {
        match check_parts(project_id, resource_id_with_check_digit, timestamp) {
            Ok(()) => {},
            Err(e) => return Err(e),
        }
        self.build_url(project_id, resource_id_with_check_digit, value_id_with_check_digit, timestamp)
    }
}

} // verus!

verus! {

impl<C: ArkUrlFormatterConfig> crate::ports::ArkUrlFormatterPort for ArkUrlFormatterService<C> {
    fn resource_iri_to_ark_id(&self, resource_iri: &str, timestamp: Option<&str>)
        -> ArkUrlFormatterResult<String> {
        ArkUrlFormatterService::resource_iri_to_ark_id(self, resource_iri, timestamp)
    }

    fn resource_iri_to_ark_url(
        &self,
        resource_iri: &str,
        value_id: Option<&str>,
        timestamp: Option<&str>,
    ) -> ArkUrlFormatterResult<String> {
        ArkUrlFormatterService::resource_iri_to_ark_url(self, resource_iri, value_id, timestamp)
    }

    fn format_ark_url(
        &self,
        project_id: &str,
        resource_id_with_check_digit: &str,
        value_id_with_check_digit: Option<&str>,
        timestamp: Option<&str>,
    ) -> ArkUrlFormatterResult<String> {
        ArkUrlFormatterService::format_ark_url(
            self,
            project_id,
            resource_id_with_check_digit,
            value_id_with_check_digit,
            timestamp,
        )
    }
}

} // verus!

verus! {

/// What matching `text` against the regular expression `pattern` gives:
/// `None` when the pattern does not compile, else `None` or the first two
/// capture groups of the first match (each `None` when it did not take part).
pub uninterp spec fn regex_groups_of(pattern: Seq<char>, text: Seq<char>) -> Option<
    Option<(Option<Seq<char>>, Option<Seq<char>>)>,
>;

pub open spec fn groups_view(g: Option<(Option<String>, Option<String>)>) -> Option<
    (Option<Seq<char>>, Option<Seq<char>>),
> {
    match g {
        Some((a, b)) => Some((opt_view(a), opt_view(b))),
        None => None,
    }
}

/// Relies on `regex::Regex::new` and `Regex::captures` (with `Captures::get`
/// and `Match::as_str`): compiles `pattern`, or fails with its error's text,
/// then takes the first two groups of the first match in `text`.
#[verifier::external_body]
fn regex_groups(pattern: &str, text: &str) -> (r: Result<
    Option<(Option<String>, Option<String>)>,
    String,
>)
    ensures
        match r {
            Ok(g) => regex_groups_of(pattern@, text@) == Some(groups_view(g)),
            Err(_) => regex_groups_of(pattern@, text@) is None,
        },
{
    let re = match regex::Regex::new(pattern) {
        Ok(re) => re,
        Err(e) => return Err(e.to_string()),
    };
    let group = |c: &regex::Captures, i: usize| c.get(i).map(|m| m.as_str().to_string());
    Ok(re.captures(text).map(|c| (group(&c, 1), group(&c, 2))))
}

/// Project and resource identifier of a resource IRI, by a regular
/// expression whose first two groups capture them.
pub fn parse_resource_iri(resource_iri: &str, resource_iri_pattern: &str) -> (r:
    ArkUrlFormatterResult<(String, String)>)
    ensures
        match regex_groups_of(resource_iri_pattern@, resource_iri@) {
            None => r matches Err(ArkUrlFormatterError::InvalidRegexPattern(_)),
            Some(Some((Some(p), Some(id)))) => formatter_pair(r) == Ok::<
                (Seq<char>, Seq<char>),
                FormatterErrView,
            >((p, id)),
            Some(_) => formatter_pair(r) == Err::<(Seq<char>, Seq<char>), FormatterErrView>(
                (0, resource_iri@),
            ),
        },
{
    match regex_groups(resource_iri_pattern, resource_iri) {
        Err(message) => Err(ArkUrlFormatterError::InvalidRegexPattern(message)),
        Ok(Some((Some(p), Some(id)))) => Ok((p, id)),
        Ok(_) => Err(ArkUrlFormatterError::InvalidResourceIri(string_of(resource_iri))),
    }
}

} // verus!
