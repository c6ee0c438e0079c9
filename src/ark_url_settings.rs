//! The settings of a resolver: its own configuration, the project registry
//! and the grammars for its NAAN; they serve as the configuration of the
//! redirect engine and of the ARK formatter.
use vstd::prelude::*;

use crate::ark_path::{
    match_ark_path, match_resource_iri, match_v0_ark_path, V0Path, V1Path,
};
use crate::ark_path::{iri_text, iri_wf};
use crate::ark_url_formatter::{formatter_bool, formatter_text, ArkUrlFormatterConfig, FormatterErrView};
use crate::errors::{
    bool_result, configuration_error_view, template_not_found_view, text_result,
    ArkUrlFormatterError, ArkUrlFormatterResult, ArkUrlInfoError, ArkUrlInfoResult, ErrView,
};
use crate::ports::ConfigurationPort;
use crate::settings::{boolean_of, lower_of, ProjectConfig, SettingsRegistry};
use crate::string_map::lookup;
use crate::text::{decimal, decimal_string, string_of};

verus! {

/// The resource IRI pattern that the resolver recognises.
pub const RESOURCE_IRI_PATTERN: &'static str = "^http://rdfh\\.ch/([0-9A-Fa-f]{4})/([A-Za-z0-9_-]+)$";

/// Resolver settings.
#[derive(Debug)]
pub struct ArkUrlSettings {
    /// The resolver's own configuration (`ArkNaan`, `ArkExternalHost`, `ArkHttpsProxy`, ...).
    pub ark_config: ProjectConfig,
    /// Project sections and defaults.
    pub registry: SettingsRegistry,
    /// The NAAN that the grammars expect.
    pub ark_naan: String,
    pub dsp_ark_version: u8,
    pub resource_int_id_factor: u32,
}

impl ArkUrlSettings {
    pub fn new(
        ark_config: ProjectConfig,
        registry: SettingsRegistry,
        ark_naan: String,
        dsp_ark_version: u8,
        resource_int_id_factor: u32,
    ) -> (r: Self)
        ensures
            r == (ArkUrlSettings {
                ark_config,
                registry,
                ark_naan,
                dsp_ark_version,
                resource_int_id_factor,
            }),
    {
        ArkUrlSettings { ark_config, registry, ark_naan, dsp_ark_version, resource_int_id_factor }
    }

    pub fn get_default_config(&self, key: &str) -> (r: Option<String>)
        ensures
            match r {
                Some(v) => lookup(self.registry.default_config.pairs(), key@) == Some(v@),
                None => lookup(self.registry.default_config.pairs(), key@) is None,
            },
    {
        self.registry.get_default_config(key)
    }

    pub fn get_project_config(&self, project_id: &str) -> (r: Option<ProjectConfig>)
        ensures
            match self.registry.project_pairs(lower_of(project_id@)) {
                Some(ps) => r matches Some(c) && c.config.pairs() == ps,
                None => r is None,
            },
    {
        self.registry.get_project_config(project_id)
    }

    /// Project and resource identifier of a resource IRI.
    pub fn match_resource_iri(&self, resource_iri: &str) -> (r: Option<(String, String)>)
        ensures
            r matches Some((p, id)) ==> crate::ark_path::iri_wf(p@, id@) && resource_iri@
                == crate::ark_path::iri_text(p@, id@),
            r is None ==> forall|p: Seq<char>, id: Seq<char>|
                !(crate::ark_path::iri_wf(p, id) && resource_iri@
                    == #[trigger] crate::ark_path::iri_text(p, id)),
    {
        match_resource_iri(resource_iri)
    }

    /// The parts of a current-grammar ARK with this NAAN.
    pub fn match_ark_path(&self, ark_path: &str) -> (r: Option<(V1Path, Option<String>)>)
        ensures
            r matches Some((m, ts)) ==> crate::ark_path::v1_wf(m.parts()) && ark_path@
                == crate::ark_path::v1_text(
                self.ark_naan@,
                m.parts(),
                crate::ark_path::opt_view(ts),
            ),
            r is None && crate::text::free_of(self.ark_naan@, '.') ==> forall|
                t: crate::ark_path::V1Parts,
                ts: Option<Seq<char>>,
            |
                !(crate::ark_path::v1_wf(t) && ark_path@ == #[trigger] crate::ark_path::v1_text(
                    self.ark_naan@,
                    t,
                    ts,
                )),
    {
        match_ark_path(self.ark_naan.as_str(), ark_path)
    }

    /// The parts of a legacy ARK with this NAAN.
    pub fn match_v0_ark_path(&self, v0_ark_path: &str) -> (r: Option<V0Path>)
        ensures
            r matches Some(m) ==> exists|d: Seq<char>|
                #[trigger] crate::ark_path::is_v0_text(
                    self.ark_naan@,
                    v0_ark_path@,
                    (m.project_id@, m.resource_id@, d, crate::ark_path::opt_view(m.timestamp)),
                ),
            r is None ==> forall|t: crate::ark_path::V0Parts|
                !crate::ark_path::is_v0_text(self.ark_naan@, v0_ark_path@, t),
    {
        match_v0_ark_path(self.ark_naan.as_str(), v0_ark_path)
    }

    /// Whether a project accepts legacy ARKs: its `AllowVersion0` read as a
    /// boolean (absent reads as `false`); a project without a section, or a
    /// value that is no boolean, is a configuration error.
    pub open spec fn version_0_allowed_of(&self, project_id: Seq<char>) -> Result<bool, ErrView> {
        match self.registry.project_pairs(lower_of(project_id)) {
            None => Err(configuration_error_view("Project configuration not found"@)),
            Some(ps) => match lookup(ps, "AllowVersion0"@) {
                None => Ok(false),
                Some(v) => match boolean_of(v) {
                    Some(b) => Ok(b),
                    None => Err(
                        configuration_error_view(
                            "Invalid boolean value for key '"@ + "AllowVersion0"@ + "': "@ + v,
                        ),
                    ),
                },
            },
        }
    }

    /// The default `TopLevelObjectUrl`, or empty.
    pub open spec fn top_level_redirect_url_of(&self) -> Seq<char> {
        match lookup(self.registry.default_config.pairs(), "TopLevelObjectUrl"@) {
            Some(v) => v,
            None => Seq::empty(),
        }
    }

    /// A named value of a project's merged section.
    pub open spec fn project_template_of(&self, project_id: Seq<char>, template_name: Seq<char>) -> Result<
        Seq<char>,
        ErrView,
    > {
        match self.registry.project_pairs(lower_of(project_id)) {
            Some(ps) => match lookup(ps, template_name) {
                Some(v) => Ok(v),
                None => Err(template_not_found_view(template_name)),
            },
            None => Err(template_not_found_view(template_name)),
        }
    }

    /// A project's `ProjectHost`, else the default one.
    pub open spec fn project_host_of(&self, project_id: Seq<char>) -> Result<Seq<char>, ErrView> {
        match self.registry.project_pairs(lower_of(project_id)) {
            Some(ps) if lookup(ps, "ProjectHost"@) is Some => Ok(lookup(ps, "ProjectHost"@)->0),
            _ => match lookup(self.registry.default_config.pairs(), "ProjectHost"@) {
                Some(d) => Ok(d),
                None => Err(configuration_error_view("Project host not found"@)),
            },
        }
    }

    /// Whether a project accepts legacy ARKs: its `AllowVersion0` read as a
    /// boolean; a project without a section is an error.
    pub fn version_0_allowed(&self, project_id: &str) -> (r: ArkUrlInfoResult<bool>)
        ensures
            bool_result(r) == self.version_0_allowed_of(project_id@),
    {
        match self.registry.get_project_config(project_id) {
            None => Err(ArkUrlInfoError::configuration_error("Project configuration not found")),
            Some(config) => match config.get_boolean("AllowVersion0") {
                Ok(b) => Ok(b),
                Err(e) => Err(ArkUrlInfoError::configuration_error(e.as_str())),
            },
        }
    }

    /// The redirect URL for ARKs without a project: the default
    /// `TopLevelObjectUrl`, or empty.
    pub fn top_level_redirect_url(&self) -> (r: String)
        ensures
            r@ == self.top_level_redirect_url_of(),
    {
        match self.registry.default_config.get("TopLevelObjectUrl") {
            Some(v) => string_of(v.as_str()),
            None => String::new(),
        }
    }

    /// A named template of a project's section.
    pub fn project_template(&self, project_id: &str, template_name: &str) -> (r: ArkUrlInfoResult<
        String,
    >)
        ensures
            text_result(r) == self.project_template_of(project_id@, template_name@),
    {
        match self.registry.get_project_config(project_id) {
            Some(config) => match config.get(template_name) {
                Some(v) => Ok(string_of(v.as_str())),
                None => Err(ArkUrlInfoError::template_not_found(template_name)),
            },
            None => Err(ArkUrlInfoError::template_not_found(template_name)),
        }
    }

    /// A project's `ProjectHost`, else the default one.
    pub fn project_host(&self, project_id: &str) -> (r: ArkUrlInfoResult<String>)
        ensures
            text_result(r) == self.project_host_of(project_id@),
    {
        if let Some(config) = self.registry.get_project_config(project_id) {
            if let Some(v) = config.get("ProjectHost") {
                return Ok(string_of(v.as_str()));
            }
        }
        match self.registry.default_config.get("ProjectHost") {
            Some(v) => Ok(string_of(v.as_str())),
            None => Err(ArkUrlInfoError::configuration_error("Project host not found")),
        }
    }

    /// A value of the resolver's own configuration, or `MissingConfiguration(key)`.
    pub open spec fn required_of(&self, key: Seq<char>) -> Result<Seq<char>, FormatterErrView> {
        match lookup(self.ark_config.config.pairs(), key) {
            Some(v) => Ok(v),
            None => Err((5, key)),
        }
    }

    /// `ArkHttpsProxy` read as a boolean: absent reads as `false`; a value
    /// that is no boolean is a missing configuration.
    pub open spec fn use_https_proxy_of(&self) -> Result<bool, FormatterErrView> {
        match lookup(self.ark_config.config.pairs(), "ArkHttpsProxy"@) {
            None => Ok(false),
            Some(v) => match boolean_of(v) {
                Some(b) => Ok(b),
                None => Err((5, "Invalid boolean value for key '"@ + "ArkHttpsProxy"@ + "': "@ + v)),
            },
        }
    }

    /// A value of the resolver's own configuration, or `MissingConfiguration(key)`.
    fn required(&self, key: &str) -> (r: ArkUrlFormatterResult<String>)
        ensures
            formatter_text(r) == self.required_of(key@),
    {
        match self.ark_config.get(key) {
            Some(v) => Ok(string_of(v.as_str())),
            None => Err(ArkUrlFormatterError::MissingConfiguration(string_of(key))),
        }
    }

    /// The NAAN of the resolver's own configuration.
    pub fn configured_naan(&self) -> (r: ArkUrlFormatterResult<String>)
        ensures
            formatter_text(r) == self.required_of("ArkNaan"@),
    {
        self.required("ArkNaan")
    }

    /// The external host of the resolver's own configuration.
    pub fn external_host(&self) -> (r: ArkUrlFormatterResult<String>)
        ensures
            formatter_text(r) == self.required_of("ArkExternalHost"@),
    {
        self.required("ArkExternalHost")
    }

    /// Whether ARK URLs use https: `ArkHttpsProxy` read as a boolean.
    pub fn use_https_proxy(&self) -> (r: ArkUrlFormatterResult<bool>)
        ensures
            formatter_bool(r) == self.use_https_proxy_of(),
    {
        match self.ark_config.get_boolean("ArkHttpsProxy") {
            Ok(b) => Ok(b),
            Err(e) => Err(ArkUrlFormatterError::MissingConfiguration(e)),
        }
    }

    /// The DSP ARK version in decimal.
    pub fn version_text(&self) -> (r: String)
        ensures
            r@ == decimal(self.dsp_ark_version as nat),
    {
        decimal_string(self.dsp_ark_version as u64)
    }
}

impl ConfigurationPort for ArkUrlSettings {
    open spec fn dsp_version_spec(&self) -> u32 {
        self.dsp_ark_version as u32
    }

    open spec fn version_0_allowed_spec(&self, project_id: Seq<char>) -> Result<bool, ErrView> {
        self.version_0_allowed_of(project_id)
    }

    open spec fn top_level_redirect_url_spec(&self) -> Seq<char> {
        self.top_level_redirect_url_of()
    }

    open spec fn project_template_spec(&self, project_id: Seq<char>, template_name: Seq<char>) -> Result<
        Seq<char>,
        ErrView,
    > {
        self.project_template_of(project_id, template_name)
    }

    open spec fn project_host_spec(&self, project_id: Seq<char>) -> Result<Seq<char>, ErrView> {
        self.project_host_of(project_id)
    }

    fn get_dsp_ark_version(&self) -> u32 {
        self.dsp_ark_version as u32
    }

    fn is_version_0_allowed(&self, project_id: &str) -> ArkUrlInfoResult<bool> {
        self.version_0_allowed(project_id)
    }

    fn get_top_level_redirect_url(&self) -> String {
        self.top_level_redirect_url()
    }

    fn get_project_template(&self, project_id: &str, template_name: &str) -> ArkUrlInfoResult<
        String,
    > {
        self.project_template(project_id, template_name)
    }

    fn get_project_host(&self, project_id: &str) -> ArkUrlInfoResult<String> {
        self.project_host(project_id)
    }
}

/// The project and resource identifier of a resource IRI, or the error that
/// names it.
pub open spec fn resource_iri_parts_of(resource_iri: Seq<char>) -> Result<
    (Seq<char>, Seq<char>),
    FormatterErrView,
> {
    if exists|q: (Seq<char>, Seq<char>)| iri_wf(q.0, q.1) && resource_iri == iri_text(q.0, q.1) {
        Ok(choose|q: (Seq<char>, Seq<char>)| iri_wf(q.0, q.1) && resource_iri == iri_text(q.0, q.1))
    } else {
        Err((0, resource_iri))
    }
}

impl ArkUrlFormatterConfig for ArkUrlSettings {
    open spec fn ark_naan_spec(&self) -> Result<Seq<char>, FormatterErrView> {
        self.required_of("ArkNaan"@)
    }

    open spec fn dsp_ark_version_spec(&self) -> Result<Seq<char>, FormatterErrView> {
        Ok(decimal(self.dsp_ark_version as nat))
    }

    open spec fn external_host_spec(&self) -> Result<Seq<char>, FormatterErrView> {
        self.required_of("ArkExternalHost"@)
    }

    open spec fn use_https_proxy_spec(&self) -> Result<bool, FormatterErrView> {
        self.use_https_proxy_of()
    }

    open spec fn resource_iri_pattern_spec(&self) -> Result<Seq<char>, FormatterErrView> {
        Ok(RESOURCE_IRI_PATTERN@)
    }

    open spec fn match_resource_iri_spec(&self, resource_iri: Seq<char>) -> Result<
        (Seq<char>, Seq<char>),
        FormatterErrView,
    > {
        resource_iri_parts_of(resource_iri)
    }

    fn get_ark_naan(&self) -> ArkUrlFormatterResult<String> {
        self.configured_naan()
    }

    fn get_dsp_ark_version(&self) -> ArkUrlFormatterResult<String> {
        Ok(self.version_text())
    }

    fn get_external_host(&self) -> ArkUrlFormatterResult<String> {
        self.external_host()
    }

    fn get_use_https_proxy(&self) -> ArkUrlFormatterResult<bool> {
        self.use_https_proxy()
    }

    fn get_resource_iri_pattern(&self) -> ArkUrlFormatterResult<String> {
        Ok(string_of(RESOURCE_IRI_PATTERN))
    }

    fn match_resource_iri(&self, resource_iri: &str) -> ArkUrlFormatterResult<(String, String)> {
        match match_resource_iri(resource_iri) {
            Some(parts) => {
                proof {
                    let w = (parts.0@, parts.1@);
                    assert(iri_wf(w.0, w.1) && resource_iri@ == iri_text(w.0, w.1));
                    let q = choose|q: (Seq<char>, Seq<char>)|
                        iri_wf(q.0, q.1) && resource_iri@ == iri_text(q.0, q.1);
                    assert(iri_wf(q.0, q.1) && resource_iri@ == iri_text(q.0, q.1));
                }
                Ok(parts)
            },
            None => Err(ArkUrlFormatterError::InvalidResourceIri(string_of(resource_iri))),
        }
    }
}

} // verus!
