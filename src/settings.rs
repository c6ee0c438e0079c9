//! Project settings: each project's configuration section, merged over the
//! defaults of the registry.
use vstd::prelude::*;

use crate::errors::{SettingsError, SettingsResult};
use crate::string_map::{insert_pair, keys_unique, lookup, StringMap};
use crate::text::{concat, string_of};

verus! {

/// `ps` with every pair of `more` inserted, in order.
pub open spec fn insert_all(
    ps: Seq<(Seq<char>, Seq<char>)>,
    more: Seq<(Seq<char>, Seq<char>)>,
) -> Seq<(Seq<char>, Seq<char>)>
    decreases more.len(),
{
    if more.len() == 0 {
        ps
    } else {
        insert_pair(insert_all(ps, more.drop_last()), more.last().0, more.last().1)
    }
}

/// A configuration value read as a boolean: `true` or `1`, `false` or `0`.
pub open spec fn boolean_of(v: Seq<char>) -> Option<bool> {
    if v == "true"@ || v == "1"@ {
        Some(true)
    } else if v == "false"@ || v == "0"@ {
        Some(false)
    } else {
        None
    }
}

/// The configuration section of one project.
#[derive(Debug)]
pub struct ProjectConfig {
    pub config: StringMap,
}

fn same_text(a: &str, b: &str) -> (r: bool)
    ensures
        r == (a@ == b@),
{
    let x = string_of(a);
    let y = string_of(b);
    x == y
}

fn copy_into(target: &mut StringMap, source: &StringMap)
    ensures
        final(target).pairs() == insert_all(old(target).pairs(), source.pairs()),
        old(target).wf() ==> final(target).wf(),
{
    let ghost start = target.pairs();
    let ghost ps = source.pairs();
    let mut i: usize = 0;
    assert(ps.take(0) =~= Seq::<(Seq<char>, Seq<char>)>::empty());
    while i < source.len()
        invariant
            ps == source.pairs(),
            i <= ps.len(),
            target.pairs() == insert_all(start, ps.take(i as int)),
            keys_unique(start) ==> target.wf(),
        decreases ps.len() - i,
    {
        let (k, v) = source.entry(i);
        target.insert(string_of(k.as_str()), string_of(v.as_str()));
        assert(ps.take(i + 1).drop_last() =~= ps.take(i as int));
        assert(ps.take(i + 1).last() == ps[i as int]);
        i += 1;
    }
    assert(ps.take(ps.len() as int) =~= ps);
}

impl ProjectConfig {
    pub fn new(config: StringMap) -> (r: Self)
        ensures
            r.config == config,
    {
        ProjectConfig { config }
    }

    pub fn get(&self, key: &str) -> (r: Option<&String>)
        ensures
            match r {
                Some(v) => lookup(self.config.pairs(), key@) == Some(v@),
                None => lookup(self.config.pairs(), key@) is None,
            },
    {
        self.config.get(key)
    }

    /// A value read as a boolean; a missing key reads as `false`, any other
    /// text is an error.
    pub fn get_boolean(&self, key: &str) -> (r: Result<bool, String>)
        ensures
            match lookup(self.config.pairs(), key@) {
                None => r == Ok::<bool, String>(false),
                Some(v) => match boolean_of(v) {
                    Some(b) => r == Ok::<bool, String>(b),
                    None => r matches Err(m) && m@ == "Invalid boolean value for key '"@ + key@
                        + "': "@ + v,
                },
            },
    {
        match self.config.get(key) {
            Some(value) => {
                let s = value.as_str();
                if same_text(s, "true") || same_text(s, "1") {
                    Ok(true)
                } else if same_text(s, "false") || same_text(s, "0") {
                    Ok(false)
                } else {
                    let a = concat("Invalid boolean value for key '", key);
                    let b = concat(a.as_str(), "': ");
                    Err(concat(b.as_str(), s))
                }
            },
            None => Ok(false),
        }
    }

    /// This section over the defaults: every default, then every key of the
    /// section, which overrides a default of the same key.
    pub fn merge_with_defaults(&self, defaults: &StringMap) -> (r: Self)
        ensures
            r.config.pairs() == insert_all(insert_all(Seq::empty(), defaults.pairs()), self.config.pairs()),
            r.config.wf(),
    {
        let mut merged = StringMap::new();
        copy_into(&mut merged, defaults);
        copy_into(&mut merged, &self.config);
        ProjectConfig::new(merged)
    }
}

/// Lower-case form of a string, as `str::to_lowercase` gives it.
pub uninterp spec fn lower_of(s: Seq<char>) -> Seq<char>;

/// Relies on `str::to_lowercase`: the result depends on the characters alone.
#[verifier::external_body]
fn to_lowercase(s: &str) -> (r: String)
    ensures
        r@ == lower_of(s@),
{
    s.to_lowercase()
}

/// Position of the last project whose key is `k`, or -1.
pub open spec fn project_index(keys: Seq<Seq<char>>, k: Seq<char>) -> int
    decreases keys.len(),
{
    if keys.len() == 0 {
        -1
    } else if keys.last() == k {
        keys.len() - 1
    } else {
        project_index(keys.drop_last(), k)
    }
}

/// The configuration sections of all projects, keyed by lower-case project
/// identifier, and the defaults. Where two sections share a key, lookups
/// find the later one (`project_index`).
#[derive(Debug)]
pub struct SettingsRegistry {
    pub projects: Vec<(String, ProjectConfig)>,
    pub default_config: StringMap,
}

impl SettingsRegistry {
    pub open spec fn project_keys(&self) -> Seq<Seq<char>> {
        self.projects@.map_values(|e: (String, ProjectConfig)| e.0@)
    }

    pub fn new(projects: Vec<(String, ProjectConfig)>, default_config: StringMap) -> (r: Self)
        ensures
            r.projects == projects,
            r.default_config == default_config,
    {
        SettingsRegistry { projects, default_config }
    }

    /// The section of the project keyed `key`, merged over the defaults.
    pub open spec fn project_pairs(&self, key: Seq<char>) -> Option<Seq<(Seq<char>, Seq<char>)>> {
        let i = project_index(self.project_keys(), key);
        if i >= 0 {
            Some(
                insert_all(
                    insert_all(Seq::empty(), self.default_config.pairs()),
                    self.projects@[i].1.config.pairs(),
                ),
            )
        } else {
            None
        }
    }

    /// The section of a project, looked up by its lower-case identifier and
    /// merged over the defaults.
    pub fn get_project_config(&self, project_id: &str) -> (r: Option<ProjectConfig>)
        ensures
            match self.project_pairs(lower_of(project_id@)) {
                Some(ps) => r matches Some(c) && c.config.pairs() == ps,
                None => r is None,
            },
    {
        let key = to_lowercase(project_id);
        let ghost keys = self.project_keys();
        let mut i: usize = self.projects.len();
        assert(keys.take(i as int) =~= keys);
        while i > 0
            invariant
                i <= keys.len(),
                keys == self.project_keys(),
                key@ == lower_of(project_id@),
                project_index(keys, key@) == project_index(keys.take(i as int), key@),
            decreases i,
        {
            let ghost t = keys.take(i as int);
            assert(t.drop_last() =~= keys.take(i - 1));
            assert(t.last() == keys[i - 1]);
            if self.projects[i - 1].0 == key {
                return Some(self.projects[i - 1].1.merge_with_defaults(&self.default_config));
            }
            i -= 1;
        }
        None
    }

    /// A default value, if the defaults have it.
    pub fn get_default_config(&self, key: &str) -> (r: Option<String>)
        ensures
            match r {
                Some(v) => lookup(self.default_config.pairs(), key@) == Some(v@),
                None => lookup(self.default_config.pairs(), key@) is None,
            },
    {
        match self.default_config.get(key) {
            Some(v) => Some(string_of(v.as_str())),
            None => None,
        }
    }
}

} // verus!

verus! {

/// The resolver's own configuration.
#[derive(Debug)]
pub struct ArkConfig {
    pub ark_external_host: String,
    pub ark_internal_host: String,
    pub ark_internal_port: String,
    pub ark_naan: String,
    pub ark_https_proxy: String,
    pub ark_registry: String,
    pub ark_github_secret: String,
}

impl ArkConfig {
    pub fn new(
        ark_external_host: String,
        ark_internal_host: String,
        ark_internal_port: String,
        ark_naan: String,
        ark_https_proxy: String,
        ark_registry: String,
        ark_github_secret: String,
    ) -> (r: Self)
        ensures
            r == (ArkConfig {
                ark_external_host,
                ark_internal_host,
                ark_internal_port,
                ark_naan,
                ark_https_proxy,
                ark_registry,
                ark_github_secret,
            }),
    {
        ArkConfig {
            ark_external_host,
            ark_internal_host,
            ark_internal_port,
            ark_naan,
            ark_https_proxy,
            ark_registry,
            ark_github_secret,
        }
    }

    /// External host, internal host, internal port and NAAN must not be
    /// empty; the first empty one is named in the error.
    pub fn validate(&self) -> (r: Result<(), String>)
        ensures
            self.ark_external_host@.len() == 0 ==> (r matches Err(m) && m@
                == "ARK external host cannot be empty"@),
            self.ark_external_host@.len() > 0 && self.ark_internal_host@.len() == 0 ==> (
            r matches Err(m) && m@ == "ARK internal host cannot be empty"@),
            self.ark_external_host@.len() > 0 && self.ark_internal_host@.len() > 0
                && self.ark_internal_port@.len() == 0 ==> (r matches Err(m) && m@
                == "ARK internal port cannot be empty"@),
            self.ark_external_host@.len() > 0 && self.ark_internal_host@.len() > 0
                && self.ark_internal_port@.len() > 0 && self.ark_naan@.len() == 0 ==> (
            r matches Err(m) && m@ == "ARK NAAN cannot be empty"@),
            r is Ok <==> (self.ark_external_host@.len() > 0 && self.ark_internal_host@.len() > 0
                && self.ark_internal_port@.len() > 0 && self.ark_naan@.len() > 0),
    {
        if self.ark_external_host.as_str().is_empty() {
            return Err(String::from_str("ARK external host cannot be empty"));
        }
        if self.ark_internal_host.as_str().is_empty() {
            return Err(String::from_str("ARK internal host cannot be empty"));
        }
        if self.ark_internal_port.as_str().is_empty() {
            return Err(String::from_str("ARK internal port cannot be empty"));
        }
        if self.ark_naan.as_str().is_empty() {
            return Err(String::from_str("ARK NAAN cannot be empty"));
        }
        Ok(())
    }

    /// The configuration under the keys the resolver reads.
    pub open spec fn config_pairs(&self) -> Seq<(Seq<char>, Seq<char>)> {
        let a = insert_pair(Seq::empty(), "ArkExternalHost"@, self.ark_external_host@);
        let b = insert_pair(a, "ArkInternalHost"@, self.ark_internal_host@);
        let c = insert_pair(b, "ArkInternalPort"@, self.ark_internal_port@);
        let d = insert_pair(c, "ArkNaan"@, self.ark_naan@);
        let e = insert_pair(d, "ArkHttpsProxy"@, self.ark_https_proxy@);
        let f = insert_pair(e, "ArkRegistry"@, self.ark_registry@);
        insert_pair(f, "ArkGithubSecret"@, self.ark_github_secret@)
    }

    pub fn to_config_map(&self) -> (r: StringMap)
        ensures
            r.pairs() == self.config_pairs(),
    {
        let mut map = StringMap::new();
        map.insert(String::from_str("ArkExternalHost"), string_of(self.ark_external_host.as_str()));
        map.insert(String::from_str("ArkInternalHost"), string_of(self.ark_internal_host.as_str()));
        map.insert(String::from_str("ArkInternalPort"), string_of(self.ark_internal_port.as_str()));
        map.insert(String::from_str("ArkNaan"), string_of(self.ark_naan.as_str()));
        map.insert(String::from_str("ArkHttpsProxy"), string_of(self.ark_https_proxy.as_str()));
        map.insert(String::from_str("ArkRegistry"), string_of(self.ark_registry.as_str()));
        map.insert(String::from_str("ArkGithubSecret"), string_of(self.ark_github_secret.as_str()));
        map
    }
}

/// All settings: the resolver's configuration, the registry, the DSP ARK
/// version and the factor of integer resource identifiers.
#[derive(Debug)]
pub struct Settings {
    pub ark_config: ArkConfig,
    pub registry: SettingsRegistry,
    pub dsp_ark_version: u8,
    pub resource_int_id_factor: u32,
}

impl Settings {
    pub fn new(
        ark_config: ArkConfig,
        registry: SettingsRegistry,
        dsp_ark_version: u8,
        resource_int_id_factor: u32,
    ) -> (r: Self)
        ensures
            r == (Settings { ark_config, registry, dsp_ark_version, resource_int_id_factor }),
    {
        Settings { ark_config, registry, dsp_ark_version, resource_int_id_factor }
    }

    /// The configuration must be valid, and neither the version nor the
    /// factor may be 0.
    pub fn validate(&self) -> (r: Result<(), String>)
        ensures
            r is Ok <==> (self.ark_config.validate_spec() && self.dsp_ark_version != 0
                && self.resource_int_id_factor != 0),
            !self.ark_config.validate_spec() || self.dsp_ark_version != 0 || (r matches Err(m)
                && m@ == "DSP ARK version cannot be 0"@),
            !self.ark_config.validate_spec() || self.dsp_ark_version == 0
                || self.resource_int_id_factor != 0 || (r matches Err(m) && m@
                == "Resource integer ID factor cannot be 0"@),
    {
        self.ark_config.validate()?;
        if self.dsp_ark_version == 0 {
            return Err(String::from_str("DSP ARK version cannot be 0"));
        }
        if self.resource_int_id_factor == 0 {
            return Err(String::from_str("Resource integer ID factor cannot be 0"));
        }
        Ok(())
    }
}

impl ArkConfig {
    /// The configuration has all the values that `validate` requires.
    pub open spec fn validate_spec(&self) -> bool {
        self.ark_external_host@.len() > 0 && self.ark_internal_host@.len() > 0
            && self.ark_internal_port@.len() > 0 && self.ark_naan@.len() > 0
    }
}

/// Checks of settings.
pub trait SettingsValidator {
    fn validate_ark_config(&self, config: &ArkConfig) -> SettingsResult<()>;

    fn validate_project_config(&self, config: &ProjectConfig) -> SettingsResult<()>;

    fn validate_registry(&self, registry: &SettingsRegistry) -> SettingsResult<()>;
}

/// The checks of [`ArkConfig::validate`] and non-empty project sections.
pub struct DefaultSettingsValidator;

impl DefaultSettingsValidator {
    pub fn check_ark_config(&self, config: &ArkConfig) -> (r: SettingsResult<()>)
        ensures
            r is Ok <==> config.validate_spec(),
            r matches Err(e) ==> e is ValidationError,
    {
        match config.validate() {
            Ok(()) => Ok(()),
            Err(m) => Err(SettingsError::ValidationError(m)),
        }
    }

    pub fn check_project_config(&self, config: &ProjectConfig) -> (r: SettingsResult<()>)
        ensures
            r is Ok <==> config.config.pairs().len() > 0,
            r matches Err(e) ==> (e matches SettingsError::ValidationError(m) && m@
                == "Project configuration cannot be empty"@),
    {
        if config.config.len() == 0 {
            return Err(
                SettingsError::ValidationError(
                    String::from_str("Project configuration cannot be empty"),
                ),
            );
        }
        Ok(())
    }

    /// Every project section must be non-empty; the first empty one is named.
    pub fn check_registry(&self, registry: &SettingsRegistry) -> (r: SettingsResult<()>)
        ensures
            r is Ok <==> forall|i: int|
                0 <= i < registry.projects@.len() ==> #[trigger] registry.projects@[i].1.config.pairs().len()
                    > 0,
            r matches Err(e) ==> e is ValidationError,
    {
        let mut i: usize = 0;
        while i < registry.projects.len()
            invariant
                i <= registry.projects@.len(),
                forall|j: int|
                    0 <= j < i ==> #[trigger] registry.projects@[j].1.config.pairs().len() > 0,
            decreases registry.projects@.len() - i,
        {
            let (project_id, project_config) = (&registry.projects[i].0, &registry.projects[i].1);
            match self.check_project_config(project_config) {
                Ok(()) => {},
                Err(e) => {
                    let a = concat("Invalid project configuration for '", project_id.as_str());
                    let b = concat(a.as_str(), "': ");
                    let detail = e.to_string();
                    return Err(SettingsError::ValidationError(concat(b.as_str(), detail.as_str())));
                },
            }
            i += 1;
        }
        Ok(())
    }
}

impl SettingsValidator for DefaultSettingsValidator {
    fn validate_ark_config(&self, config: &ArkConfig) -> SettingsResult<()> {
        self.check_ark_config(config)
    }

    fn validate_project_config(&self, config: &ProjectConfig) -> SettingsResult<()> {
        self.check_project_config(config)
    }

    fn validate_registry(&self, registry: &SettingsRegistry) -> SettingsResult<()> {
        self.check_registry(registry)
    }
}

} // verus!
