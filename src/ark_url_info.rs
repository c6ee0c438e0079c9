//! The information an ARK carries: version, project, resource, value and
//! timestamp, and the redirect template each combination selects.
use vstd::prelude::*;

use crate::ark_path::opt_view;
use crate::errors::{ArkUrlInfoError, ArkUrlInfoResult};
use crate::string_map::{insert_pair, StringMap};
use crate::text::{concat, decimal, decimal_string, string_of};

verus! {

/// What a parsed ARK identifies. Version 0 is the legacy grammar, 1 the
/// current one.
#[derive(Debug, Clone, PartialEq)]
pub struct ArkUrlInfo {
    pub url_version: u8,
    pub project_id: Option<String>,
    pub resource_id: Option<String>,
    pub value_id: Option<String>,
    pub timestamp: Option<String>,
}

/// `ps` with `(k, v)` inserted when `o` is `Some(v)`.
pub open spec fn insert_opt(
    ps: Seq<(Seq<char>, Seq<char>)>,
    k: Seq<char>,
    o: Option<String>,
) -> Seq<(Seq<char>, Seq<char>)> {
    match o {
        Some(v) => insert_pair(ps, k, v@),
        None => ps,
    }
}

/// Name of the redirect template for the level and timestamp of an ARK, or
/// `None` for a value without a resource.
pub open spec fn template_name_of(info: ArkUrlInfo) -> Option<Seq<char>> {
    if info.resource_id is None {
        if info.value_id is None {
            Some("ProjectRedirectUrl"@)
        } else {
            None
        }
    } else if info.value_id is None {
        if info.timestamp is Some {
            Some("ResourceVersionRedirectUrl"@)
        } else {
            Some("ResourceRedirectUrl"@)
        }
    } else if info.timestamp is Some {
        Some("ValueVersionRedirectUrl"@)
    } else {
        Some("ValueRedirectUrl"@)
    }
}

impl ArkUrlInfo {
    pub fn new(
        url_version: u8,
        project_id: Option<String>,
        resource_id: Option<String>,
        value_id: Option<String>,
        timestamp: Option<String>,
    ) -> (r: Self)
        ensures
            r == (ArkUrlInfo { url_version, project_id, resource_id, value_id, timestamp }),
    {
        ArkUrlInfo { url_version, project_id, resource_id, value_id, timestamp }
    }

    /// The timestamp as redirects use it: a legacy timestamp (a date) gets
    /// `T000000Z` appended.
    pub fn get_timestamp(&self) -> (r: Option<String>)
        ensures
            self.url_version == 0 && self.timestamp is Some ==> opt_view(r) == Some(
                self.timestamp->0@ + "T000000Z"@,
            ),
            !(self.url_version == 0 && self.timestamp is Some) ==> opt_view(r) == opt_view(
                self.timestamp,
            ),
    {
        match &self.timestamp {
            Some(ts) => {
                if self.url_version == 0 {
                    Some(concat(ts.as_str(), "T000000Z"))
                } else {
                    Some(string_of(ts.as_str()))
                }
            },
            None => None,
        }
    }

    /// The template values of this ARK: its version, then each part it has.
    pub open spec fn template_pairs(&self) -> Seq<(Seq<char>, Seq<char>)> {
        let v = insert_pair(Seq::empty(), "url_version"@, decimal(self.url_version as nat));
        let p = insert_opt(v, "project_id"@, self.project_id);
        let r = insert_opt(p, "resource_id"@, self.resource_id);
        let val = insert_opt(r, "value_id"@, self.value_id);
        insert_opt(val, "timestamp"@, self.timestamp)
    }

    /// Creates the template values of this ARK.
    pub fn to_template_dict(&self) -> (r: StringMap)
        ensures
            r.pairs() == self.template_pairs(),
            r.wf(),
    {
        let mut dict = StringMap::new();
        dict.insert(String::from_str("url_version"), decimal_string(self.url_version as u64));
        if let Some(p) = &self.project_id {
            dict.insert(String::from_str("project_id"), string_of(p.as_str()));
        }
        if let Some(r) = &self.resource_id {
            dict.insert(String::from_str("resource_id"), string_of(r.as_str()));
        }
        if let Some(v) = &self.value_id {
            dict.insert(String::from_str("value_id"), string_of(v.as_str()));
        }
        if let Some(t) = &self.timestamp {
            dict.insert(String::from_str("timestamp"), string_of(t.as_str()));
        }
        dict
    }

    /// No resource: the ARK names a project.
    pub fn is_project_level(&self) -> (r: bool)
        ensures
            r == self.resource_id is None,
    {
        self.resource_id.is_none()
    }

    /// A resource and no value.
    pub fn is_resource_level(&self) -> (r: bool)
        ensures
            r == (self.resource_id is Some && self.value_id is None),
    {
        self.resource_id.is_some() && self.value_id.is_none()
    }

    /// A value.
    pub fn is_value_level(&self) -> (r: bool)
        ensures
            r == self.value_id is Some,
    {
        self.value_id.is_some()
    }

    pub fn has_timestamp(&self) -> (r: bool)
        ensures
            r == self.timestamp is Some,
    {
        self.timestamp.is_some()
    }

    pub fn is_version_0(&self) -> (r: bool)
        ensures
            r == (self.url_version == 0),
    {
        self.url_version == 0
    }

    pub fn is_version_1(&self) -> (r: bool)
        ensures
            r == (self.url_version == 1),
    {
        self.url_version == 1
    }
}

/// Selects the redirect template for an ARK: a value outranks a resource, and
/// a timestamp selects the version template of a resource or a value.
pub fn redirect_template_name(ark_info: &ArkUrlInfo) -> (r: ArkUrlInfoResult<String>)
    ensures
        match template_name_of(*ark_info) {
            Some(name) => r matches Ok(s) && s@ == name,
            None => r == Err::<String, ArkUrlInfoError>(
                ArkUrlInfoError::RedirectTemplateUndetermined,
            ),
        },
{
    let project = ark_info.is_project_level();
    let resource = ark_info.is_resource_level();
    let value = ark_info.is_value_level();
    let ts = ark_info.has_timestamp();
    if project && !resource && !value {
        Ok(String::from_str("ProjectRedirectUrl"))
    } else if !project && resource && !value && !ts {
        Ok(String::from_str("ResourceRedirectUrl"))
    } else if !project && resource && !value && ts {
        Ok(String::from_str("ResourceVersionRedirectUrl"))
    } else if !project && !resource && value && !ts {
        Ok(String::from_str("ValueRedirectUrl"))
    } else if !project && !resource && value && ts {
        Ok(String::from_str("ValueVersionRedirectUrl"))
    } else {
        Err(ArkUrlInfoError::RedirectTemplateUndetermined)
    }
}

} // verus!
