//! The parsing port over the grammars of this crate and its segment escaper.
use vstd::prelude::*;

use crate::ark_path::{
    all_in, is_v0_text, is_v1_path, lemma_v1_path_dot_free, lemma_v1_text_unique,
    match_v0_ark_path, match_v1_path, opt_view, run_of, v1_path, v1_text, CharClass,
    V0Parts, V1Parts,
};
use crate::ark_url_formatter::{ark_id_text, lemma_built_ark_parts};
use crate::check_digit::{check_char_of, is_valid_code};
use crate::uuid_processing::{escaped, lemma_escape_round_trip};
use crate::errors::{
    text_result, uuid_processing_failed_view, ArkUrlInfoError, ArkUrlInfoResult, ErrView,
};
use crate::ports::{v0_components, v1_components, ArkUrlParsingPort, V0Components, V1Components};
use crate::text::{
    chars_of, free_of, lemma_with_tail_unique, opt_chars, replace_char, split_first, string_from,
    with_tail,
};
use crate::uuid_processing::unescape_and_validate_uuid;

verus! {

/// Value of a run of decimal digits.
pub open spec fn decimal_value(s: Seq<char>) -> nat
    decreases s.len(),
{
    if s.len() == 0 {
        0
    } else {
        decimal_value(s.drop_last()) * 10 + (s.last() as int - '0' as int) as nat
    }
}

/// The version number that a run of digits names; one that does not fit in
/// a `u32` reads as `u32::MAX`, a version that no configuration has (the
/// engine refuses versions above 255).
pub open spec fn version_of(digits: Seq<char>) -> u32 {
    if decimal_value(digits) <= u32::MAX {
        decimal_value(digits) as u32
    } else {
        u32::MAX
    }
}

/// Reads the version number of a current-grammar ARK.
pub fn version_number(digits: &str) -> (r: u32)
    requires
        run_of(digits@, CharClass::Digit),
    ensures
        r == version_of(digits@),
{
    let v = chars_of(digits);
    let mut acc: u64 = 0;
    let mut over = false;
    let mut i: usize = 0;
    while i < v.len()
        invariant
            v@ == digits@,
            run_of(digits@, CharClass::Digit),
            i <= v@.len(),
            !over ==> acc == decimal_value(v@.take(i as int)) && acc <= u32::MAX,
            over ==> decimal_value(v@.take(i as int)) > u32::MAX,
        decreases v@.len() - i,
    {
        let c = v[i];
        assert(v@.take(i + 1).drop_last() =~= v@.take(i as int));
        assert(v@.take(i + 1).last() == c);
        assert('0' <= c && c <= '9');
        let d = (c as u32 - '0' as u32) as u64;
        if !over {
            let next = acc * 10 + d;
            if next > 0xffff_ffff {
                over = true;
            } else {
                acc = next;
            }
        }
        i += 1;
    }
    assert(v@.take(v@.len() as int) =~= v@);
    if over {
        0xffff_ffff
    } else {
        acc as u32
    }
}

/// Parsing port over the grammars, for one NAAN.
pub struct ArkPathParser {
    pub ark_naan: String,
}

impl ArkPathParser {
    pub fn new(ark_naan: String) -> (r: Self)
        ensures
            r.ark_naan == ark_naan,
    {
        ArkPathParser { ark_naan }
    }

    /// Version, project, escaped resource, escaped value and timestamp of a
    /// current-grammar ARK.
    pub fn parse_v1(&self, ark_id: &str) -> (r: Option<
        (u32, Option<String>, Option<String>, Option<String>, Option<String>),
    >)
        ensures
            v1_components(r) == v1_parse_of(self.ark_naan@, ark_id@),
    {
        let s = chars_of(ark_id);
        let (head, tail) = split_first(&s, '.');
        let head_str = string_from(head);
        let timestamp = match tail {
            Some(t) => Some(string_from(t)),
            None => None,
        };
        let ghost split = dot_split_of(ark_id@);
        proof {
            assert(opt_view(timestamp) == opt_chars(tail));
            let witness = (head_str@, opt_view(timestamp));
            assert(free_of(witness.0, '.') && ark_id@ == with_tail(witness.0, witness.1, '.'));
            lemma_with_tail_unique(split.0, split.1, head_str@, opt_view(timestamp), '.');
        }
        let naan = self.ark_naan.as_str();
        match match_v1_path(naan, head_str.as_str()) {
            Some(m) => {
                let version = version_number(m.version.as_str());
                proof {
                    assert(is_v1_path(self.ark_naan@, split.0, m.parts()));
                    let t = choose|t: V1Parts| is_v1_path(self.ark_naan@, split.0, t);
                    assert(t == m.parts());
                }
                Some((version, m.project_id, m.resource_id, m.value_id, timestamp))
            },
            None => None,
        }
    }

    /// Project, resource and timestamp of a legacy ARK.
    pub fn parse_v0(&self, ark_id: &str) -> (r: Option<(String, String, Option<String>)>)
        ensures
            v0_components(r) == v0_parse_of(self.ark_naan@, ark_id@),
    {
        let naan = self.ark_naan.as_str();
        match match_v0_ark_path(naan, ark_id) {
            Some(m) => {
                proof {
                    let d = choose|d: Seq<char>|
                        #[trigger] is_v0_text(
                            naan@,
                            ark_id@,
                            (m.project_id@, m.resource_id@, d, opt_view(m.timestamp)),
                        );
                    assert(is_v0_text(self.ark_naan@, ark_id@, (m.project_id@, m.resource_id@, d, opt_view(m.timestamp))));
                    let t = choose|t: V0Parts| is_v0_text(self.ark_naan@, ark_id@, t);
                    assert(is_v0_text(self.ark_naan@, ark_id@, t));
                }
                Some((m.project_id, m.resource_id, m.timestamp))
            },
            None => None,
        }
    }

    /// Unescapes and validates an escaped segment; failures name the ARK.
    pub fn unescape(&self, ark_url: &str, escaped_uuid: &str) -> (r: ArkUrlInfoResult<String>)
        ensures
            text_result(r) == unescape_of(ark_url@, escaped_uuid@),
    {
        match unescape_and_validate_uuid(ark_url, escaped_uuid) {
            Ok(s) => Ok(s),
            Err(e) => {
                let message = e.to_string();
                Err(ArkUrlInfoError::uuid_processing_failed(message.as_str()))
            },
        }
    }
}

/// The split of a text at its first `.`: the head, and what follows the dot.
pub open spec fn dot_split_of(s: Seq<char>) -> (Seq<char>, Option<Seq<char>>) {
    choose|p: (Seq<char>, Option<Seq<char>>)| free_of(p.0, '.') && s == with_tail(p.0, p.1, '.')
}

/// What the parser reads from a current-grammar ARK: the text before the
/// first `.` must be a current-grammar path; the version is read by
/// `version_of`, and the text after the dot is the timestamp.
pub open spec fn v1_parse_of(naan: Seq<char>, s: Seq<char>) -> Option<V1Components> {
    let split = dot_split_of(s);
    if exists|t: V1Parts| is_v1_path(naan, split.0, t) {
        let t = choose|t: V1Parts| is_v1_path(naan, split.0, t);
        Some((version_of(t.0), t.1, t.2, t.3, split.1))
    } else {
        None
    }
}

/// What the parser reads from a legacy ARK: project, resource and timestamp.
pub open spec fn v0_parse_of(naan: Seq<char>, s: Seq<char>) -> Option<V0Components> {
    if exists|t: V0Parts| is_v0_text(naan, s, t) {
        let t = choose|t: V0Parts| is_v0_text(naan, s, t);
        Some((t.0, t.1, t.3))
    } else {
        None
    }
}

/// What unescaping gives: the segment with `=` back to `-` and its check
/// character removed, or an error that names the ARK.
pub open spec fn unescape_of(ark_url: Seq<char>, escaped: Seq<char>) -> Result<Seq<char>, ErrView> {
    if escaped.len() == 0 {
        Err(uuid_processing_failed_view("Empty UUID in ARK ID: "@ + ark_url))
    } else if !is_valid_code(replace_char(escaped, '=', '-')) {
        Err(uuid_processing_failed_view("Invalid ARK ID: "@ + ark_url))
    } else {
        Ok(replace_char(escaped, '=', '-').drop_last())
    }
}

impl ArkUrlParsingPort for ArkPathParser {
    open spec fn v1_spec(&self, ark_id: Seq<char>) -> Option<V1Components> {
        v1_parse_of(self.ark_naan@, ark_id)
    }

    open spec fn v0_spec(&self, ark_id: Seq<char>) -> Option<V0Components> {
        v0_parse_of(self.ark_naan@, ark_id)
    }

    open spec fn unescape_spec(&self, ark_url: Seq<char>, escaped_uuid: Seq<char>) -> Result<
        Seq<char>,
        ErrView,
    > {
        unescape_of(ark_url, escaped_uuid)
    }

    fn parse_ark_v1(&self, ark_id: &str) -> Option<
        (u32, Option<String>, Option<String>, Option<String>, Option<String>),
    > {
        self.parse_v1(ark_id)
    }

    fn parse_ark_v0(&self, ark_id: &str) -> Option<(String, String, Option<String>)> {
        self.parse_v0(ark_id)
    }

    fn unescape_and_validate_uuid(&self, ark_url: &str, escaped_uuid: &str) -> ArkUrlInfoResult<
        String,
    > {
        self.unescape(ark_url, escaped_uuid)
    }
}

} // verus!

verus! {

/// An ARK built from a NAAN without `.`, a version of digits, a 4-digit
/// hexadecimal project and a resource identifier that has a check character
/// is read back by the parser as that version, that project, the escaped
/// resource, no value and the same timestamp; unescaping the resource then
/// gives back the resource identifier.
pub proof fn lemma_parser_reads_built_ark(
    naan: Seq<char>,
    version: Seq<char>,
    project_id: Seq<char>,
    resource_id: Seq<char>,
    timestamp: Option<Seq<char>>,
    ark_url: Seq<char>,
)
    requires
        free_of(naan, '.'),
        run_of(version, CharClass::Digit),
        project_id.len() == 4 && all_in(project_id, CharClass::Hex),
        check_char_of(resource_id) is Some,
    ensures
        v1_parse_of(naan, ark_id_text(naan, version, project_id, escaped(resource_id), timestamp))
            == Some(
            (
                version_of(version),
                Some(project_id),
                Some(escaped(resource_id)),
                None::<Seq<char>>,
                timestamp,
            ),
        ),
        unescape_of(ark_url, escaped(resource_id)) == Ok::<Seq<char>, ErrView>(resource_id),
{
    let e = escaped(resource_id);
    let built: V1Parts = (version, Some(project_id), Some(e), None);
    let s = ark_id_text(naan, version, project_id, e, timestamp);
    lemma_escape_round_trip(resource_id);
    lemma_built_ark_parts(naan, version, project_id, resource_id, timestamp);
    lemma_v1_path_dot_free(naan, built);
    let w = (v1_path(naan, built), timestamp);
    assert(free_of(w.0, '.') && s == with_tail(w.0, w.1, '.'));
    let split = dot_split_of(s);
    lemma_with_tail_unique(split.0, split.1, v1_path(naan, built), timestamp, '.');
    assert(is_v1_path(naan, split.0, built));
    let t = choose|t: V1Parts| is_v1_path(naan, split.0, t);
    assert(v1_text(naan, t, None) == v1_text(naan, built, None));
    lemma_v1_text_unique(naan, t, None, built, None);
}

} // verus!
