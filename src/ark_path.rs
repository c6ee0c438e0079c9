//! The two ARK grammars and the resource IRI pattern, as functions on
//! characters.
//!
//! Current grammar: `ark:/<NAAN>/<digits>[/<project>[/<resource>[/<value>]]]`,
//! with a 4-digit hexadecimal project and escaped segments over
//! `A-Z a-z 0-9 = _`; an optional `.<timestamp>` is split off first, at the
//! first `.`.
//!
//! Legacy grammar: `ark:/<NAAN>/<hex>-<alnum>-<alnum>[.<6 to 8 digits>]`.
//!
//! Resource IRI: `http://rdfh.ch/<4 hex digits>/<A-Z a-z 0-9 _ ->+`.
use vstd::prelude::*;

use crate::text::{
    all_free_of, chars_of, free_of, join, lemma_join_free, lemma_join2, lemma_join3,
    lemma_join_unique, lemma_with_tail_unique, opt_chars, split_first, split_on, string_from, strip_prefix, views,
    with_tail,
};

verus! {

/// Character classes of the grammars.
#[derive(Clone, Copy, PartialEq, Eq, Debug)]
pub enum CharClass {
    /// `0-9`
    Digit,
    /// `0-9 A-F a-f`
    Hex,
    /// `A-Z a-z 0-9`
    Alnum,
    /// `A-Z a-z 0-9 = _`: an escaped segment of the current grammar
    Escaped,
    /// `A-Z a-z 0-9 _ -`: the identifier of a resource IRI
    Plain,
}

pub open spec fn is_digit(c: char) -> bool {
    '0' <= c && c <= '9'
}

pub open spec fn is_alnum(c: char) -> bool {
    ('A' <= c && c <= 'Z') || ('a' <= c && c <= 'z') || is_digit(c)
}

pub open spec fn in_class(c: char, k: CharClass) -> bool {
    match k {
        CharClass::Digit => is_digit(c),
        CharClass::Hex => is_digit(c) || ('A' <= c && c <= 'F') || ('a' <= c && c <= 'f'),
        CharClass::Alnum => is_alnum(c),
        CharClass::Escaped => is_alnum(c) || c == '=' || c == '_',
        CharClass::Plain => is_alnum(c) || c == '_' || c == '-',
    }
}

/// Every character of `s` is of class `k`.
pub open spec fn all_in(s: Seq<char>, k: CharClass) -> bool {
    forall|i: int| 0 <= i < s.len() ==> in_class(#[trigger] s[i], k)
}

/// A non-empty run of class `k`.
pub open spec fn run_of(s: Seq<char>, k: CharClass) -> bool {
    s.len() > 0 && all_in(s, k)
}

pub fn char_in_class(c: char, k: CharClass) -> (r: bool)
    ensures
        r == in_class(c, k),
{
    let alnum = ('A' <= c && c <= 'Z') || ('a' <= c && c <= 'z') || ('0' <= c && c <= '9');
    match k {
        CharClass::Digit => '0' <= c && c <= '9',
        CharClass::Hex => ('0' <= c && c <= '9') || ('A' <= c && c <= 'F') || ('a' <= c && c
            <= 'f'),
        CharClass::Alnum => alnum,
        CharClass::Escaped => alnum || c == '=' || c == '_',
        CharClass::Plain => alnum || c == '_' || c == '-',
    }
}

pub fn all_in_class(v: &Vec<char>, k: CharClass) -> (r: bool)
    ensures
        r == all_in(v@, k),
{
    let mut i: usize = 0;
    while i < v.len()
        invariant
            i <= v@.len(),
            forall|j: int| 0 <= j < i ==> in_class(#[trigger] v@[j], k),
        decreases v@.len() - i,
    {
        if !char_in_class(v[i], k) {
            return false;
        }
        i += 1;
    }
    true
}

proof fn lemma_class_free(s: Seq<char>, k: CharClass, c: char)
    requires
        all_in(s, k),
        !in_class(c, k),
    ensures
        free_of(s, c),
{
    assert forall|i: int| 0 <= i < s.len() implies s[i] != c by {
        assert(in_class(s[i], k));
    }
}

/// `ark:/<naan>/`
pub open spec fn ark_prefix(naan: Seq<char>) -> Seq<char> {
    seq!['a', 'r', 'k', ':', '/'] + naan + seq!['/']
}

fn ark_prefix_chars(naan: &str) -> (r: Vec<char>)
    ensures
        r@ == ark_prefix(naan@),
{
    let mut p = vec!['a', 'r', 'k', ':', '/'];
    let mut n = chars_of(naan);
    p.append(&mut n);
    p.push('/');
    p
}

/// An optional segment as a sequence of zero or one segment.
pub open spec fn opt_seg(o: Option<Seq<char>>) -> Seq<Seq<char>> {
    match o {
        Some(s) => seq![s],
        None => Seq::empty(),
    }
}

pub open spec fn opt_view(o: Option<String>) -> Option<Seq<char>> {
    match o {
        Some(s) => Some(s@),
        None => None,
    }
}

/// Version, project, escaped resource and escaped value of a current-grammar path.
pub type V1Parts = (Seq<char>, Option<Seq<char>>, Option<Seq<char>>, Option<Seq<char>>);

pub open spec fn v1_wf(t: V1Parts) -> bool {
    &&& run_of(t.0, CharClass::Digit)
    &&& t.1 matches Some(p) ==> p.len() == 4 && all_in(p, CharClass::Hex)
    &&& t.2 matches Some(r) ==> t.1 is Some && run_of(r, CharClass::Escaped)
    &&& t.3 matches Some(v) ==> t.2 is Some && run_of(v, CharClass::Escaped)
}

pub open spec fn v1_segments(t: V1Parts) -> Seq<Seq<char>> {
    seq![t.0] + opt_seg(t.1) + opt_seg(t.2) + opt_seg(t.3)
}

/// The current-grammar path (without timestamp) made of the parts `t`.
pub open spec fn v1_path(naan: Seq<char>, t: V1Parts) -> Seq<char> {
    ark_prefix(naan) + join(v1_segments(t), '/')
}

pub open spec fn is_v1_path(naan: Seq<char>, path: Seq<char>, t: V1Parts) -> bool {
    v1_wf(t) && path == v1_path(naan, t)
}

proof fn lemma_v1_shape(t: V1Parts)
    requires
        v1_wf(t),
    ensures
        v1_segments(t).len() == 1 + (if t.1 is Some { 1int } else { 0 }) + (if t.2 is Some {
            1int
        } else {
            0
        }) + (if t.3 is Some { 1int } else { 0 }),
        v1_segments(t)[0] == t.0,
        t.1 matches Some(p) ==> v1_segments(t)[1] == p,
        t.2 matches Some(r) ==> v1_segments(t)[2] == r,
        t.3 matches Some(v) ==> v1_segments(t)[3] == v,
        all_free_of(v1_segments(t), '/'),
{
    let s = v1_segments(t);
    assert forall|j: int| 0 <= j < s.len() implies free_of(#[trigger] s[j], '/') by {
        if j == 0 {
            lemma_class_free(t.0, CharClass::Digit, '/');
        } else if j == 1 {
            lemma_class_free(t.1->0, CharClass::Hex, '/');
        } else if j == 2 {
            lemma_class_free(t.2->0, CharClass::Escaped, '/');
        } else {
            lemma_class_free(t.3->0, CharClass::Escaped, '/');
        }
    }
}

/// Parts of a current-grammar path, escaped segments still escaped.
pub struct V1Path {
    pub version: String,
    pub project_id: Option<String>,
    pub resource_id: Option<String>,
    pub value_id: Option<String>,
}

impl V1Path {
    pub open spec fn parts(&self) -> V1Parts {
        (
            self.version@,
            opt_view(self.project_id),
            opt_view(self.resource_id),
            opt_view(self.value_id),
        )
    }
}

fn seg_string(segs: &Vec<Vec<char>>, i: usize) -> (r: String)
    requires
        i < segs@.len(),
    ensures
        r@ == views(segs@)[i as int],
{
    string_from(segs[i].clone())
}

fn classify_v1(segs: &Vec<Vec<char>>) -> (r: Option<V1Path>)
    ensures
        r matches Some(m) ==> v1_wf(m.parts()) && v1_segments(m.parts()) == views(segs@),
        r is None ==> forall|t: V1Parts| v1_wf(t) ==> v1_segments(t) != views(segs@),
{
    let ghost vs = views(segs@);
    let n = segs.len();
    if n < 1 || n > 4 {
        proof {
            assert forall|t: V1Parts| v1_wf(t) implies v1_segments(t) != vs by {
                lemma_v1_shape(t);
            }
        }
        return None;
    }
    if !(segs[0].len() > 0 && all_in_class(&segs[0], CharClass::Digit)) {
        proof {
            assert forall|t: V1Parts| v1_wf(t) implies v1_segments(t) != vs by {
                lemma_v1_shape(t);
                if v1_segments(t) == vs {
                    assert(vs[0] == segs@[0]@);
                }
            }
        }
        return None;
    }
    if n >= 2 && !(segs[1].len() == 4 && all_in_class(&segs[1], CharClass::Hex)) {
        proof {
            assert forall|t: V1Parts| v1_wf(t) implies v1_segments(t) != vs by {
                lemma_v1_shape(t);
                if v1_segments(t) == vs {
                    assert(vs[1] == segs@[1]@);
                }
            }
        }
        return None;
    }
    if n >= 3 && !(segs[2].len() > 0 && all_in_class(&segs[2], CharClass::Escaped)) {
        proof {
            assert forall|t: V1Parts| v1_wf(t) implies v1_segments(t) != vs by {
                lemma_v1_shape(t);
                if v1_segments(t) == vs {
                    assert(vs[2] == segs@[2]@);
                }
            }
        }
        return None;
    }
    if n >= 4 && !(segs[3].len() > 0 && all_in_class(&segs[3], CharClass::Escaped)) {
        proof {
            assert forall|t: V1Parts| v1_wf(t) implies v1_segments(t) != vs by {
                lemma_v1_shape(t);
                if v1_segments(t) == vs {
                    assert(vs[3] == segs@[3]@);
                }
            }
        }
        return None;
    }
    let version = seg_string(segs, 0);
    let project_id = if n >= 2 {
        Some(seg_string(segs, 1))
    } else {
        None
    };
    let resource_id = if n >= 3 {
        Some(seg_string(segs, 2))
    } else {
        None
    };
    let value_id = if n >= 4 {
        Some(seg_string(segs, 3))
    } else {
        None
    };
    let m = V1Path { version, project_id, resource_id, value_id };
    proof {
        assert(v1_segments(m.parts()) =~= vs);
    }
    Some(m)
}

/// Well-formed parts are determined by their segments.
proof fn lemma_v1_segments_injective(t1: V1Parts, t2: V1Parts)
    requires
        v1_wf(t1),
        v1_wf(t2),
        v1_segments(t1) == v1_segments(t2),
    ensures
        t1 == t2,
{
    lemma_v1_shape(t1);
    lemma_v1_shape(t2);
    let s = v1_segments(t1);
    if t1.1 is Some {
        assert(s[1] == t1.1->0);
    }
    if t1.2 is Some {
        assert(s[2] == t1.2->0);
    }
    if t1.3 is Some {
        assert(s[3] == t1.3->0);
    }
}

/// Matches a current-grammar path without timestamp.
pub fn match_v1_path(ark_naan: &str, path: &str) -> (r: Option<V1Path>)
    ensures
        r matches Some(m) ==> is_v1_path(ark_naan@, path@, m.parts()),
        r matches Some(m) ==> forall|t: V1Parts| #[trigger]
            is_v1_path(ark_naan@, path@, t) ==> t == m.parts(),
        r is None ==> forall|t: V1Parts| !is_v1_path(ark_naan@, path@, t),
{
    let prefix = ark_prefix_chars(ark_naan);
    let s = chars_of(path);
    let plen = prefix.len();
    let rest = match strip_prefix(&s, &prefix) {
        Some(rest) => rest,
        None => {
            proof {
                assert forall|t: V1Parts| !is_v1_path(ark_naan@, path@, t) by {
                    if is_v1_path(ark_naan@, path@, t) {
                        assert(s@.take(plen as int) =~= prefix@);
                    }
                }
            }
            return None;
        },
    };
    let segs = split_on(&rest, '/');
    let m = classify_v1(&segs);
    proof {
        assert(s@ =~= prefix@ + rest@);
        assert forall|t: V1Parts| is_v1_path(ark_naan@, path@, t) implies views(segs@)
            == v1_segments(t) by {
            lemma_v1_shape(t);
            assert(rest@ =~= join(v1_segments(t), '/'));
            lemma_join_unique(views(segs@), v1_segments(t), '/');
        }
        if m is Some {
            assert forall|t: V1Parts| #[trigger]
                is_v1_path(ark_naan@, path@, t) implies t == m->0.parts() by {
                lemma_v1_segments_injective(t, m->0.parts());
            }
        }
    }
    m
}

} // verus!

verus! {

/// A current-grammar identifier: its path, then `.` and the timestamp if any.
pub open spec fn v1_text(naan: Seq<char>, t: V1Parts, timestamp: Option<Seq<char>>) -> Seq<char> {
    with_tail(v1_path(naan, t), timestamp, '.')
}

proof fn lemma_prefix_free(naan: Seq<char>, c: char)
    requires
        free_of(naan, c),
        c != 'a' && c != 'r' && c != 'k' && c != ':' && c != '/',
    ensures
        free_of(ark_prefix(naan), c),
{
    let p = ark_prefix(naan);
    assert forall|i: int| 0 <= i < p.len() implies p[i] != c by {
        if 5 <= i < 5 + naan.len() {
            assert(p[i] == naan[i - 5]);
        }
    }
}

proof fn lemma_concat_free(a: Seq<char>, b: Seq<char>, c: char)
    requires
        free_of(a, c),
        free_of(b, c),
    ensures
        free_of(a + b, c),
{
    assert forall|i: int| 0 <= i < (a + b).len() implies (a + b)[i] != c by {
        if i >= a.len() {
            assert((a + b)[i] == b[i - a.len()]);
        }
    }
}

pub proof fn lemma_v1_path_dot_free(naan: Seq<char>, t: V1Parts)
    requires
        v1_wf(t),
        free_of(naan, '.'),
    ensures
        free_of(v1_path(naan, t), '.'),
{
    lemma_v1_shape(t);
    let s = v1_segments(t);
    assert forall|j: int| 0 <= j < s.len() implies free_of(#[trigger] s[j], '.') by {
        if j == 0 {
            lemma_class_free(t.0, CharClass::Digit, '.');
        } else if j == 1 {
            lemma_class_free(t.1->0, CharClass::Hex, '.');
        } else if j == 2 {
            lemma_class_free(t.2->0, CharClass::Escaped, '.');
        } else {
            lemma_class_free(t.3->0, CharClass::Escaped, '.');
        }
    }
    lemma_join_free(s, '/', '.');
    lemma_prefix_free(naan, '.');
    lemma_concat_free(ark_prefix(naan), join(s, '/'), '.');
}

/// A current-grammar identifier is made of one set of parts and one timestamp
/// only, when the NAAN holds no `.`.
pub proof fn lemma_v1_text_unique(
    naan: Seq<char>,
    t1: V1Parts,
    ts1: Option<Seq<char>>,
    t2: V1Parts,
    ts2: Option<Seq<char>>,
)
    requires
        free_of(naan, '.'),
        v1_wf(t1),
        v1_wf(t2),
        v1_text(naan, t1, ts1) == v1_text(naan, t2, ts2),
    ensures
        t1 == t2,
        ts1 == ts2,
{
    lemma_v1_path_dot_free(naan, t1);
    lemma_v1_path_dot_free(naan, t2);
    lemma_with_tail_unique(v1_path(naan, t1), ts1, v1_path(naan, t2), ts2, '.');
    let p = ark_prefix(naan);
    assert(join(v1_segments(t1), '/') =~= v1_path(naan, t1).skip(p.len() as int));
    assert(join(v1_segments(t2), '/') =~= v1_path(naan, t2).skip(p.len() as int));
    lemma_v1_shape(t1);
    lemma_v1_shape(t2);
    lemma_join_unique(v1_segments(t1), v1_segments(t2), '/');
    let s = v1_segments(t1);
    if t1.1 is Some {
        assert(s[1] == t1.1->0);
    }
    if t1.2 is Some {
        assert(s[2] == t1.2->0);
    }
    if t1.3 is Some {
        assert(s[3] == t1.3->0);
    }
}

/// Matches a current-grammar identifier: the timestamp is what follows the
/// first `.`, and the path before it must match the grammar.
pub fn match_ark_path(ark_naan: &str, ark_path: &str) -> (r: Option<(V1Path, Option<String>)>)
    ensures
        r matches Some((m, ts)) ==> v1_wf(m.parts()) && ark_path@ == v1_text(
            ark_naan@,
            m.parts(),
            opt_view(ts),
        ),
        r is None && free_of(ark_naan@, '.') ==> forall|t: V1Parts, ts: Option<Seq<char>>|
            !(v1_wf(t) && ark_path@ == #[trigger] v1_text(ark_naan@, t, ts)),
{
    let s = chars_of(ark_path);
    let (head, tail) = split_first(&s, '.');
    let head_str = string_from(head);
    let timestamp = match tail {
        Some(t) => Some(string_from(t)),
        None => None,
    };
    proof {
        assert(opt_view(timestamp) == opt_chars(tail));
    }
    let m = match_v1_path(ark_naan, head_str.as_str());
    proof {
        if free_of(ark_naan@, '.') {
            assert forall|t: V1Parts, ts: Option<Seq<char>>|
                v1_wf(t) && ark_path@ == #[trigger] v1_text(ark_naan@, t, ts) implies is_v1_path(
                ark_naan@,
                head_str@,
                t,
            ) by {
                lemma_v1_path_dot_free(ark_naan@, t);
                lemma_with_tail_unique(head_str@, opt_view(timestamp), v1_path(ark_naan@, t), ts, '.');
            }
        }
    }
    match m {
        Some(m) => Some((m, timestamp)),
        None => None,
    }
}

} // verus!

verus! {

/// Project, resource, discriminator and timestamp of a legacy identifier.
pub type V0Parts = (Seq<char>, Seq<char>, Seq<char>, Option<Seq<char>>);

pub open spec fn v0_wf(t: V0Parts) -> bool {
    &&& run_of(t.0, CharClass::Hex)
    &&& run_of(t.1, CharClass::Alnum)
    &&& run_of(t.2, CharClass::Alnum)
    &&& t.3 matches Some(ts) ==> 6 <= ts.len() <= 8 && all_in(ts, CharClass::Digit)
}

/// The legacy identifier made of the parts `t`.
pub open spec fn v0_text(naan: Seq<char>, t: V0Parts) -> Seq<char> {
    ark_prefix(naan) + with_tail(join(seq![t.0, t.1, t.2], '-'), t.3, '.')
}

pub open spec fn is_v0_text(naan: Seq<char>, s: Seq<char>, t: V0Parts) -> bool {
    v0_wf(t) && s == v0_text(naan, t)
}

/// Parts of a legacy identifier; its discriminator is not kept.
pub struct V0Path {
    pub project_id: String,
    pub resource_id: String,
    pub timestamp: Option<String>,
}

proof fn lemma_v0_body(t: V0Parts)
    requires
        v0_wf(t),
    ensures
        join(seq![t.0, t.1, t.2], '-') == t.0 + seq!['-'] + t.1 + seq!['-'] + t.2,
        all_free_of(seq![t.0, t.1, t.2], '-'),
        free_of(join(seq![t.0, t.1, t.2], '-'), '.'),
{
    let s = seq![t.0, t.1, t.2];
    lemma_join3(t.0, t.1, t.2, '-');
    lemma_class_free(t.0, CharClass::Hex, '-');
    lemma_class_free(t.1, CharClass::Alnum, '-');
    lemma_class_free(t.2, CharClass::Alnum, '-');
    lemma_class_free(t.0, CharClass::Hex, '.');
    lemma_class_free(t.1, CharClass::Alnum, '.');
    lemma_class_free(t.2, CharClass::Alnum, '.');
    assert(all_free_of(s, '.'));
    lemma_join_free(s, '-', '.');
}

/// Matches a legacy identifier.
pub fn match_v0_ark_path(ark_naan: &str, v0_ark_path: &str) -> (r: Option<V0Path>)
    ensures
        r matches Some(m) ==> exists|d: Seq<char>|
            #[trigger] is_v0_text(
                ark_naan@,
                v0_ark_path@,
                (m.project_id@, m.resource_id@, d, opt_view(m.timestamp)),
            ),
        r matches Some(m) ==> forall|t: V0Parts| #[trigger]
            is_v0_text(ark_naan@, v0_ark_path@, t) ==> t.0 == m.project_id@ && t.1
                == m.resource_id@ && t.3 == opt_view(m.timestamp),
        r is None ==> forall|t: V0Parts| !is_v0_text(ark_naan@, v0_ark_path@, t),
{
    let prefix = ark_prefix_chars(ark_naan);
    let s = chars_of(v0_ark_path);
    let ghost naan = ark_naan@;
    let rest = match strip_prefix(&s, &prefix) {
        Some(b) => b,
        None => {
            proof {
                assert forall|t: V0Parts| !is_v0_text(naan, s@, t) by {
                    if is_v0_text(naan, s@, t) {
                        assert(s@.take(prefix@.len() as int) =~= prefix@);
                    }
                }
            }
            return None;
        },
    };
    let (body, tail) = split_first(&rest, '.');
    let segs = split_on(&body, '-');
    proof {
        assert(s@ =~= prefix@ + rest@);
        assert forall|t: V0Parts| #[trigger] is_v0_text(naan, s@, t) implies views(segs@)
            == seq![t.0, t.1, t.2] && opt_chars(tail) == t.3 by {
            lemma_v0_body(t);
            assert(rest@ =~= with_tail(join(seq![t.0, t.1, t.2], '-'), t.3, '.'));
            lemma_with_tail_unique(body@, opt_chars(tail), join(seq![t.0, t.1, t.2], '-'), t.3, '.');
            lemma_join_unique(views(segs@), seq![t.0, t.1, t.2], '-');
        }
    }
    let ok = segs.len() == 3 && segs[0].len() > 0 && all_in_class(&segs[0], CharClass::Hex)
        && segs[1].len() > 0 && all_in_class(&segs[1], CharClass::Alnum) && segs[2].len() > 0
        && all_in_class(&segs[2], CharClass::Alnum);
    if !ok {
        proof {
            assert forall|t: V0Parts| !is_v0_text(naan, s@, t) by {
                if is_v0_text(naan, s@, t) {
                    assert(views(segs@)[0] == segs@[0]@);
                    assert(views(segs@)[1] == segs@[1]@);
                    assert(views(segs@)[2] == segs@[2]@);
                }
            }
        }
        return None;
    }
    let timestamp = match tail {
        Some(t) => {
            if !(6 <= t.len() && t.len() <= 8 && all_in_class(&t, CharClass::Digit)) {
                return None;
            }
            Some(string_from(t))
        },
        None => None,
    };
    let project_id = string_from(segs[0].clone());
    let resource_id = string_from(segs[1].clone());
    let ghost d = segs@[2]@;
    proof {
        let t = (project_id@, resource_id@, d, opt_view(timestamp));
        assert(views(segs@) =~= seq![t.0, t.1, t.2]);
        assert(opt_view(timestamp) == opt_chars(tail));
        assert(v0_wf(t));
        lemma_join3(t.0, t.1, t.2, '-');
        assert(join(seq![t.0, t.1, t.2], '-') == body@) by {
            lemma_join3(views(segs@)[0], views(segs@)[1], views(segs@)[2], '-');
            assert(views(segs@) =~= seq![views(segs@)[0], views(segs@)[1], views(segs@)[2]]);
        }
        assert(is_v0_text(naan, s@, t));
    }
    let res = V0Path { project_id, resource_id, timestamp };
    assert(is_v0_text(
        ark_naan@,
        v0_ark_path@,
        (res.project_id@, res.resource_id@, d, opt_view(res.timestamp)),
    ));
    Some(res)
}

/// `http://rdfh.ch/`
pub open spec fn iri_prefix() -> Seq<char> {
    seq!['h', 't', 't', 'p', ':', '/', '/', 'r', 'd', 'f', 'h', '.', 'c', 'h', '/']
}

/// The resource IRI of a project and a resource identifier.
pub open spec fn iri_text(project_id: Seq<char>, resource_id: Seq<char>) -> Seq<char> {
    iri_prefix() + project_id + seq!['/'] + resource_id
}

pub open spec fn iri_wf(project_id: Seq<char>, resource_id: Seq<char>) -> bool {
    project_id.len() == 4 && all_in(project_id, CharClass::Hex) && run_of(
        resource_id,
        CharClass::Plain,
    )
}

/// Matches a resource IRI and extracts its project and resource identifiers.
pub fn match_resource_iri(resource_iri: &str) -> (r: Option<(String, String)>)
    ensures
        r matches Some((p, id)) ==> iri_wf(p@, id@) && resource_iri@ == iri_text(p@, id@),
        r matches Some((p, id)) ==> forall|q: (Seq<char>, Seq<char>)|
            iri_wf(q.0, q.1) && resource_iri@ == #[trigger] iri_text(q.0, q.1) ==> q.0 == p@ && q.1
                == id@,
        r is None ==> forall|p: Seq<char>, id: Seq<char>|
            !(iri_wf(p, id) && resource_iri@ == #[trigger] iri_text(p, id)),
{
    let prefix = vec!['h', 't', 't', 'p', ':', '/', '/', 'r', 'd', 'f', 'h', '.', 'c', 'h', '/'];
    let s = chars_of(resource_iri);
    let rest = match strip_prefix(&s, &prefix) {
        Some(rest) => rest,
        None => {
            proof {
                assert forall|p: Seq<char>, id: Seq<char>|
                    !(iri_wf(p, id) && resource_iri@ == #[trigger] iri_text(p, id)) by {
                    if iri_wf(p, id) && resource_iri@ == iri_text(p, id) {
                        assert(s@.take(prefix@.len() as int) =~= prefix@);
                    }
                }
            }
            return None;
        },
    };
    let segs = split_on(&rest, '/');
    proof {
        assert(s@ =~= prefix@ + rest@);
        assert forall|p: Seq<char>, id: Seq<char>|
            iri_wf(p, id) && resource_iri@ == #[trigger] iri_text(p, id) implies views(segs@)
            == seq![p, id] by {
            lemma_class_free(p, CharClass::Hex, '/');
            lemma_class_free(id, CharClass::Plain, '/');
            lemma_join2(p, id, '/');
            assert(rest@ =~= join(seq![p, id], '/'));
            lemma_join_unique(views(segs@), seq![p, id], '/');
        }
    }
    let ok = segs.len() == 2 && segs[0].len() == 4 && all_in_class(&segs[0], CharClass::Hex)
        && segs[1].len() > 0 && all_in_class(&segs[1], CharClass::Plain);
    if !ok {
        proof {
            assert forall|p: Seq<char>, id: Seq<char>|
                !(iri_wf(p, id) && resource_iri@ == #[trigger] iri_text(p, id)) by {
                if iri_wf(p, id) && resource_iri@ == iri_text(p, id) {
                    assert(views(segs@)[0] == segs@[0]@);
                    assert(views(segs@)[1] == segs@[1]@);
                }
            }
        }
        return None;
    }
    let p = string_from(segs[0].clone());
    let id = string_from(segs[1].clone());
    proof {
        assert(views(segs@) =~= seq![p@, id@]);
        lemma_join2(p@, id@, '/');
        assert(resource_iri@ =~= iri_text(p@, id@));
        assert forall|q: (Seq<char>, Seq<char>)|
            iri_wf(q.0, q.1) && resource_iri@ == #[trigger] iri_text(q.0, q.1) implies q.0 == p@
            && q.1 == id@ by {
            assert(views(segs@) == seq![q.0, q.1]);
            assert(seq![q.0, q.1][0] == q.0);
            assert(seq![q.0, q.1][1] == q.1);
        }
    }
    Some((p, id))
}

} // verus!
