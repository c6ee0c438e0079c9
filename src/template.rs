//! Template substitution (`${key}` and `$key` placeholders; unknown
//! placeholders stay as they are), percent-encoding, and the template port
//! adapter built on them.
use vstd::prelude::*;

use crate::string_map::StringMap;
use crate::text::{chars_of, string_from};

verus! {

/// `s` with every non-overlapping occurrence of `pat`, scanned from the left,
/// replaced by `rep`.
pub open spec fn replace_all(s: Seq<char>, pat: Seq<char>, rep: Seq<char>) -> Seq<char>
    decreases s.len(),
{
    if s.len() == 0 || pat.len() == 0 {
        s
    } else if pat.len() <= s.len() && s.take(pat.len() as int) == pat {
        rep + replace_all(s.skip(pat.len() as int), pat, rep)
    } else {
        seq![s[0]] + replace_all(s.skip(1), pat, rep)
    }
}

/// The placeholder of `key`: `${key}` when `braced`, else `$key`.
pub open spec fn placeholder(key: Seq<char>, braced: bool) -> Seq<char> {
    if braced {
        seq!['$', '{'] + key + seq!['}']
    } else {
        seq!['$'] + key
    }
}

/// The placeholders of all pairs of `ps` replaced in turn, in the order of `ps`.
pub open spec fn substitute_pass(t: Seq<char>, ps: Seq<(Seq<char>, Seq<char>)>, braced: bool) -> Seq<
    char,
>
    decreases ps.len(),
{
    if ps.len() == 0 {
        t
    } else {
        replace_all(
            substitute_pass(t, ps.drop_last(), braced),
            placeholder(ps.last().0, braced),
            ps.last().1,
        )
    }
}

/// A template with the `${key}` placeholders replaced, then the `$key` ones.
pub open spec fn substituted(t: Seq<char>, ps: Seq<(Seq<char>, Seq<char>)>) -> Seq<char> {
    substitute_pass(substitute_pass(t, ps, true), ps, false)
}

fn matches_at(s: &Vec<char>, i: usize, pat: &Vec<char>) -> (r: bool)
    requires
        i + pat@.len() <= s@.len(),
    ensures
        r == (s@.skip(i as int).take(pat@.len() as int) == pat@),
{
    let n = s.len();
    let mut k: usize = 0;
    while k < pat.len()
        invariant
            n == s@.len(),
            i + pat@.len() <= s@.len(),
            k <= pat@.len(),
            forall|j: int| 0 <= j < k ==> s@[i + j] == pat@[j],
        decreases pat@.len() - k,
    {
        if s[i + k] != pat[k] {
            assert(s@.skip(i as int).take(pat@.len() as int)[k as int] != pat@[k as int]);
            return false;
        }
        k += 1;
    }
    assert(s@.skip(i as int).take(pat@.len() as int) =~= pat@);
    true
}

fn replace_all_chars(s: &Vec<char>, pat: &Vec<char>, rep: &Vec<char>) -> (out: Vec<char>)
    requires
        pat@.len() > 0,
    ensures
        out@ == replace_all(s@, pat@, rep@),
{
    let mut out: Vec<char> = Vec::new();
    let mut i: usize = 0;
    assert(s@.skip(0) =~= s@);
    while i < s.len()
        invariant
            pat@.len() > 0,
            i <= s@.len(),
            replace_all(s@, pat@, rep@) == out@ + replace_all(s@.skip(i as int), pat@, rep@),
        decreases s@.len() - i,
    {
        let ghost tail = s@.skip(i as int);
        if pat.len() <= s.len() - i && matches_at(s, i, pat) {
            let mut r = rep.clone();
            assert(r@ == rep@);
            out.append(&mut r);
            assert(tail.skip(pat@.len() as int) =~= s@.skip(i + pat@.len()));
            i += pat.len();
        } else {
            out.push(s[i]);
            assert(tail.skip(1) =~= s@.skip(i + 1));
            assert(tail[0] == s@[i as int]);
            i += 1;
        }
    }
    assert(s@.skip(i as int) =~= Seq::<char>::empty());
    assert(out@ =~= out@ + Seq::<char>::empty());
    out
}

fn placeholder_chars(key: &String, braced: bool) -> (r: Vec<char>)
    ensures
        r@ == placeholder(key@, braced),
{
    let mut r = vec!['$'];
    if braced {
        r.push('{');
    }
    let mut k = chars_of(key.as_str());
    r.append(&mut k);
    if braced {
        r.push('}');
    }
    assert(r@ =~= placeholder(key@, braced));
    r
}

/// Substitutes `values` into `template`: every `${key}` first, then every
/// `$key`, one pair after the other; placeholders without a value stay.
pub fn substitute_template(template: &str, values: &StringMap) -> (r: String)
    ensures
        r@ == substituted(template@, values.pairs()),
{
    let ghost ps = values.pairs();
    let mut t = chars_of(template);
    let mut pass: usize = 0;
    while pass < 2
        invariant
            pass <= 2,
            ps == values.pairs(),
            pass == 0 ==> t@ == template@,
            pass == 1 ==> t@ == substitute_pass(template@, ps, true),
            pass == 2 ==> t@ == substituted(template@, ps),
        decreases 2 - pass,
    {
        let braced = pass == 0;
        let ghost start = t@;
        let mut i: usize = 0;
        assert(ps.take(0) =~= Seq::<(Seq<char>, Seq<char>)>::empty());
        while i < values.len()
            invariant
                ps == values.pairs(),
                i <= ps.len(),
                t@ == substitute_pass(start, ps.take(i as int), braced),
            decreases ps.len() - i,
        {
            let (key, value) = values.entry(i);
            let pat = placeholder_chars(key, braced);
            let rep = chars_of(value.as_str());
            t = replace_all_chars(&t, &pat, &rep);
            assert(ps.take(i + 1).drop_last() =~= ps.take(i as int));
            assert(ps.take(i + 1).last() == ps[i as int]);
            i += 1;
        }
        assert(ps.take(ps.len() as int) =~= ps);
        pass += 1;
    }
    string_from(t)
}

/// A byte that percent-encoding leaves as it is: `A-Z a-z 0-9 - . _ ~`.
pub open spec fn is_unreserved(b: u8) -> bool {
    (48 <= b <= 57) || (65 <= b <= 90) || (97 <= b <= 122) || b == 45 || b == 46 || b == 95
        || b == 126
}

/// Upper-case hexadecimal digit of `d < 16`.
pub open spec fn hex_digit(d: u8) -> char {
    if d < 10 {
        (d + 48) as char
    } else {
        (d + 55) as char
    }
}

/// Bytes percent-encoded: unreserved bytes as themselves, every other byte as
/// `%` and two upper-case hexadecimal digits.
pub open spec fn percent_encoded(b: Seq<u8>) -> Seq<char>
    decreases b.len(),
{
    if b.len() == 0 {
        Seq::empty()
    } else {
        let x = b[0];
        let head = if is_unreserved(x) {
            seq![x as char]
        } else {
            seq!['%', hex_digit(x / 16), hex_digit(x % 16)]
        };
        head + percent_encoded(b.skip(1))
    }
}

/// Relies on `urlencoding::encode`: each byte of the UTF-8 encoding of `input`
/// but `A-Z a-z 0-9 - . _ ~` becomes `%` and two upper-case hex digits.
#[verifier::external_body]
pub(crate) fn percent_encode(input: &str) -> (r: String)
    ensures
        r@ == percent_encoded(vstd::utf8::encode_utf8(input@)),
{
    urlencoding::encode(input).into_owned()
}

} // verus!

verus! {

/// Template port over [`substitute_template`] and [`percent_encode`]; neither fails.
pub struct TemplateAdapter;

impl crate::ports::TemplatePort for TemplateAdapter {
    open spec fn substitute_spec(&self, template: Seq<char>, values: Seq<(Seq<char>, Seq<char>)>) -> Result<
        Seq<char>,
        crate::errors::ErrView,
    > {
        Ok(substituted(template, values))
    }

    open spec fn url_encode_spec(&self, input: Seq<char>) -> Result<Seq<char>, crate::errors::ErrView> {
        Ok(percent_encoded(vstd::utf8::encode_utf8(input)))
    }

    fn substitute(&self, template: &str, values: &StringMap) -> crate::errors::ArkUrlInfoResult<
        String,
    > {
        Ok(substitute_template(template, values))
    }

    fn url_encode(&self, input: &str) -> crate::errors::ArkUrlInfoResult<String> {
        Ok(percent_encode(input))
    }
}

} // verus!
