use vstd::prelude::*;
use vstd::string::{StrSliceExecFns, StringExecFns};

verus! {

/// Concatenates two string slices into a fresh `String`.
pub fn concat(a: &str, b: &str) -> (r: String)
    ensures
        r@ == a@ + b@,
{
    let mut r = String::from_str(a);
    r.append(b);
    r
}

/// The characters of `s`, in order.
pub(crate) fn chars_of(s: &str) -> (r: Vec<char>)
    ensures
        r@ == s@,
{
    let n = s.unicode_len();
    let mut v: Vec<char> = Vec::new();
    let mut i: usize = 0;
    while i < n
        invariant
            n == s@.len(),
            i <= n,
            v@ == s@.take(i as int),
        decreases n - i,
    {
        v.push(s.get_char(i));
        assert(s@.take(i + 1) =~= s@.take(i as int).push(s@[i as int]));
        i += 1;
    }
    assert(s@.take(n as int) =~= s@);
    v
}

/// Relies on `String::from_iter`: the string made of the characters of `v`, in order.
#[verifier::external_body]
pub(crate) fn string_from(v: Vec<char>) -> (r: String)
    ensures
        r@ == v@,
{
    String::from_iter(v)
}

/// `s` with every occurrence of `from` replaced by `to`.
pub open spec fn replace_char(s: Seq<char>, from: char, to: char) -> Seq<char> {
    s.map_values(|c: char| if c == from { to } else { c })
}

/// Replaces every occurrence of the character `from` in `v` by `to`.
pub fn replace_chars(v: &Vec<char>, from: char, to: char) -> (out: Vec<char>)
    ensures
        out@ == replace_char(v@, from, to),
{
    let ghost s = v@;
    let mut out: Vec<char> = Vec::new();
    let mut i: usize = 0;
    while i < v.len()
        invariant
            i <= v@.len(),
            v@ == s,
            out@ == replace_char(s.take(i as int), from, to),
        decreases v@.len() - i,
    {
        let c = v[i];
        if c == from {
            out.push(to);
        } else {
            out.push(c);
        }
        assert(s.take(i as int + 1) == s.take(i as int).push(c));
        i += 1;
    }
    assert(s.take(v@.len() as int) == s);
    out
}

} // verus!

verus! {

/// An owned copy of a string slice.
pub fn string_of(s: &str) -> (r: String)
    ensures
        r@ == s@,
{
    String::from_str(s)
}

} // verus!

verus! {

/// `s` does not contain `c`.
pub open spec fn free_of(s: Seq<char>, c: char) -> bool {
    forall|i: int| 0 <= i < s.len() ==> s[i] != c
}

/// No segment contains `sep`.
pub open spec fn all_free_of(segs: Seq<Seq<char>>, sep: char) -> bool {
    forall|j: int| 0 <= j < segs.len() ==> free_of(#[trigger] segs[j], sep)
}

/// The segments, in order, with one `sep` between each two of them.
pub open spec fn join(segs: Seq<Seq<char>>, sep: char) -> Seq<char>
    decreases segs.len(),
{
    if segs.len() == 0 {
        Seq::empty()
    } else if segs.len() == 1 {
        segs[0]
    } else {
        join(segs.drop_last(), sep) + seq![sep] + segs.last()
    }
}

/// The views of a vector of character vectors.
pub open spec fn views(v: Seq<Vec<char>>) -> Seq<Seq<char>> {
    v.map_values(|x: Vec<char>| x@)
}

/// A string splits into separator-free segments in one way only.
pub proof fn lemma_join_unique(a: Seq<Seq<char>>, b: Seq<Seq<char>>, sep: char)
    requires
        a.len() >= 1,
        b.len() >= 1,
        all_free_of(a, sep),
        all_free_of(b, sep),
        join(a, sep) == join(b, sep),
    ensures
        a == b,
    decreases a.len() + b.len(),
{
    let j = join(a, sep);
    if a.len() == 1 && b.len() == 1 {
        assert(a =~= b);
    } else if a.len() == 1 {
        let pb = join(b.drop_last(), sep);
        assert(j[pb.len() as int] == sep);
        assert(free_of(a[0], sep));
        assert(false);
    } else if b.len() == 1 {
        let pa = join(a.drop_last(), sep);
        assert(j[pa.len() as int] == sep);
        assert(free_of(b[0], sep));
        assert(false);
    } else {
        let pa = join(a.drop_last(), sep);
        let pb = join(b.drop_last(), sep);
        let la = a.last();
        let lb = b.last();
        assert(free_of(la, sep));
        assert(free_of(lb, sep));
        assert(j.len() == pa.len() + 1 + la.len());
        assert(j.len() == pb.len() + 1 + lb.len());
        if la.len() < lb.len() {
            assert(j[pa.len() as int] == sep);
            assert(j[pa.len() as int] == lb[pa.len() - pb.len() - 1]);
            assert(false);
        } else if lb.len() < la.len() {
            assert(j[pb.len() as int] == sep);
            assert(j[pb.len() as int] == la[pb.len() - pa.len() - 1]);
            assert(false);
        }
        assert(la =~= lb) by {
            assert forall|i: int| 0 <= i < la.len() implies la[i] == lb[i] by {
                assert(j[pa.len() + 1 + i] == la[i]);
                assert(j[pb.len() + 1 + i] == lb[i]);
            }
        }
        assert(pa =~= pb) by {
            assert forall|i: int| 0 <= i < pa.len() implies pa[i] == pb[i] by {
                assert(j[i] == pa[i]);
                assert(j[i] == pb[i]);
            }
        }
        let da = a.drop_last();
        let db = b.drop_last();
        assert(all_free_of(da, sep)) by {
            assert forall|k: int| 0 <= k < da.len() implies free_of(#[trigger] da[k], sep) by {
                assert(da[k] == a[k]);
            }
        }
        assert(all_free_of(db, sep)) by {
            assert forall|k: int| 0 <= k < db.len() implies free_of(#[trigger] db[k], sep) by {
                assert(db[k] == b[k]);
            }
        }
        lemma_join_unique(da, db, sep);
        assert(a =~= da.push(la));
        assert(b =~= db.push(lb));
    }
}

/// Splits `s` at every `sep`: the segments joined by `sep` give `s` back.
pub fn split_on(s: &Vec<char>, sep: char) -> (r: Vec<Vec<char>>)
    ensures
        r@.len() >= 1,
        join(views(r@), sep) == s@,
        all_free_of(views(r@), sep),
{
    let mut done: Vec<Vec<char>> = Vec::new();
    let mut cur: Vec<char> = Vec::new();
    let mut i: usize = 0;
    while i < s.len()
        invariant
            i <= s@.len(),
            join(views(done@).push(cur@), sep) == s@.take(i as int),
            all_free_of(views(done@).push(cur@), sep),
        decreases s@.len() - i,
    {
        let c = s[i];
        let ghost before = views(done@).push(cur@);
        if c == sep {
            let finished = cur;
            cur = Vec::new();
            done.push(finished);
            proof {
                let after = views(done@).push(cur@);
                assert(after.drop_last() =~= before);
                assert(after.last() =~= Seq::<char>::empty());
                assert(join(after, sep) =~= join(before, sep) + seq![sep]);
                assert(all_free_of(after, sep)) by {
                    assert forall|k: int| 0 <= k < after.len() implies free_of(
                        #[trigger] after[k],
                        sep,
                    ) by {
                        if k < before.len() {
                            assert(after[k] == before[k]);
                        }
                    }
                }
            }
        } else {
            cur.push(c);
            proof {
                let after = views(done@).push(cur@);
                assert(after.drop_last() =~= before.drop_last());
                assert(after.last() == before.last().push(c));
                if before.len() == 1 {
                    assert(join(after, sep) =~= join(before, sep).push(c));
                } else {
                    assert(join(after, sep) =~= join(before, sep).push(c));
                }
                assert(all_free_of(after, sep)) by {
                    assert forall|k: int| 0 <= k < after.len() implies free_of(
                        #[trigger] after[k],
                        sep,
                    ) by {
                        if k < before.len() - 1 {
                            assert(after[k] == before[k]);
                        }
                    }
                }
            }
        }
        assert(s@.take(i as int + 1) =~= s@.take(i as int).push(c));
        i += 1;
    }
    let ghost last = views(done@).push(cur@);
    done.push(cur);
    proof {
        assert(views(done@) =~= last);
        assert(s@.take(s@.len() as int) =~= s@);
    }
    done
}

} // verus!

verus! {

/// The view of an optional character vector.
pub open spec fn opt_chars(o: Option<Vec<char>>) -> Option<Seq<char>> {
    match o {
        Some(v) => Some(v@),
        None => None,
    }
}

/// `s` without its first `p.len()` characters, if `s` starts with `p`.
pub fn strip_prefix(s: &Vec<char>, p: &Vec<char>) -> (r: Option<Vec<char>>)
    ensures
        r is Some <==> (p@.len() <= s@.len() && s@.take(p@.len() as int) == p@),
        r matches Some(rest) ==> rest@ == s@.skip(p@.len() as int),
{
    if p.len() > s.len() {
        return None;
    }
    let mut i: usize = 0;
    while i < p.len()
        invariant
            p@.len() <= s@.len(),
            i <= p@.len(),
            forall|k: int| 0 <= k < i ==> s@[k] == p@[k],
        decreases p@.len() - i,
    {
        if s[i] != p[i] {
            proof {
                assert(s@.take(p@.len() as int)[i as int] != p@[i as int]);
            }
            return None;
        }
        i += 1;
    }
    assert(s@.take(p@.len() as int) =~= p@);
    let mut rest: Vec<char> = Vec::new();
    let mut j: usize = p.len();
    while j < s.len()
        invariant
            p@.len() <= j <= s@.len(),
            rest@ == s@.subrange(p@.len() as int, j as int),
        decreases s@.len() - j,
    {
        rest.push(s[j]);
        assert(s@.subrange(p@.len() as int, j + 1) =~= s@.subrange(p@.len() as int, j as int).push(
            s@[j as int],
        ));
        j += 1;
    }
    assert(rest@ =~= s@.skip(p@.len() as int));
    Some(rest)
}

/// Splits `s` at its first `sep`, if it has one.
pub fn split_first(s: &Vec<char>, sep: char) -> (r: (Vec<char>, Option<Vec<char>>))
    ensures
        free_of(r.0@, sep),
        r.1 is None ==> r.0@ == s@,
        r.1 matches Some(tail) ==> s@ == r.0@ + seq![sep] + tail@,
        s@ == with_tail(r.0@, opt_chars(r.1), sep),
{
    let mut head: Vec<char> = Vec::new();
    let mut i: usize = 0;
    while i < s.len()
        invariant
            i <= s@.len(),
            head@ == s@.take(i as int),
            free_of(head@, sep),
        decreases s@.len() - i,
    {
        if s[i] == sep {
            let mut tail: Vec<char> = Vec::new();
            let mut j: usize = i + 1;
            while j < s.len()
                invariant
                    i + 1 <= j <= s@.len(),
                    tail@ == s@.subrange(i + 1, j as int),
                decreases s@.len() - j,
            {
                tail.push(s[j]);
                assert(s@.subrange(i + 1, j + 1) =~= s@.subrange(i + 1, j as int).push(s@[j as int]));
                j += 1;
            }
            assert(s@ =~= head@ + seq![sep] + tail@);
            return (head, Some(tail));
        }
        head.push(s[i]);
        assert(s@.take(i + 1) =~= s@.take(i as int).push(s@[i as int]));
        i += 1;
    }
    assert(head@ =~= s@);
    (head, None)
}

/// A separator-free string joined alone is itself; joining keeps out every
/// character that no segment holds and that is not the separator.
pub proof fn lemma_join_free(segs: Seq<Seq<char>>, sep: char, c: char)
    requires
        sep != c,
        all_free_of(segs, c),
    ensures
        free_of(join(segs, sep), c),
    decreases segs.len(),
{
    if segs.len() > 1 {
        let d = segs.drop_last();
        assert(all_free_of(d, c)) by {
            assert forall|k: int| 0 <= k < d.len() implies free_of(#[trigger] d[k], c) by {
                assert(d[k] == segs[k]);
            }
        }
        lemma_join_free(d, sep, c);
        assert(free_of(segs[segs.len() - 1], c));
        let j = join(segs, sep);
        let pj = join(d, sep);
        assert forall|i: int| 0 <= i < j.len() implies j[i] != c by {
            if i < pj.len() {
                assert(j[i] == pj[i]);
            } else if i > pj.len() {
                assert(j[i] == segs.last()[i - pj.len() - 1]);
            }
        }
    } else if segs.len() == 1 {
        assert(free_of(segs[0], c));
    }
}

} // verus!

verus! {

/// `head`, followed by `sep` and the tail when there is one.
pub open spec fn with_tail(head: Seq<char>, tail: Option<Seq<char>>, sep: char) -> Seq<char> {
    match tail {
        Some(t) => head + seq![sep] + t,
        None => head,
    }
}

/// A separator-free head and its optional tail are determined by the text they make.
pub proof fn lemma_with_tail_unique(
    h1: Seq<char>,
    t1: Option<Seq<char>>,
    h2: Seq<char>,
    t2: Option<Seq<char>>,
    sep: char,
)
    requires
        free_of(h1, sep),
        free_of(h2, sep),
        with_tail(h1, t1, sep) == with_tail(h2, t2, sep),
    ensures
        h1 == h2,
        t1 == t2,
{
    let s = with_tail(h1, t1, sep);
    if t1 is Some && t2 is None {
        assert(s[h1.len() as int] == sep);
        assert(false);
    } else if t1 is None && t2 is Some {
        assert(s[h2.len() as int] == sep);
        assert(false);
    } else if t1 is Some && t2 is Some {
        if h1.len() < h2.len() {
            assert(s[h1.len() as int] == sep);
            assert(s[h1.len() as int] == h2[h1.len() as int]);
            assert(false);
        } else if h2.len() < h1.len() {
            assert(s[h2.len() as int] == sep);
            assert(s[h2.len() as int] == h1[h2.len() as int]);
            assert(false);
        }
        assert(h1 =~= s.take(h1.len() as int));
        assert(h2 =~= s.take(h2.len() as int));
        assert(t1->0 =~= s.skip(h1.len() + 1int));
        assert(t2->0 =~= s.skip(h2.len() + 1int));
    }
}

} // verus!

verus! {

pub proof fn lemma_join2(a: Seq<char>, b: Seq<char>, sep: char)
    ensures
        join(seq![a, b], sep) == a + seq![sep] + b,
{
    assert(seq![a, b].drop_last() =~= seq![a]);
    assert(join(seq![a], sep) == a);
    assert(seq![a, b].last() == b);
}

pub proof fn lemma_join3(a: Seq<char>, b: Seq<char>, c: Seq<char>, sep: char)
    ensures
        join(seq![a, b, c], sep) == a + seq![sep] + b + seq![sep] + c,
{
    assert(seq![a, b, c].drop_last() =~= seq![a, b]);
    lemma_join2(a, b, sep);
}

} // verus!

verus! {

pub open spec fn digit_char(d: nat) -> char {
    (d + '0' as nat) as char
}

/// Decimal digits of `n`, most significant first, without leading zeros.
pub open spec fn decimal(n: nat) -> Seq<char>
    decreases n,
{
    if n < 10 {
        seq![digit_char(n)]
    } else {
        decimal(n / 10).push(digit_char(n % 10))
    }
}

fn push_decimal(n: u64, out: &mut Vec<char>)
    ensures
        final(out)@ == old(out)@ + decimal(n as nat),
    decreases n,
{
    if n >= 10 {
        push_decimal(n / 10, out);
    }
    let d = (n % 10) as u8;
    out.push((48u8 + d) as char);
    assert(final(out)@ =~= old(out)@ + decimal(n as nat));
}

/// The decimal representation of `n`.
pub fn decimal_string(n: u64) -> (r: String)
    ensures
        r@ == decimal(n as nat),
{
    let mut v: Vec<char> = Vec::new();
    push_decimal(n, &mut v);
    assert(v@ =~= decimal(n as nat));
    string_from(v)
}

/// The decimal representation of `n`, with a leading `-` when it is negative.
pub open spec fn signed_decimal(n: int) -> Seq<char> {
    if n < 0 {
        seq!['-'] + decimal((-n) as nat)
    } else {
        decimal(n as nat)
    }
}

pub fn signed_decimal_string(n: i32) -> (r: String)
    ensures
        r@ == signed_decimal(n as int),
{
    let mut v: Vec<char> = Vec::new();
    if n < 0 {
        v.push('-');
        let m: u64 = (-(n as i64)) as u64;
        push_decimal(m, &mut v);
    } else {
        push_decimal(n as u64, &mut v);
    }
    assert(v@ =~= signed_decimal(n as int));
    string_from(v)
}

} // verus!
