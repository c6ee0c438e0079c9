//! Check characters over the base64url alphabet (RFC 4648, table 2, no
//! padding): a weighted sum of character values, modulo 64.
use vstd::arithmetic::div_mod::{lemma_add_mod_noop, lemma_mul_mod_noop_right};
use vstd::prelude::*;

use crate::errors::CheckDigitError;
use crate::text::chars_of;

verus! {

/// Number of characters in the base64url alphabet.
pub const BASE64URL_ALPHABET_LENGTH: usize = 64;

/// `c` is one of `A-Z a-z 0-9 - _`.
pub open spec fn is_alphabet_char(c: char) -> bool {
    ('A' <= c && c <= 'Z') || ('a' <= c && c <= 'z') || ('0' <= c && c <= '9') || c == '-' || c
        == '_'
}

/// Index of an alphabet character in `A-Z a-z 0-9 - _`.
pub open spec fn char_value(c: char) -> int {
    if 'A' <= c && c <= 'Z' {
        c as int - 'A' as int
    } else if 'a' <= c && c <= 'z' {
        c as int - 'a' as int + 26
    } else if '0' <= c && c <= '9' {
        c as int - '0' as int + 52
    } else if c == '-' {
        62
    } else {
        63
    }
}

/// Alphabet character whose index is `v` (for `0 <= v < 64`).
pub open spec fn alphabet_char(v: int) -> char {
    if v < 26 {
        (v + 'A' as int) as char
    } else if v < 52 {
        (v - 26 + 'a' as int) as char
    } else if v < 62 {
        (v - 52 + '0' as int) as char
    } else if v == 62 {
        '-'
    } else {
        '_'
    }
}

pub open spec fn all_alphabet(code: Seq<char>) -> bool {
    forall|i: int| 0 <= i < code.len() ==> is_alphabet_char(#[trigger] code[i])
}

/// Index of the first character of `code` outside the alphabet, if any.
pub open spec fn first_invalid(code: Seq<char>, i: int) -> bool {
    0 <= i < code.len() && !is_alphabet_char(code[i]) && all_alphabet(code.take(i))
}

/// Sum of `char_value(code[i]) * (length - i)` over the characters of `code`.
pub open spec fn weighted_sum(code: Seq<char>, length: int) -> int
    decreases code.len(),
{
    if code.len() == 0 {
        0
    } else {
        weighted_sum(code.drop_last(), length) + char_value(code.last()) * (length - (code.len()
            - 1))
    }
}

/// Right-to-left position base: the length of the code including its check character.
pub open spec fn position_base(code: Seq<char>, includes_check_digit: bool) -> int {
    if includes_check_digit {
        code.len() as int
    } else {
        code.len() + 1int
    }
}

/// What `calculate_modulus` returns, when every character is in the alphabet.
pub open spec fn modulus_of(code: Seq<char>, includes_check_digit: bool) -> Option<int> {
    let s = weighted_sum(code, position_base(code, includes_check_digit));
    if s == 0 {
        None
    } else {
        Some(s % 64)
    }
}

/// The check character of a non-empty all-alphabet code with a non-zero weighted sum.
pub open spec fn check_char_of(code: Seq<char>) -> Option<char> {
    if code.len() == 0 || !all_alphabet(code) {
        None
    } else {
        match modulus_of(code, false) {
            Some(m) => Some(alphabet_char((64 - m) % 64)),
            None => None,
        }
    }
}

/// A code that ends with its correct check character.
pub open spec fn is_valid_code(code: Seq<char>) -> bool {
    code.len() > 0 && all_alphabet(code) && modulus_of(code, true) == Some(0int)
}

proof fn lemma_alphabet_char_valid(v: int)
    requires
        0 <= v < 64,
    ensures
        is_alphabet_char(alphabet_char(v)),
        char_value(alphabet_char(v)) == v,
{
}

proof fn lemma_weighted_sum_nonneg(code: Seq<char>, length: int)
    requires
        all_alphabet(code),
        length >= code.len(),
    ensures
        weighted_sum(code, length) >= 0,
        weighted_sum(code, length) == 0 <==> forall|i: int|
            0 <= i < code.len() ==> char_value(#[trigger] code[i]) == 0,
    decreases code.len(),
{
    if code.len() > 0 {
        let p = code.drop_last();
        assert(all_alphabet(p)) by {
            assert forall|i: int| 0 <= i < p.len() implies is_alphabet_char(#[trigger] p[i]) by {
                assert(p[i] == code[i]);
            }
        }
        lemma_weighted_sum_nonneg(p, length);
        let v = char_value(code.last());
        let w = length - (code.len() - 1);
        assert(v >= 0);
        assert(w >= 1);
        assert(v * w >= 0) by (nonlinear_arith)
            requires
                v >= 0,
                w >= 1,
        ;
        assert(v * w == 0 <==> v == 0) by (nonlinear_arith)
            requires
                v >= 0,
                w >= 1,
        ;
        if forall|i: int| 0 <= i < code.len() ==> char_value(#[trigger] code[i]) == 0 {
            assert forall|i: int| 0 <= i < p.len() implies char_value(#[trigger] p[i]) == 0 by {
                assert(p[i] == code[i]);
            }
            assert(char_value(code[code.len() - 1]) == 0);
        }
        if weighted_sum(code, length) == 0 {
            assert forall|i: int| 0 <= i < code.len() implies char_value(#[trigger] code[i])
                == 0 by {
                if i < code.len() - 1 {
                    assert(code[i] == p[i]);
                }
            }
        }
    }
}

/// Appending its check character to a code gives a valid code.
pub proof fn lemma_check_char_makes_valid(code: Seq<char>)
    requires
        check_char_of(code) is Some,
    ensures
        is_valid_code(code.push(check_char_of(code)->0)),
{
    let k = check_char_of(code)->0;
    let c2 = code.push(k);
    let l = code.len() + 1int;
    let s = weighted_sum(code, l);
    let m = s % 64;
    lemma_weighted_sum_nonneg(code, l);
    lemma_alphabet_char_valid((64 - m) % 64);
    assert(c2.drop_last() == code);
    assert(c2.last() == k);
    assert(all_alphabet(c2)) by {
        assert forall|i: int| 0 <= i < c2.len() implies is_alphabet_char(#[trigger] c2[i]) by {
            if i < code.len() {
                assert(c2[i] == code[i]);
            }
        }
    }
    assert(position_base(c2, true) == l);
    assert(weighted_sum(c2, l) == s + char_value(k));
    assert((s + (64 - m) % 64) % 64 == 0);
}

/// Checks whether a code that ends with its check character is valid.
///
/// Never fails: an empty code, a character outside the alphabet or a code whose
/// weighted sum is zero all give `Ok(false)`.
pub fn is_valid(code: &str) -> (r: Result<bool, CheckDigitError>)
    ensures
        r == Ok::<bool, CheckDigitError>(is_valid_code(code@)),
{
    if code.is_empty() {
        proof {
            assert(code@.len() == 0);
        }
        return Ok(false);
    }
    match calculate_modulus(code, true) {
        Ok(m) => Ok(m == 0),
        Err(_) => Ok(false),
    }
}

/// `e` is an error that `calculate_check_digit` may report for `code`: the
/// empty code, its first character outside the alphabet, or a code whose
/// weighted sum is zero.
pub open spec fn check_digit_error_of(code: Seq<char>, e: CheckDigitError) -> bool {
    match e {
        CheckDigitError::EmptyCode => code.len() == 0,
        CheckDigitError::InvalidCharacter(c) => code.len() > 0 && exists|i: int|
            first_invalid(code, i) && code[i] == c,
        CheckDigitError::InvalidCode(s) => code.len() > 0 && all_alphabet(code) && modulus_of(
            code,
            false,
        ) is None && s@ == code,
        CheckDigitError::InvalidCharacterValue(_) => false,
    }
}

/// Calculates the check character for a code.
pub fn calculate_check_digit(code: &str) -> (r: Result<char, CheckDigitError>)
    ensures
        code@.len() == 0 ==> r == Err::<char, CheckDigitError>(CheckDigitError::EmptyCode),
        code@.len() > 0 ==> match r {
            Ok(c) => check_char_of(code@) == Some(c),
            Err(CheckDigitError::InvalidCharacter(c)) => exists|i: int|
                first_invalid(code@, i) && code@[i] == c,
            Err(CheckDigitError::InvalidCode(s)) => all_alphabet(code@) && modulus_of(
                code@,
                false,
            ) is None && s@ == code@,
            Err(_) => false,
        },
        r is Ok <==> check_char_of(code@) is Some,
        r matches Err(e) ==> check_digit_error_of(code@, e),
{
    if code.is_empty() {
        return Err(CheckDigitError::EmptyCode);
    }
    let m = calculate_modulus(code, false)?;
    let char_value = (BASE64URL_ALPHABET_LENGTH - m) % BASE64URL_ALPHABET_LENGTH;
    let r = to_check_digit(char_value as i32);
    match r {
        Ok(c) => Ok(c),
        Err(e) => Err(e),
    }
}

/// Calculates the weighted sum of a code modulo 64.
///
/// Positions count from 1 at the rightmost character; without the check
/// character, positions are counted as if it were already appended.
pub fn calculate_modulus(code: &str, includes_check_digit: bool) -> (r: Result<
    usize,
    CheckDigitError,
>)
    ensures
        match r {
            Ok(m) => all_alphabet(code@) && modulus_of(code@, includes_check_digit) == Some(
                m as int,
            ),
            Err(CheckDigitError::InvalidCharacter(c)) => exists|i: int|
                first_invalid(code@, i) && code@[i] == c,
            Err(CheckDigitError::InvalidCode(s)) => all_alphabet(code@) && modulus_of(
                code@,
                includes_check_digit,
            ) is None && s@ == code@,
            Err(_) => false,
        },
        all_alphabet(code@) ==> (r is Ok <==> modulus_of(code@, includes_check_digit) is Some),
{
    let chars = chars_of(code);
    let n = chars.len();
    let ghost length = position_base(code@, includes_check_digit);
    let mut total: usize = 0;
    let mut all_zero = true;
    let mut i: usize = 0;
    while i < n
        invariant
            n == chars@.len(),
            chars@ == code@,
            length == position_base(code@, includes_check_digit),
            i <= n,
            all_alphabet(code@.take(i as int)),
            total < 64,
            total as int == weighted_sum(code@.take(i as int), length) % 64,
            all_zero <==> forall|k: int| 0 <= k < i ==> char_value(#[trigger] code@[k]) == 0,
        decreases n - i,
    {
        let ch = chars[i];
        let v = match to_int(ch) {
            Ok(v) => v,
            Err(e) => {
                proof {
                    assert(first_invalid(code@, i as int));
                }
                return Err(e);
            },
        };
        let pos_mod: usize = if includes_check_digit {
            (n - i) % 64
        } else {
            ((n - i) % 64 + 1) % 64
        };
        proof {
            assert(v < 64);
            assert(v * pos_mod < 64 * 64) by (nonlinear_arith)
                requires
                    v < 64,
                    pos_mod < 64,
            ;
        }
        let step = (v * pos_mod) % 64;
        proof {
            let t = code@.take(i as int + 1);
            assert(t.drop_last() == code@.take(i as int));
            assert(t.last() == ch);
            assert(all_alphabet(t)) by {
                assert forall|k: int| 0 <= k < t.len() implies is_alphabet_char(#[trigger] t[k]) by {
                    if k < i {
                        assert(t[k] == code@.take(i as int)[k]);
                    }
                }
            }
            let s = weighted_sum(code@.take(i as int), length);
            let pos = length - i;
            assert(pos_mod as int == pos % 64) by {
                if !includes_check_digit {
                    lemma_add_mod_noop((n - i) as int, 1, 64);
                }
            }
            assert(weighted_sum(t, length) == s + (v as int) * pos);
            lemma_mul_mod_noop_right(v as int, pos, 64);
            lemma_add_mod_noop(s, (v as int) * pos, 64);
            assert(((total as int) + (step as int)) % 64 == (s + (v as int) * pos) % 64)
                by {
                assert((total as int) % 64 == total as int);
                assert((step as int) % 64 == step as int);
            }
        }
        total = (total + step) % 64;
        all_zero = all_zero && v == 0;
        i += 1;
    }
    proof {
        assert(code@.take(n as int) == code@);
        lemma_weighted_sum_nonneg(code@, length);
    }
    if all_zero {
        return Err(CheckDigitError::InvalidCode(crate::text::string_of(code)));
    }
    Ok(total)
}

/// Weighted value of a character value at a right-to-left position.
pub fn weighted_value(char_value: usize, right_pos: usize) -> (r: usize)
    requires
        char_value * right_pos <= usize::MAX,
    ensures
        r == char_value * right_pos,
{
    char_value * right_pos
}

/// Value of a base64url character: its index in `A-Z a-z 0-9 - _`.
pub fn to_int(ch: char) -> (r: Result<usize, CheckDigitError>)
    ensures
        is_alphabet_char(ch) ==> r == Ok::<usize, CheckDigitError>(char_value(ch) as usize),
        !is_alphabet_char(ch) ==> r == Err::<usize, CheckDigitError>(
            CheckDigitError::InvalidCharacter(ch),
        ),
        r is Ok ==> char_value(ch) < 64,
{
    if 'A' <= ch && ch <= 'Z' {
        Ok((ch as u32 - 'A' as u32) as usize)
    } else if 'a' <= ch && ch <= 'z' {
        Ok((ch as u32 - 'a' as u32 + 26) as usize)
    } else if '0' <= ch && ch <= '9' {
        Ok((ch as u32 - '0' as u32 + 52) as usize)
    } else if ch == '-' {
        Ok(62)
    } else if ch == '_' {
        Ok(63)
    } else {
        Err(CheckDigitError::InvalidCharacter(ch))
    }
}

/// Base64url character for a value in `0..64`.
pub fn to_check_digit(char_value: i32) -> (r: Result<char, CheckDigitError>)
    ensures
        0 <= char_value < 64 ==> r == Ok::<char, CheckDigitError>(
            alphabet_char(char_value as int),
        ),
        !(0 <= char_value < 64) ==> r == Err::<char, CheckDigitError>(
            CheckDigitError::InvalidCharacterValue(char_value),
        ),
{
    if char_value < 0 || char_value >= BASE64URL_ALPHABET_LENGTH as i32 {
        return Err(CheckDigitError::InvalidCharacterValue(char_value));
    }
    let v = char_value as u8;
    if v < 26 {
        Ok((65u8 + v) as char)
    } else if v < 52 {
        Ok((97u8 + v - 26) as char)
    } else if v < 62 {
        Ok((48u8 + v - 52) as char)
    } else if v == 62 {
        Ok('-')
    } else {
        Ok('_')
    }
}

} // verus!
