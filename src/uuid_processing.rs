//! Escaping of identifier segments: a check character is appended and every
//! `-` becomes `=`, since hyphens carry no meaning inside an ARK and may be
//! dropped or inserted by other systems.
use vstd::prelude::*;

use crate::check_digit::{
    all_alphabet, calculate_check_digit, check_digit_error_of, check_char_of, is_valid, is_valid_code,
    lemma_check_char_makes_valid, modulus_of,
};
use crate::errors::{CheckDigitError, UuidProcessingError};
use crate::text::{chars_of, replace_char, replace_chars, string_from, string_of};

verus! {

/// The escaped form of a segment whose check character exists.
pub open spec fn escaped(segment: Seq<char>) -> Seq<char> {
    replace_char(segment.push(check_char_of(segment)->0), '-', '=')
}

/// Add a check character to a segment and escape its hyphens as `=`.
pub fn add_check_digit_and_escape(uuid: &str) -> (r: Result<String, UuidProcessingError>)
    ensures
        r is Ok <==> check_char_of(uuid@) is Some,
        r matches Ok(s) ==> s@ == escaped(uuid@),
        r matches Err(e) ==> (e matches UuidProcessingError::CheckDigitError(c)
            && check_digit_error_of(uuid@, c)),
        uuid@.len() == 0 ==> r == Err::<String, UuidProcessingError>(
            UuidProcessingError::CheckDigitError(CheckDigitError::EmptyCode),
        ),
{
    let check_digit = match calculate_check_digit(uuid) {
        Ok(c) => c,
        Err(e) => return Err(UuidProcessingError::CheckDigitError(e)),
    };
    let mut v = chars_of(uuid);
    v.push(check_digit);
    Ok(string_from(replace_chars(&v, '-', '=')))
}

/// Unescape a segment (`=` back to `-`), validate its check character and
/// return it without that character.
///
/// `ark_url` is only carried into the errors.
pub fn unescape_and_validate_uuid(ark_url: &str, escaped_uuid: &str) -> (r: Result<
    String,
    UuidProcessingError,
>)
    ensures
        escaped_uuid@.len() == 0 ==> (r matches Err(UuidProcessingError::EmptyUuid(u)) && u@
            == ark_url@),
        escaped_uuid@.len() > 0 && !is_valid_code(replace_char(escaped_uuid@, '=', '-')) ==> (r matches Err(
            UuidProcessingError::InvalidArkId(u),
        ) && u@ == ark_url@),
        escaped_uuid@.len() > 0 && is_valid_code(replace_char(escaped_uuid@, '=', '-')) ==> (r matches Ok(
            s,
        ) && s@ == replace_char(escaped_uuid@, '=', '-').drop_last()),
{
    let v = chars_of(escaped_uuid);
    if v.len() == 0 {
        return Err(UuidProcessingError::EmptyUuid(string_of(ark_url)));
    }
    let mut unescaped = replace_chars(&v, '=', '-');
    let candidate = string_from(unescaped.clone());
    let valid = match is_valid(candidate.as_str()) {
        Ok(b) => b,
        Err(e) => return Err(UuidProcessingError::CheckDigitError(e)),
    };
    if !valid {
        return Err(UuidProcessingError::InvalidArkId(string_of(ark_url)));
    }
    unescaped.pop();
    Ok(string_from(unescaped))
}

/// Unescaping and validating an escaped segment gives the segment back, for
/// every non-empty segment over the alphabet whose weighted sum is not zero.
pub proof fn lemma_escape_round_trip(segment: Seq<char>)
    requires
        segment.len() > 0,
        all_alphabet(segment),
        modulus_of(segment, false) is Some,
    ensures
        escaped(segment).len() > 0,
        is_valid_code(replace_char(escaped(segment), '=', '-')),
        replace_char(escaped(segment), '=', '-').drop_last() == segment,
{
    let k = check_char_of(segment)->0;
    let full = segment.push(k);
    lemma_check_char_makes_valid(segment);
    assert(all_alphabet(full));
    let back = replace_char(escaped(segment), '=', '-');
    assert(back =~= full) by {
        assert forall|i: int| 0 <= i < full.len() implies back[i] == full[i] by {
            assert(full[i] != '=') by {
                assert(crate::check_digit::is_alphabet_char(full[i]));
            }
        }
    }
    assert(full.drop_last() =~= segment);
}

} // verus!
