//! Check character and segment escaping operations gathered on objects, for
//! hosts that pass them around.
use vstd::prelude::*;

use crate::check_digit::{
    alphabet_char, all_alphabet, calculate_check_digit, calculate_modulus, char_value,
    check_char_of, is_alphabet_char, is_valid, is_valid_code, modulus_of, to_check_digit, to_int,
    weighted_value,
};
use crate::errors::{CheckDigitError, UuidProcessingError};
use crate::text::{chars_of, replace_char, string_from, string_of};
use crate::uuid_processing::{add_check_digit_and_escape, escaped, unescape_and_validate_uuid};

verus! {

/// Check character operations.
pub struct CheckDigitValidator;

impl CheckDigitValidator {
    pub fn new() -> (r: Self)
        ensures
            r == CheckDigitValidator,
    {
        CheckDigitValidator
    }

    /// Whether a code ends with its correct check character; never fails.
    pub fn is_valid(&self, code: &str) -> (r: Result<bool, CheckDigitError>)
        ensures
            r == Ok::<bool, CheckDigitError>(is_valid_code(code@)),
    {
        is_valid(code)
    }

    /// The check character of a code.
    pub fn calculate_check_digit(&self, code: &str) -> (r: Result<char, CheckDigitError>)
        ensures
            code@.len() == 0 ==> r == Err::<char, CheckDigitError>(CheckDigitError::EmptyCode),
            r is Ok <==> check_char_of(code@) is Some,
            r matches Ok(c) ==> check_char_of(code@) == Some(c),
    {
        calculate_check_digit(code)
    }

    /// The weighted sum of a code modulo 64.
    pub fn calculate_modulus(&self, code: &str, includes_check_digit: bool) -> (r: Result<
        usize,
        CheckDigitError,
    >)
        ensures
            r matches Ok(m) ==> all_alphabet(code@) && modulus_of(code@, includes_check_digit)
                == Some(m as int),
            all_alphabet(code@) ==> (r is Ok <==> modulus_of(code@, includes_check_digit) is Some),
            !all_alphabet(code@) ==> r matches Err(CheckDigitError::InvalidCharacter(_)),
    {
        let r = calculate_modulus(code, includes_check_digit);
        proof {
            if !all_alphabet(code@) {
                assert(!(r is Ok));
            }
        }
        r
    }

    pub fn weighted_value(&self, char_value: usize, right_pos: usize) -> (r: usize)
        requires
            char_value * right_pos <= usize::MAX,
        ensures
            r == char_value * right_pos,
    {
        weighted_value(char_value, right_pos)
    }

    pub fn to_int(&self, ch: char) -> (r: Result<usize, CheckDigitError>)
        ensures
            is_alphabet_char(ch) ==> r == Ok::<usize, CheckDigitError>(char_value(ch) as usize),
            !is_alphabet_char(ch) ==> r == Err::<usize, CheckDigitError>(
                CheckDigitError::InvalidCharacter(ch),
            ),
    {
        to_int(ch)
    }

    pub fn to_check_digit(&self, char_value: i32) -> (r: Result<char, CheckDigitError>)
        ensures
            0 <= char_value < 64 ==> r == Ok::<char, CheckDigitError>(
                alphabet_char(char_value as int),
            ),
            !(0 <= char_value < 64) ==> r == Err::<char, CheckDigitError>(
                CheckDigitError::InvalidCharacterValue(char_value),
            ),
    {
        to_check_digit(char_value)
    }

    /// The code followed by its check character.
    pub fn add_check_digit(&self, code: &str) -> (r: Result<String, CheckDigitError>)
        ensures
            r is Ok <==> check_char_of(code@) is Some,
            r matches Ok(s) ==> s@ == code@.push(check_char_of(code@)->0),
            code@.len() == 0 ==> r == Err::<String, CheckDigitError>(CheckDigitError::EmptyCode),
    {
        let c = self.calculate_check_digit(code)?;
        let mut v = chars_of(code);
        v.push(c);
        Ok(string_from(v))
    }

    /// The code without its check character, when the check character is correct.
    pub fn validate_and_strip_check_digit(&self, code_with_check_digit: &str) -> (r: Result<
        String,
        CheckDigitError,
    >)
        ensures
            is_valid_code(code_with_check_digit@) ==> (r matches Ok(s) && s@
                == code_with_check_digit@.drop_last()),
            !is_valid_code(code_with_check_digit@) ==> (r matches Err(
                CheckDigitError::InvalidCode(s),
            ) && s@ == code_with_check_digit@),
    {
        if !self.is_valid(code_with_check_digit)? {
            return Err(CheckDigitError::InvalidCode(string_of(code_with_check_digit)));
        }
        let mut v = chars_of(code_with_check_digit);
        if v.len() == 0 {
            return Err(CheckDigitError::EmptyCode);
        }
        v.pop();
        Ok(string_from(v))
    }
}

impl Default for CheckDigitValidator {
    fn default() -> (r: Self)
        ensures
            r == CheckDigitValidator,
    {
        Self::new()
    }
}

/// Segment escaping operations.
pub struct ArkUuidProcessor;

impl ArkUuidProcessor {
    pub fn new() -> (r: Self)
        ensures
            r == ArkUuidProcessor,
    {
        ArkUuidProcessor
    }

    /// Adds a check character to a segment and escapes its hyphens as `=`.
    pub fn add_check_digit_and_escape(&self, uuid: &str) -> (r: Result<String, UuidProcessingError>)
        ensures
            r is Ok <==> check_char_of(uuid@) is Some,
            r matches Ok(s) ==> s@ == escaped(uuid@),
    {
        add_check_digit_and_escape(uuid)
    }

    /// Unescapes a segment, checks its check character and removes it.
    pub fn unescape_and_validate_uuid(&self, ark_url: &str, escaped_uuid: &str) -> (r: Result<
        String,
        UuidProcessingError,
    >)
        ensures
            escaped_uuid@.len() == 0 ==> (r matches Err(UuidProcessingError::EmptyUuid(u)) && u@
                == ark_url@),
            escaped_uuid@.len() > 0 && !is_valid_code(replace_char(escaped_uuid@, '=', '-'))
                ==> (r matches Err(UuidProcessingError::InvalidArkId(u)) && u@ == ark_url@),
            escaped_uuid@.len() > 0 && is_valid_code(replace_char(escaped_uuid@, '=', '-')) ==> (
            r matches Ok(s) && s@ == replace_char(escaped_uuid@, '=', '-').drop_last()),
    {
        unescape_and_validate_uuid(ark_url, escaped_uuid)
    }

    /// Prepares a segment for an ARK: same as `add_check_digit_and_escape`.
    pub fn process_uuid_for_ark(&self, uuid: &str) -> (r: Result<String, UuidProcessingError>)
        ensures
            r is Ok <==> check_char_of(uuid@) is Some,
            r matches Ok(s) ==> s@ == escaped(uuid@),
    {
        self.add_check_digit_and_escape(uuid)
    }

    /// Extracts a segment from an ARK: same as `unescape_and_validate_uuid`.
    pub fn extract_uuid_from_ark(&self, ark_url: &str, escaped_uuid: &str) -> (r: Result<
        String,
        UuidProcessingError,
    >)
        ensures
            escaped_uuid@.len() == 0 ==> (r matches Err(UuidProcessingError::EmptyUuid(u)) && u@
                == ark_url@),
            escaped_uuid@.len() > 0 && !is_valid_code(replace_char(escaped_uuid@, '=', '-'))
                ==> (r matches Err(UuidProcessingError::InvalidArkId(u)) && u@ == ark_url@),
            escaped_uuid@.len() > 0 && is_valid_code(replace_char(escaped_uuid@, '=', '-')) ==> (
            r matches Ok(s) && s@ == replace_char(escaped_uuid@, '=', '-').drop_last()),
    {
        self.unescape_and_validate_uuid(ark_url, escaped_uuid)
    }
}

impl Default for ArkUuidProcessor {
    fn default() -> (r: Self)
        ensures
            r == ArkUuidProcessor,
    {
        Self::new()
    }
}

} // verus!
