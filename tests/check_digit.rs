use ark_resolver::check_digit::{
    calculate_check_digit, calculate_modulus, is_valid, to_check_digit, to_int, weighted_value,
};
use ark_resolver::errors::CheckDigitError;
use ark_resolver::use_cases::CheckDigitValidator;

#[test]
fn base64url_ckeck_digit_test_is_valid() {
    assert!(is_valid("cmfk1DMHRBiR4-_6HXpEFAn").unwrap());
    assert!(!is_valid("cmfk1DMHRBiR4-_6HXpEFA").unwrap());
    assert!(!is_valid("").unwrap());
    assert!(!is_valid("cmfk1DMHRBiR4-_6HXpEFA@").unwrap());
}

#[test]
fn base64url_ckeck_digit_test_calculate_check_digit() {
    let code = "cmfk1DMHRBiR4-_6HXpEFA";
    let result = calculate_check_digit(code).unwrap();
    assert_eq!(result.to_string(), "n");
    let code_with_check_digit = format!("{}{}", code, result);
    assert!(is_valid(&code_with_check_digit).unwrap());
}

#[test]
fn base64url_ckeck_digit_test_calculate_check_digit_empty() {
    assert!(calculate_check_digit("").is_err());
}

#[test]
fn base64url_ckeck_digit_test_calculate_modulus() {
    let code = "cmfk1DMHRBiR4-_6HXpEFAn";
    let result = calculate_modulus(code, true).unwrap();
    assert_eq!(result, 0);
}

#[test]
fn base64url_ckeck_digit_test_to_int() {
    assert_eq!(to_int('A').unwrap(), 0);
    assert_eq!(to_int('Z').unwrap(), 25);
    assert_eq!(to_int('a').unwrap(), 26);
    assert_eq!(to_int('z').unwrap(), 51);
    assert_eq!(to_int('0').unwrap(), 52);
    assert_eq!(to_int('9').unwrap(), 61);
    assert_eq!(to_int('-').unwrap(), 62);
    assert_eq!(to_int('_').unwrap(), 63);
    assert!(to_int('@').is_err());
}

#[test]
fn base64url_ckeck_digit_test_to_check_digit() {
    assert_eq!(to_check_digit(0).unwrap().to_string(), "A");
    assert_eq!(to_check_digit(25).unwrap().to_string(), "Z");
    assert_eq!(to_check_digit(26).unwrap().to_string(), "a");
    assert_eq!(to_check_digit(51).unwrap().to_string(), "z");
    assert_eq!(to_check_digit(52).unwrap().to_string(), "0");
    assert_eq!(to_check_digit(61).unwrap().to_string(), "9");
    assert_eq!(to_check_digit(62).unwrap().to_string(), "-");
    assert_eq!(to_check_digit(63).unwrap().to_string(), "_");
    assert!(to_check_digit(-1).is_err());
    assert!(to_check_digit(64).is_err());
}

#[test]
fn base64url_ckeck_digit_test_weighted_value() {
    assert_eq!(weighted_value(5, 3), 15);
    assert_eq!(weighted_value(0, 10), 0);
}

#[test]
fn check_digit_test_is_valid() {
    assert!(is_valid("cmfk1DMHRBiR4-_6HXpEFAn").unwrap());
    assert!(!is_valid("cmfk1DMHRBiR4-_6HXpEFA").unwrap());
    assert!(!is_valid("").unwrap());
    assert!(!is_valid("cmfk1DMHRBiR4-_6HXpEFA@").unwrap());
}

#[test]
fn check_digit_test_calculate_check_digit() {
    let code = "cmfk1DMHRBiR4-_6HXpEFA";
    let result = calculate_check_digit(code).unwrap();
    assert_eq!(result, 'n');
    let code_with_check_digit = format!("{code}{result}");
    assert!(is_valid(&code_with_check_digit).unwrap());
}

#[test]
fn check_digit_test_calculate_check_digit_empty() {
    assert!(matches!(
        calculate_check_digit(""),
        Err(CheckDigitError::EmptyCode)
    ));
}

#[test]
fn check_digit_test_calculate_modulus() {
    let code = "cmfk1DMHRBiR4-_6HXpEFAn";
    let result = calculate_modulus(code, true).unwrap();
    assert_eq!(result, 0);
}

#[test]
fn check_digit_test_to_int() {
    assert_eq!(to_int('A').unwrap(), 0);
    assert_eq!(to_int('Z').unwrap(), 25);
    assert_eq!(to_int('a').unwrap(), 26);
    assert_eq!(to_int('z').unwrap(), 51);
    assert_eq!(to_int('0').unwrap(), 52);
    assert_eq!(to_int('9').unwrap(), 61);
    assert_eq!(to_int('-').unwrap(), 62);
    assert_eq!(to_int('_').unwrap(), 63);
    assert!(matches!(
        to_int('@'),
        Err(CheckDigitError::InvalidCharacter('@'))
    ));
}

#[test]
fn check_digit_test_to_check_digit() {
    assert_eq!(to_check_digit(0).unwrap(), 'A');
    assert_eq!(to_check_digit(25).unwrap(), 'Z');
    assert_eq!(to_check_digit(26).unwrap(), 'a');
    assert_eq!(to_check_digit(51).unwrap(), 'z');
    assert_eq!(to_check_digit(52).unwrap(), '0');
    assert_eq!(to_check_digit(61).unwrap(), '9');
    assert_eq!(to_check_digit(62).unwrap(), '-');
    assert_eq!(to_check_digit(63).unwrap(), '_');
    assert!(matches!(
        to_check_digit(-1),
        Err(CheckDigitError::InvalidCharacterValue(-1))
    ));
    assert!(matches!(
        to_check_digit(64),
        Err(CheckDigitError::InvalidCharacterValue(64))
    ));
}

#[test]
fn check_digit_test_weighted_value() {
    assert_eq!(weighted_value(5, 3), 15);
    assert_eq!(weighted_value(0, 10), 0);
}

#[test]
fn test_validator_is_valid() {
    let validator = CheckDigitValidator::new();
    assert!(validator.is_valid("cmfk1DMHRBiR4-_6HXpEFAn").unwrap());
    assert!(!validator.is_valid("cmfk1DMHRBiR4-_6HXpEFA").unwrap());
    assert!(!validator.is_valid("").unwrap());
    assert!(!validator.is_valid("cmfk1DMHRBiR4-_6HXpEFA@").unwrap());
}

#[test]
fn test_validator_calculate_check_digit() {
    let validator = CheckDigitValidator::new();
    let result = validator.calculate_check_digit("cmfk1DMHRBiR4-_6HXpEFA").unwrap();
    assert_eq!(result, 'n');
    assert!(matches!(
        validator.calculate_check_digit(""),
        Err(CheckDigitError::EmptyCode)
    ));
}

#[test]
fn test_validator_add_check_digit() {
    let validator = CheckDigitValidator::new();
    let result = validator.add_check_digit("cmfk1DMHRBiR4-_6HXpEFA").unwrap();
    assert_eq!(result, "cmfk1DMHRBiR4-_6HXpEFAn");
    assert!(validator.is_valid(&result).unwrap());
}

#[test]
fn test_validator_validate_and_strip_check_digit() {
    let validator = CheckDigitValidator::new();
    let result = validator
        .validate_and_strip_check_digit("cmfk1DMHRBiR4-_6HXpEFAn")
        .unwrap();
    assert_eq!(result, "cmfk1DMHRBiR4-_6HXpEFA");
}

#[test]
fn test_validator_validate_and_strip_check_digit_invalid() {
    let validator = CheckDigitValidator::new();
    let result = validator.validate_and_strip_check_digit("cmfk1DMHRBiR4-_6HXpEFAx");
    assert!(result.is_err());
    assert!(matches!(result.unwrap_err(), CheckDigitError::InvalidCode(_)));
}

#[test]
fn test_validator_calculate_modulus() {
    let validator = CheckDigitValidator::new();
    let result = validator
        .calculate_modulus("cmfk1DMHRBiR4-_6HXpEFAn", true)
        .unwrap();
    assert_eq!(result, 0);
}

#[test]
fn test_validator_to_int() {
    let validator = CheckDigitValidator::new();
    assert_eq!(validator.to_int('A').unwrap(), 0);
    assert_eq!(validator.to_int('Z').unwrap(), 25);
    assert_eq!(validator.to_int('a').unwrap(), 26);
    assert_eq!(validator.to_int('z').unwrap(), 51);
    assert_eq!(validator.to_int('0').unwrap(), 52);
    assert_eq!(validator.to_int('9').unwrap(), 61);
    assert_eq!(validator.to_int('-').unwrap(), 62);
    assert_eq!(validator.to_int('_').unwrap(), 63);
    assert!(validator.to_int('@').is_err());
}

#[test]
fn test_validator_to_check_digit() {
    let validator = CheckDigitValidator::new();
    assert_eq!(validator.to_check_digit(0).unwrap(), 'A');
    assert_eq!(validator.to_check_digit(25).unwrap(), 'Z');
    assert_eq!(validator.to_check_digit(26).unwrap(), 'a');
    assert_eq!(validator.to_check_digit(51).unwrap(), 'z');
    assert_eq!(validator.to_check_digit(52).unwrap(), '0');
    assert_eq!(validator.to_check_digit(61).unwrap(), '9');
    assert_eq!(validator.to_check_digit(62).unwrap(), '-');
    assert_eq!(validator.to_check_digit(63).unwrap(), '_');
    assert!(validator.to_check_digit(-1).is_err());
    assert!(validator.to_check_digit(64).is_err());
}

#[test]
fn test_validator_weighted_value() {
    let validator = CheckDigitValidator::new();
    assert_eq!(validator.weighted_value(5, 3), 15);
    assert_eq!(validator.weighted_value(0, 10), 0);
}

#[test]
fn test_validator_default() {
    let validator = CheckDigitValidator::default();
    assert!(validator.is_valid("cmfk1DMHRBiR4-_6HXpEFAn").unwrap());
}

#[test]
fn test_domain_layer_functionality() {
    assert!(is_valid("cmfk1DMHRBiR4-_6HXpEFAn").unwrap());
    assert!(!is_valid("cmfk1DMHRBiR4-_6HXpEFA").unwrap());
    assert!(!is_valid("").unwrap());

    let check_digit_char = calculate_check_digit("cmfk1DMHRBiR4-_6HXpEFA").unwrap();
    assert_eq!(check_digit_char, 'n');

    assert_eq!(calculate_modulus("cmfk1DMHRBiR4-_6HXpEFAn", true).unwrap(), 0);

    assert_eq!(to_int('A').unwrap(), 0);
    assert_eq!(to_int('Z').unwrap(), 25);
    assert_eq!(to_int('a').unwrap(), 26);
    assert_eq!(to_int('z').unwrap(), 51);
    assert_eq!(to_int('0').unwrap(), 52);
    assert_eq!(to_int('9').unwrap(), 61);
    assert_eq!(to_int('-').unwrap(), 62);
    assert_eq!(to_int('_').unwrap(), 63);

    assert_eq!(to_check_digit(0).unwrap(), 'A');
    assert_eq!(to_check_digit(25).unwrap(), 'Z');
    assert_eq!(to_check_digit(26).unwrap(), 'a');
    assert_eq!(to_check_digit(51).unwrap(), 'z');
    assert_eq!(to_check_digit(52).unwrap(), '0');
    assert_eq!(to_check_digit(61).unwrap(), '9');
    assert_eq!(to_check_digit(62).unwrap(), '-');
    assert_eq!(to_check_digit(63).unwrap(), '_');

    assert_eq!(weighted_value(5, 3), 15);
    assert_eq!(weighted_value(0, 10), 0);
}

#[test]
fn test_use_case_layer_functionality() {
    let validator = CheckDigitValidator::new();

    assert!(validator.is_valid("cmfk1DMHRBiR4-_6HXpEFAn").unwrap());
    assert!(!validator.is_valid("cmfk1DMHRBiR4-_6HXpEFA").unwrap());
    assert!(!validator.is_valid("").unwrap());

    let check_digit_char = validator
        .calculate_check_digit("cmfk1DMHRBiR4-_6HXpEFA")
        .unwrap();
    assert_eq!(check_digit_char, 'n');

    assert_eq!(
        validator
            .calculate_modulus("cmfk1DMHRBiR4-_6HXpEFAn", true)
            .unwrap(),
        0
    );

    assert_eq!(validator.to_int('A').unwrap(), 0);
    assert_eq!(validator.to_check_digit(0).unwrap(), 'A');
    assert_eq!(validator.weighted_value(5, 3), 15);

    let code_with_check_digit = validator.add_check_digit("cmfk1DMHRBiR4-_6HXpEFA").unwrap();
    assert_eq!(code_with_check_digit, "cmfk1DMHRBiR4-_6HXpEFAn");

    let code_without_check_digit = validator
        .validate_and_strip_check_digit("cmfk1DMHRBiR4-_6HXpEFAn")
        .unwrap();
    assert_eq!(code_without_check_digit, "cmfk1DMHRBiR4-_6HXpEFA");
}

#[test]
fn test_error_handling() {
    let validator = CheckDigitValidator::new();
    assert!(validator.calculate_check_digit("").is_err());
    assert!(validator.validate_and_strip_check_digit("").is_err());
    assert!(validator.to_int('@').is_err());
    assert!(validator.to_check_digit(-1).is_err());
    assert!(validator.to_check_digit(64).is_err());
    assert!(validator
        .validate_and_strip_check_digit("cmfk1DMHRBiR4-_6HXpEFAx")
        .is_err());
}

#[test]
fn test_round_trip_consistency() {
    let validator = CheckDigitValidator::new();
    let test_codes = vec!["cmfk1DMHRBiR4-_6HXpEFA", "ABC123", "test-code_42", "Z9-_a"];
    for code in test_codes {
        let code_with_check_digit = validator.add_check_digit(code).unwrap();
        assert!(validator.is_valid(&code_with_check_digit).unwrap());
        let stripped_code = validator
            .validate_and_strip_check_digit(&code_with_check_digit)
            .unwrap();
        assert_eq!(stripped_code, code);
    }
}

#[test]
fn check_character_makes_codes_valid() {
    for code in ["B", "ABC123", "x", "0001-12345678", "___", "a-b"] {
        let c = calculate_check_digit(code).unwrap();
        assert!(is_valid(&format!("{code}{c}")).unwrap());
    }
}

#[test]
fn is_valid_never_fails() {
    for code in ["", "A", "AAAA", "@@", "é", "cmfk1DMHRBiR4-_6HXpEFAn", "==="] {
        assert!(is_valid(code).is_ok());
    }
    assert!(!is_valid("").unwrap());
    assert!(!is_valid("A").unwrap());
}

#[test]
fn zero_weighted_sum_is_invalid_code() {
    assert!(matches!(
        calculate_check_digit("A"),
        Err(CheckDigitError::InvalidCode(ref s)) if s == "A"
    ));
    assert!(matches!(
        calculate_modulus("AAA", true),
        Err(CheckDigitError::InvalidCode(ref s)) if s == "AAA"
    ));
}

#[test]
fn first_invalid_character_is_reported() {
    assert!(matches!(
        calculate_modulus("ab@c#", false),
        Err(CheckDigitError::InvalidCharacter('@'))
    ));
}

#[test]
fn modulus_exact_values() {
    // B at position 2 (without check character): 1 * 2.
    assert_eq!(calculate_modulus("B", false).unwrap(), 2);
    // "BC" with check character: 1 * 2 + 2 * 1.
    assert_eq!(calculate_modulus("BC", true).unwrap(), 4);
    // (64 - 2) mod 64 = 62 is '-'.
    assert_eq!(calculate_check_digit("B").unwrap(), '-');
    assert_eq!(calculate_check_digit("cmfk1DMHRBiR4-_6HXpEFA").unwrap(), 'n');
}
