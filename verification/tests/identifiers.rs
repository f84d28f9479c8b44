use rgf_runtime::identifier::{derive_identifier, IdentifierError};

#[test]
fn plain_name_is_its_own_identifier() {
    assert_eq!(derive_identifier("generic_flow"), Ok("generic_flow".to_string()));
    assert_eq!(derive_identifier("friend-of_42"), Ok("friend-of_42".to_string()));
}

#[test]
fn empty_name_is_an_identifier() {
    assert_eq!(derive_identifier(""), Ok(String::new()));
}

#[test]
fn letters_beyond_ascii_are_accepted() {
    assert_eq!(derive_identifier("größe"), Ok("größe".to_string()));
}

#[test]
fn name_with_other_characters_is_refused() {
    assert_eq!(derive_identifier("$"), Err(IdentifierError::InvalidCharacter));
    assert_eq!(derive_identifier("two words"), Err(IdentifierError::InvalidCharacter));
    assert_eq!(derive_identifier("a.b"), Err(IdentifierError::InvalidCharacter));
}

#[test]
fn name_of_255_bytes_is_the_longest() {
    let longest = "X".repeat(255);
    assert_eq!(derive_identifier(&longest), Ok(longest.clone()));
    let too_long = "X".repeat(256);
    assert_eq!(derive_identifier(&too_long), Err(IdentifierError::TooLong));
}

#[test]
fn length_is_counted_in_bytes() {
    // 128 letters of two bytes each take 256 bytes.
    let too_long = "é".repeat(128);
    assert_eq!(derive_identifier(&too_long), Err(IdentifierError::TooLong));
    let fits = "é".repeat(127);
    assert_eq!(derive_identifier(&fits), Ok(fits.clone()));
}

#[test]
fn length_is_judged_before_characters() {
    let long_and_invalid = "$".repeat(300);
    assert_eq!(derive_identifier(&long_and_invalid), Err(IdentifierError::TooLong));
}
