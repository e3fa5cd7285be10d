use std::collections::HashSet;
use valqeron::identifiers::cfi::{normalize, validate};
use valqeron::identifiers::{Cfi, CfiError};

#[test]
fn cfi_rejects_empty() {
    assert_eq!(normalize(""), Err(CfiError::Empty));
}

#[test]
fn cfi_trims_surrounding_whitespace() {
    assert_eq!(
        normalize("  ESVUFR \t\n").unwrap(),
        normalize("ESVUFR").unwrap()
    );
}

#[test]
fn cfi_uppercases_letters() {
    assert_eq!(normalize("esvufr").unwrap(), *b"ESVUFR");
}

#[test]
fn cfi_rejects_wrong_length() {
    assert_eq!(normalize("ESVU"), Err(CfiError::InvalidLength { found: 4 }));
}

#[test]
fn cfi_whitespace_only_is_a_length_error() {
    assert_eq!(normalize("   "), Err(CfiError::InvalidLength { found: 0 }));
}

#[test]
fn cfi_keeps_interior_characters_for_validation() {
    assert_eq!(normalize("ES VFR").unwrap(), *b"ES VFR");
}

#[test]
fn cfi_rejects_non_ascii() {
    let err = normalize("ESVUF£");
    assert!(matches!(
        err,
        Err(CfiError::InvalidCharacter {
            character: '£', ..
        })
    ));
}

#[test]
fn trims_non_ascii_whitespace() {
    assert_eq!(
        normalize("\u{00A0}ESVUFR\u{00A0}").unwrap(),
        normalize("ESVUFR").unwrap()
    );
}

#[test]
fn accepts_known_valid_cfis() {
    for s in [
        *b"ESVUFR", // equity / common share, voting, free, fully paid, registered
        *b"ESVTOB", // equity / common share, another valid attribute combination
        *b"DBFTFB", // debt / bond
        *b"MCATXB", // miscellaneous-form / currencies
        *b"OCASNS", // listed option / call
    ] {
        assert!(validate(s).is_ok());
    }
}

#[test]
fn rejects_unknown_category() {
    assert_eq!(
        validate(*b"QSVUFR"),
        Err(CfiError::UnknownCategory { code: 'Q' })
    );
}

#[test]
fn rejects_unknown_group() {
    assert_eq!(
        validate(*b"EZVUFR"),
        Err(CfiError::UnknownGroup {
            category: 'E',
            code: 'Z',
        })
    );
}

#[test]
fn rejects_invalid_attribute() {
    assert_eq!(
        validate(*b"ESXUFR"),
        Err(CfiError::InvalidAttribute {
            category: 'E',
            group: 'S',
            index: 1,
            code: 'X',
        })
    );
}

#[test]
fn cfi_rejects_lowercase_as_character_class() {
    assert_eq!(
        validate(*b"esvufr"),
        Err(CfiError::InvalidCharacter {
            character: 'e',
            position: 1,
        })
    );
}

#[test]
fn rejects_digit_as_character_class() {
    assert_eq!(
        validate(*b"ESVUF1"),
        Err(CfiError::InvalidCharacter {
            character: '1',
            position: 6,
        })
    );
}

#[test]
fn from_bytes_rejects_invalid_attribute_without_normalizing() {
    assert_eq!(
        Cfi::from_bytes(*b"ESZUFR"),
        Err(CfiError::InvalidAttribute {
            category: 'E',
            group: 'S',
            index: 1,
            code: 'Z',
        })
    );
}

#[test]
fn accessors_return_expected_segments() {
    let cfi = Cfi::parse("ESVUFR").unwrap();
    assert_eq!(cfi.category(), 'E');
    assert_eq!(cfi.group(), 'S');
    assert_eq!(cfi.attributes(), ['V', 'U', 'F', 'R']);
    assert_eq!(cfi.as_bytes(), b"ESVUFR");
    assert_eq!(cfi.as_str(), "ESVUFR");
}

#[test]
fn from_str_parses_via_the_parse_method() {
    let cfi: Cfi = "esvufr".parse().unwrap();
    assert_eq!(cfi.as_str(), "ESVUFR");
}

#[test]
fn from_str_propagates_parse_errors() {
    let err = "ESVU".parse::<Cfi>();
    assert_eq!(err, Err(CfiError::InvalidLength { found: 4 }));
}

#[test]
fn cfi_try_from_str_delegates_to_parse() {
    assert_eq!(
        Cfi::try_from("esvufr").unwrap(),
        Cfi::parse("ESVUFR").unwrap()
    );
}

#[test]
fn try_from_array_delegates_to_from_bytes() {
    assert_eq!(
        Cfi::try_from(*b"ESVUFR").unwrap(),
        Cfi::from_bytes(*b"ESVUFR").unwrap()
    );
}

#[test]
fn try_from_slice_accepts_correct_length() {
    let cfi = Cfi::try_from(b"ESVUFR".as_slice()).unwrap();
    assert_eq!(cfi.as_str(), "ESVUFR");
}

#[test]
fn cfi_try_from_slice_rejects_wrong_length() {
    let err = Cfi::try_from(b"ESVU".as_slice());
    assert_eq!(err, Err(CfiError::InvalidLength { found: 4 }));
}

#[test]
fn equality_is_symmetric_with_str_slices() {
    let cfi = Cfi::parse("ESVUFR").unwrap();
    let other = "ESVUFR";
    assert_eq!(cfi, other);
    assert_eq!(other, cfi);
}

#[test]
fn as_ref_impls_match_accessors() {
    let cfi = Cfi::parse("ESVUFR").unwrap();
    let bytes_ref: &[u8] = cfi.as_ref();
    assert_eq!(bytes_ref, cfi.as_bytes());
    let str_ref: &str = cfi.as_ref();
    assert_eq!(str_ref, cfi.as_str());
}

#[test]
fn ordering_follows_byte_order() {
    let d = Cfi::parse("DBFTFB").unwrap();
    let e = Cfi::parse("ESVUFR").unwrap();
    assert!(d < e);
}

#[test]
fn hash_supports_set_membership() {
    let mut set = HashSet::new();
    set.insert(Cfi::parse("ESVUFR").unwrap());
    set.insert(Cfi::parse("DBFTFB").unwrap());
    set.insert(Cfi::parse("ESVUFR").unwrap());
    assert_eq!(set.len(), 2);
}

#[test]
fn cfi_display_is_the_canonical_string() {
    let cfi = Cfi::parse("ESVUFR").unwrap();
    assert_eq!(cfi.to_string(), "ESVUFR");
    assert_eq!(cfi.to_string(), "ESVUFR");
}

#[test]
fn cfi_debug_is_readable() {
    let cfi = Cfi::parse("ESVUFR").unwrap();
    assert_eq!(cfi.debug_string(), "Cfi(\"ESVUFR\")");
}

#[test]
fn cfi_error_messages_are_human_readable() {
    assert_eq!(CfiError::Empty.to_string(), "empty CFI");
    assert_eq!(
        CfiError::InvalidLength { found: 4 }.to_string(),
        "CFI must contain exactly 6 characters, found 4"
    );
    assert_eq!(
        CfiError::InvalidCharacter {
            character: '1',
            position: 6
        }
        .to_string(),
        "invalid character '1' at position 6 of 6: expected an uppercase letter (A-Z) ASCII character"
    );
    assert_eq!(
        CfiError::UnknownCategory { code: 'Q' }.to_string(),
        "unknown CFI category 'Q' at position 1"
    );
    assert_eq!(
        CfiError::UnknownGroup {
            category: 'E',
            code: 'Z'
        }
        .to_string(),
        "unknown CFI group 'Z' at position 2"
    );
    assert_eq!(
        CfiError::InvalidAttribute {
            category: 'E',
            group: 'S',
            index: 1,
            code: 'X'
        }
        .to_string(),
        "invalid attribute 'X' at position 1 of 6"
    );
}

