use std::str::FromStr;
use std::collections::HashSet;
use valqeron::identifiers::country_code::{is_assigned, normalize, validate, ASSIGNED_CODES};
use valqeron::identifiers::{CountryCode, CountryCodeError};

#[test]
fn country_code_display_is_the_canonical_string() {
    assert_eq!(
        CountryCode::parse("US").map(|code| code.to_string()),
        Ok("US".to_string())
    );
}

#[test]
fn country_code_debug_is_readable() {
    assert_eq!(
        CountryCode::parse("US").map(|code| code.debug_string()),
        Ok("CountryCode(\"US\")".to_string())
    );
}

#[test]
fn as_str_and_as_bytes_are_canonical() {
    let result = CountryCode::parse("US");

    assert_eq!(result.as_ref().map(CountryCode::as_str), Ok("US"));
    assert_eq!(result.as_ref().map(CountryCode::as_bytes), Ok(b"US"));
}

#[test]
fn as_ref_implementations_match_accessors() {
    let result = CountryCode::parse("US");

    assert_eq!(
        result.as_ref().map(<CountryCode as AsRef<[u8]>>::as_ref),
        Ok(b"US" as &[u8])
    );
    assert_eq!(
        result.as_ref().map(<CountryCode as AsRef<str>>::as_ref),
        Ok("US")
    );
}

#[test]
fn string_equality_is_symmetric() {
    let result = CountryCode::parse("US");

    assert_eq!(result.as_ref().map(|code| code == "US"), Ok(true));
    assert_eq!(result.as_ref().map(|code| "US" == *code), Ok(true));
    assert_eq!(result.as_ref().map(|code| code != "GB"), Ok(true));
    assert_eq!(result.as_ref().map(|code| "GB" != *code), Ok(true));
}

#[test]
fn country_code_error_messages_are_human_readable() {
    assert_eq!(
        CountryCodeError::Empty.to_string(),
        "country code cannot be empty"
    );
    assert_eq!(
        CountryCodeError::Unassigned {
            code: "ZZ".to_string()
        }
        .to_string(),
        "country code 'ZZ' is not assigned by ISO 3166-1"
    );
}

#[test]
fn every_assigned_code_is_accepted_by_the_bitmap() {
    for code in &ASSIGNED_CODES {
        assert!(validate(*code).is_ok(), "{code:?} should be valid");
    }
}

#[test]
fn accepts_representative_assigned_codes() {
    for code in [
        *b"US", *b"BR", *b"GB", *b"DE", *b"SS", *b"CW", *b"AD", *b"ZW",
    ] {
        assert!(validate(code).is_ok(), "{code:?} should be valid");
    }
}

#[test]
fn rejects_unassigned_but_well_formed_codes() {
    for code in [*b"AA", *b"EU", *b"UK", *b"ZZ"] {
        assert!(matches!(
            validate(code),
            Err(CountryCodeError::Unassigned { .. })
        ));
    }
}

#[test]
fn reports_the_first_invalid_character_position() {
    assert_eq!(
        validate(*b"us"),
        Err(CountryCodeError::InvalidCharacter {
            character: 'u',
            position: 1,
        })
    );

    assert_eq!(
        validate(*b"U1"),
        Err(CountryCodeError::InvalidCharacter {
            character: '1',
            position: 2,
        })
    );
}

#[test]
fn rejects_non_ascii_bytes_before_membership_lookup() {
    assert_eq!(
        validate(*b"\x80A"),
        Err(CountryCodeError::InvalidCharacter {
            character: '\u{80}',
            position: 1,
        })
    );
}

#[test]
fn bitmap_matches_a_linear_scan_over_every_possible_code() {
    for first in b'A'..=b'Z' {
        for second in b'A'..=b'Z' {
            let code = [first, second];
            let expected = ASSIGNED_CODES.contains(&code);
            assert_eq!(is_assigned(code), expected, "{code:?}");
        }
    }
}

#[test]
fn country_code_try_from_slice_rejects_wrong_length() {
    assert_eq!(
        CountryCode::try_from(b"USA" as &[u8]),
        Err(CountryCodeError::InvalidLength { found: 3 })
    );
}

#[test]
fn country_code_try_from_array_matches_from_bytes() {
    assert_eq!(
        CountryCode::try_from(*b"US"),
        CountryCode::from_bytes(*b"US")
    );
}

#[test]
fn country_code_rejects_empty() {
    assert_eq!(normalize(""), Err(CountryCodeError::Empty));
    assert_eq!(CountryCode::parse(""), Err(CountryCodeError::Empty));
}

#[test]
fn country_code_trims_surrounding_whitespace() {
    assert_eq!(normalize("  US "), normalize("US"));
    assert_eq!(
        CountryCode::parse("  US ").map(|code| code.to_string()),
        Ok("US".to_string())
    );
}

#[test]
fn country_code_uppercases_letters() {
    assert_eq!(normalize("us"), Ok(*b"US"));
    assert_eq!(
        CountryCode::parse("br").map(|code| code.to_string()),
        Ok("BR".to_string())
    );
}

#[test]
fn preserves_current_length_error_semantics() {
    assert_eq!(
        normalize("USA"),
        Err(CountryCodeError::InvalidLength { found: 3 })
    );

    assert_eq!(
        normalize("   "),
        Err(CountryCodeError::InvalidLength { found: 0 })
    );
}

#[test]
fn non_letter_ascii_is_rejected_by_validation() {
    assert_eq!(normalize("U."), Ok(*b"U."));
    assert_eq!(
        CountryCode::parse("U."),
        Err(CountryCodeError::InvalidCharacter {
            character: '.',
            position: 2,
        })
    );
}

#[test]
fn rejects_non_ascii_input_with_the_original_character() {
    assert_eq!(
        CountryCode::parse("U£"),
        Err(CountryCodeError::InvalidCharacter {
            character: '£',
            position: 2,
        })
    );
}

#[test]
fn supports_from_str_and_try_from_string() {
    let from_str = "US".parse::<CountryCode>();
    let try_from = CountryCode::try_from("US");

    assert_eq!(
        from_str.map(|code| code.to_string()),
        try_from.map(|code| code.to_string())
    );
}

#[test]
fn supports_try_from_fixed_array() {
    assert_eq!(
        CountryCode::try_from(*b"US").map(|code| code.to_string()),
        Ok("US".to_string())
    );

    assert_eq!(
        CountryCode::try_from(*b"ZZ"),
        Err(CountryCodeError::Unassigned {
            code: "ZZ".to_string()
        })
    );
}

#[test]
fn supports_try_from_slice_and_reports_slice_length() {
    assert_eq!(
        CountryCode::try_from(b"US" as &[u8]).map(|code| code.to_string()),
        Ok("US".to_string())
    );

    assert_eq!(
        CountryCode::try_from(b"USA" as &[u8]),
        Err(CountryCodeError::InvalidLength { found: 3 })
    );

    assert_eq!(
        CountryCode::try_from(b"" as &[u8]),
        Err(CountryCodeError::InvalidLength { found: 0 })
    );
}

#[test]
fn country_code_orders_the_same_as_the_underlying_bytes() {
    let br = CountryCode::parse("BR").unwrap();
    let us = CountryCode::parse("US").unwrap();
    assert!(br < us);
}

#[test]
fn country_code_hash_is_consistent_with_equality() {
    let a = CountryCode::parse("US").unwrap();
    let b = CountryCode::parse("us").unwrap(); // normalizes to the same bytes
    let mut set = HashSet::new();
    set.insert(a);
    assert!(
        !set.insert(b),
        "equal CountryCodes must hash to the same bucket"
    );
}


#[test]
fn conversions_agree_with_parse_and_from_bytes() {
    assert_eq!(CountryCode::from_str(" br ").unwrap().as_str(), "BR");
    assert_eq!(CountryCode::try_from("us").unwrap().as_str(), "US");
    assert_eq!(CountryCode::try_from(*b"DE").unwrap().as_str(), "DE");
    assert_eq!(CountryCode::try_from(&b"FR"[..]).unwrap().as_str(), "FR");
    assert!(CountryCode::try_from(&b"FRA"[..]).is_err());
    let code = CountryCode::parse("BR").unwrap();
    let text: &str = code.as_ref();
    assert_eq!(text, "BR");
    let bytes: &[u8] = code.as_ref();
    assert_eq!(bytes, b"BR");
}
