use std::collections::HashSet;
use valqeron::identifiers::lei::{compute_check_digits, fold_mod_97, normalize, validate, BASE_LEN};
use valqeron::identifiers::{CharacterClass, Lei, LeiError};

fn candidate(s: &str) -> [u8; 20] {
    let bytes = s.as_bytes();
    let mut out = [0u8; 20];
    out.copy_from_slice(bytes);
    out
}

fn residue(candidate: &[u8; 20]) -> u32 {
    fold_mod_97(0, candidate)
}

/// A deliberately naive MOD 97-10 implementation, used only to cross-check
/// `compute_check_digits`.
fn reference_check_digits(base: &str) -> u8 {
    let mut expanded = String::new();
    for c in base.bytes() {
        if c.is_ascii_digit() {
            expanded.push(c as char);
        } else {
            let v = c - b'A' + 10;
            expanded.push((b'0' + v / 10) as char);
            expanded.push((b'0' + v % 10) as char);
        }
    }
    expanded.push('0');
    expanded.push('0');

    let mut rem = 0u32;
    for ch in expanded.chars() {
        rem = (rem * 10 + ch.to_digit(10).unwrap()) % 97;
    }
    (98 - rem) as u8
}

#[test]
fn lei_rejects_empty() {
    assert_eq!(normalize(""), Err(LeiError::Empty));
}

#[test]
fn lei_trims_surrounding_whitespace() {
    assert_eq!(
        normalize("  5493000IBP32UQZ0KL24 "),
        normalize("5493000IBP32UQZ0KL24")
    );
}

#[test]
fn lei_uppercases_letters() {
    assert_eq!(
        normalize("5493000ibp32uqz0kl24").unwrap(),
        *b"5493000IBP32UQZ0KL24"
    );
}

#[test]
fn lei_rejects_wrong_length() {
    assert_eq!(
        normalize("5493000IBP32UQZ0KL2"),
        Err(LeiError::InvalidLength { found: 19 })
    );
}

#[test]
fn lei_whitespace_only_is_a_length_error() {
    assert_eq!(normalize("   "), Err(LeiError::InvalidLength { found: 0 }));
}

#[test]
fn lei_keeps_interior_characters_for_validation() {
    // An interior space survives normalization (the count is still 20) and is
    // left for validation to reject as a non-alphanumeric character.
    assert_eq!(
        normalize("5493000IBP32UQZ0K 24"),
        Ok(*b"5493000IBP32UQZ0K 24")
    );
}

#[test]
fn lei_rejects_non_ascii() {
    let err = normalize("5493000IBP32UQZ0KL2£").unwrap_err();
    assert!(matches!(
        err,
        LeiError::InvalidCharacter {
            character: '£', ..
        }
    ));
}

#[test]
fn lei_parse_and_from_str_agree() {
    let via_parse = Lei::parse("5493000IBP32UQZ0KL24").unwrap();
    let via_from_str: Lei = "5493000IBP32UQZ0KL24".parse().unwrap();
    assert_eq!(via_parse, via_from_str);
}

#[test]
fn lei_new_is_an_alias_for_parse() {
    assert_eq!(
        Lei::new("5493000IBP32UQZ0KL24"),
        Lei::parse("5493000IBP32UQZ0KL24")
    );
}

#[test]
fn lei_display_is_the_canonical_string() {
    let lei = Lei::parse("5493000IBP32UQZ0KL24").unwrap();
    assert_eq!(lei.to_string(), "5493000IBP32UQZ0KL24");
}

#[test]
fn lei_debug_is_readable() {
    let lei = Lei::parse("5493000IBP32UQZ0KL24").unwrap();
    assert_eq!(lei.debug_string(), "Lei(\"5493000IBP32UQZ0KL24\")");
}

#[test]
fn lei_error_messages_are_human_readable() {
    assert_eq!(LeiError::Empty.to_string(), "LEI cannot be empty");
    assert_eq!(
        LeiError::InvalidLength { found: 19 }.to_string(),
        "LEI must be 20 characters long, found 19"
    );
}

#[test]
fn accepts_known_real_world_leis() {
    for s in [
        "5493000IBP32UQZ0KL24",
        "213800WSGIIZCXF1P572",
        "506700GE1G29325QX363",
        "54930084UKLVMY22DS16",
    ] {
        assert!(validate(&candidate(s)).is_ok(), "{s} should be valid");
        assert_eq!(residue(&candidate(s)), 1, "{s} residue must be 1");
    }
}

#[test]
fn computes_documented_check_digits() {
    assert_eq!(compute_check_digits(b"5493000IBP32UQZ0KL"), 24);
    assert_eq!(compute_check_digits(b"213800WSGIIZCXF1P5"), 72);
    assert_eq!(compute_check_digits(b"506700GE1G29325QX3"), 63);
    assert_eq!(compute_check_digits(b"54930084UKLVMY22DS"), 16);
}

#[test]
fn folding_matches_the_reference_implementation() {
    for base in [
        "5493000IBP32UQZ0KL",
        "213800WSGIIZCXF1P5",
        "506700GE1G29325QX3",
        "54930084UKLVMY22DS",
        "000000000000000000",
        "ZZZZZZZZZZZZZZZZZZ",
    ] {
        assert_eq!(
            compute_check_digits(base.as_bytes().try_into().unwrap()),
            reference_check_digits(base),
            "{base}"
        );
    }
}

#[test]
fn rejects_lowercase_in_base() {
    let err = validate(&candidate("5493000ibp32UQZ0KL24")).unwrap_err();
    assert_eq!(
        err,
        LeiError::InvalidCharacter {
            character: 'i',
            position: 8,
            expected: CharacterClass::Alphanumeric,
        }
    );
}

#[test]
fn lei_rejects_letter_in_check_digit_position() {
    let err = validate(&candidate("5493000IBP32UQZ0KLX4")).unwrap_err();
    assert_eq!(
        err,
        LeiError::InvalidCharacter {
            character: 'X',
            position: 19,
            expected: CharacterClass::Digit,
        }
    );
}

#[test]
fn rejects_wrong_check_digits() {
    let err = validate(&candidate("5493000IBP32UQZ0KL25")).unwrap_err();
    assert_eq!(
        err,
        LeiError::InvalidCheckDigits {
            expected: 24,
            found: 25,
        }
    );
}

#[test]
fn rejects_residue_one_with_reserved_check_digits() {
    for (s, expected, found) in [
        ("PRKYQO9OOQ90FWGOFC00", 97u8, 0u8),
        ("TS43UAPFUU97VO4FE001", 98, 1),
        ("2MZDL7DS67LXXZ93H099", 2, 99),
    ] {
        assert_eq!(residue(&candidate(s)), 1, "{s} residue must be 1");
        assert_eq!(
            validate(&candidate(s)),
            Err(LeiError::InvalidCheckDigits { expected, found }),
            "{s} must be rejected despite residue 1"
        );
    }
}

#[test]
fn lei_rejects_adjacent_transposition() {
    assert!(validate(&candidate("5493000IBP32UQ0ZKL24")).is_err());
}

#[test]
fn lei_try_from_slice_rejects_wrong_length() {
    let err = Lei::try_from(&b"5493000IBP32UQZ0KL"[..]).unwrap_err();
    assert_eq!(err, LeiError::InvalidLength { found: 18 });
}

#[test]
fn lei_try_from_array_matches_from_bytes() {
    let bytes = candidate("5493000IBP32UQZ0KL24");
    assert_eq!(Lei::try_from(bytes), Lei::from_bytes(bytes));
}

#[test]
fn lou_prefix_and_entity_id_partition_the_base() {
    let lei = Lei::parse("5493000IBP32UQZ0KL24").unwrap();
    assert_eq!(lei.lou_prefix(), "5493");
    assert_eq!(lei.entity_id(), "000IBP32UQZ0KL");
    assert_eq!(
        format!("{}{}", lei.lou_prefix(), lei.entity_id()),
        &lei.as_str()[..BASE_LEN]
    );
}

#[test]
fn check_digits_matches_computed_check_digits() {
    let lei = Lei::parse("5493000IBP32UQZ0KL24").unwrap();
    assert_eq!(lei.check_digits(), 24);
    assert_eq!(lei.check_digits(), lei.computed_check_digits());
}

#[test]
fn lei_compares_equal_to_matching_str() {
    let lei = Lei::parse("5493000IBP32UQZ0KL24").unwrap();
    assert_eq!(lei, "5493000IBP32UQZ0KL24");
    assert_eq!("5493000IBP32UQZ0KL24", lei);
    assert_ne!(lei, "213800WSGIIZCXF1P572");
}

#[test]
fn lei_orders_the_same_as_the_underlying_bytes() {
    let bbc = Lei::parse("5493000IBP32UQZ0KL24").unwrap();
    let jlr = Lei::parse("213800WSGIIZCXF1P572").unwrap();
    assert!(jlr < bbc);
}

#[test]
fn lei_hash_is_consistent_with_equality() {
    let a = Lei::parse("5493000IBP32UQZ0KL24").unwrap();
    let b = Lei::parse("5493000ibp32uqz0kl24").unwrap();
    let mut set = HashSet::new();
    set.insert(a);
    assert!(!set.insert(b), "equal Leis must hash to the same bucket");
}

#[test]
fn lei_as_ref_bytes_matches_as_bytes() {
    let lei = Lei::parse("5493000IBP32UQZ0KL24").unwrap();
    assert_eq!(AsRef::<[u8]>::as_ref(&lei), lei.as_bytes());
}
