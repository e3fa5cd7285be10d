use std::collections::HashSet;
use valqeron::identifiers::mic::{find, normalize, validate};
use valqeron::identifiers::{Mic, MicError};

fn candidate(s: &str) -> [u8; 4] {
    let bytes = s.as_bytes();
    let mut out = [0u8; 4];
    out.copy_from_slice(bytes);
    out
}

#[test]
fn mic_rejects_empty() {
    assert_eq!(normalize(""), Err(MicError::Empty));
}

#[test]
fn mic_trims_surrounding_whitespace() {
    assert_eq!(normalize("  XNYS "), normalize("XNYS"));
}

#[test]
fn mic_uppercases_letters() {
    assert_eq!(normalize("xnys").unwrap(), *b"XNYS");
}

#[test]
fn keeps_digits() {
    assert_eq!(normalize("360t").unwrap(), *b"360T");
}

#[test]
fn mic_rejects_wrong_length() {
    assert_eq!(normalize("XNY"), Err(MicError::InvalidLength { found: 3 }));
    assert_eq!(
        normalize("XNYSE"),
        Err(MicError::InvalidLength { found: 5 })
    );
}

#[test]
fn mic_whitespace_only_is_a_length_error() {
    assert_eq!(normalize("   "), Err(MicError::InvalidLength { found: 0 }));
}

#[test]
fn keeps_non_alphanumeric_characters_for_validation() {
    // A separator not surrounding whitespace survives normalization (the count is
    // still four) and is left for validation to reject as an invalid character.
    assert_eq!(normalize("XN.S").unwrap(), *b"XN.S");
}

#[test]
fn mic_rejects_non_ascii() {
    let err = normalize("XNY£").unwrap_err();
    assert!(matches!(
        err,
        MicError::InvalidCharacter {
            character: '£', ..
        }
    ));
}

#[test]
fn mic_parse_and_from_str_agree() {
    let via_parse = Mic::parse("XNYS").unwrap();
    let via_from_str: Mic = "XNYS".parse().unwrap();
    assert_eq!(via_parse, via_from_str);
}

#[test]
fn mic_new_is_an_alias_for_parse() {
    assert_eq!(Mic::new("XNYS"), Mic::parse("XNYS"));
}

#[test]
fn accepts_known_registered_codes() {
    for s in ["XNYS", "XLON", "BVMF", "360T", "XOFF", "XXXX", "ALDP"] {
        assert!(validate(candidate(s)).is_ok(), "{s} should be valid");
    }
}

#[test]
fn accepts_expired_codes() {
    // `ALDP` is expired but registered; membership is about the registry,
    // not the lifecycle state.
    let entry = find(candidate("ALDP")).unwrap();
    assert!(!entry.active);
    assert!(validate(candidate("ALDP")).is_ok());
}

#[test]
fn rejects_unregistered_but_well_formed() {
    let err = validate(candidate("ZZZZ")).unwrap_err();
    assert_eq!(
        err,
        MicError::Unregistered {
            code: String::from("ZZZZ"),
        }
    );
}

#[test]
fn mic_rejects_lowercase_as_character_class() {
    let err = validate(candidate("xnys")).unwrap_err();
    assert_eq!(
        err,
        MicError::InvalidCharacter {
            character: 'x',
            position: 1,
        }
    );
}

#[test]
fn rejects_punctuation_as_character_class() {
    let err = validate(candidate("XN.S")).unwrap_err();
    assert_eq!(
        err,
        MicError::InvalidCharacter {
            character: '.',
            position: 3,
        }
    );
}

#[test]
fn mic_try_from_slice_rejects_wrong_length() {
    let err = Mic::try_from(&b"XNY"[..]).unwrap_err();
    assert_eq!(err, MicError::InvalidLength { found: 3 });
}

#[test]
fn try_from_slice_accepts_four_bytes() {
    let mic = Mic::try_from(&b"XNYS"[..]).unwrap();
    assert_eq!(mic, "XNYS");
}

#[test]
fn mic_try_from_array_matches_from_bytes() {
    assert_eq!(Mic::try_from(*b"XNYS"), Mic::from_bytes(*b"XNYS"));
}

#[test]
fn find_resolves_operating_references() {
    // `ARCX` is a segment of `XNYS`; its registry entry names that operator.
    let entry = find(candidate("ARCX")).unwrap();
    assert_eq!(entry.operating, *b"XNYS");
}

#[test]
fn operating_market_is_its_own_operating_mic() {
    let mic = Mic::parse("XNYS").unwrap();
    assert!(mic.is_operating());
    assert!(!mic.is_segment());
    assert_eq!(mic.operating_mic(), mic);
}

#[test]
fn segment_market_resolves_to_its_operator() {
    let segment = Mic::parse("ARCX").unwrap();
    assert!(segment.is_segment());
    assert!(!segment.is_operating());
    assert_eq!(segment.operating_mic(), Mic::parse("XNYS").unwrap());
}

#[test]
fn active_flag_reflects_the_registry() {
    assert!(Mic::parse("XNYS").unwrap().is_active());
    assert!(!Mic::parse("ALDP").unwrap().is_active());
}

#[test]
fn country_code_is_none_for_the_zz_placeholder() {
    assert!(Mic::parse("XOFF").unwrap().country_code().is_none());
}

#[test]
fn country_code_is_some_for_an_assigned_country() {
    assert!(Mic::parse("XNYS").unwrap().country_code().is_some());
}

#[test]
fn mic_display_is_the_canonical_string() {
    let mic = Mic::parse("XNYS").unwrap();
    assert_eq!(mic.to_string(), "XNYS");
}

#[test]
fn mic_debug_is_readable() {
    let mic = Mic::parse("XNYS").unwrap();
    assert_eq!(mic.debug_string(), "Mic(\"XNYS\")");
}

#[test]
fn mic_error_messages_are_human_readable() {
    assert_eq!(MicError::Empty.to_string(), "MIC cannot be empty");
    assert_eq!(
        MicError::InvalidLength { found: 3 }.to_string(),
        "MIC must be exactly four characters long; found 3"
    );
}

#[test]
fn mic_compares_equal_to_matching_str() {
    let mic = Mic::parse("XNYS").unwrap();
    assert_eq!(mic, "XNYS");
    assert_eq!("XNYS", mic);
    assert_ne!(mic, "XNAS");
}

#[test]
fn mic_orders_the_same_as_the_underlying_bytes() {
    let arcx = Mic::parse("ARCX").unwrap();
    let xnys = Mic::parse("XNYS").unwrap();
    assert!(arcx < xnys);
}

#[test]
fn mic_hash_is_consistent_with_equality() {
    let a = Mic::parse("XNYS").unwrap();
    let b = Mic::parse("xnys").unwrap(); // normalizes to the same bytes as `a`
    let mut set = HashSet::new();
    set.insert(a);
    assert!(!set.insert(b), "equal Mics must hash to the same bucket");
}

#[test]
fn mic_as_ref_bytes_matches_as_bytes() {
    let mic = Mic::parse("XNYS").unwrap();
    assert_eq!(AsRef::<[u8]>::as_ref(&mic), mic.as_bytes());
}


