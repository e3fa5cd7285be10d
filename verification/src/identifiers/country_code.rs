//! ISO 3166-1 alpha-2 country codes.
use vstd::prelude::*;
use crate::text::{
    bytes_eq_str, debug_tuple, debug_tuple_string, decimal, push_decimal,
    ascii_upper, upper_char,
    all_ascii_chars, ascii_str, bytes_as_chars, find_non_ascii, first_non_ascii, push_char,
    string_from_chars, trimmed, trimmed_chars, upper_ascii_array, upper_bytes,
};
use super::common::{byte_is_upper, is_upper_byte};

verus! {

/// Every code that ISO 3166-1 assigns, in ascending order.
pub const ASSIGNED_CODES: [[u8; 2]; 249] = [
    [65, 68], [65, 69], [65, 70], [65, 71], [65, 73], [65, 76], [65, 77], [65, 79], [65, 81], [65, 82], [65, 83],
    [65, 84], [65, 85], [65, 87], [65, 88], [65, 90], [66, 65], [66, 66], [66, 68], [66, 69], [66, 70], [66, 71],
    [66, 72], [66, 73], [66, 74], [66, 76], [66, 77], [66, 78], [66, 79], [66, 81], [66, 82], [66, 83], [66, 84],
    [66, 86], [66, 87], [66, 89], [66, 90], [67, 65], [67, 67], [67, 68], [67, 70], [67, 71], [67, 72], [67, 73],
    [67, 75], [67, 76], [67, 77], [67, 78], [67, 79], [67, 82], [67, 85], [67, 86], [67, 87], [67, 88], [67, 89],
    [67, 90], [68, 69], [68, 74], [68, 75], [68, 77], [68, 79], [68, 90], [69, 67], [69, 69], [69, 71], [69, 72],
    [69, 82], [69, 83], [69, 84], [70, 73], [70, 74], [70, 75], [70, 77], [70, 79], [70, 82], [71, 65], [71, 66],
    [71, 68], [71, 69], [71, 70], [71, 71], [71, 72], [71, 73], [71, 76], [71, 77], [71, 78], [71, 80], [71, 81],
    [71, 82], [71, 83], [71, 84], [71, 85], [71, 87], [71, 89], [72, 75], [72, 77], [72, 78], [72, 82], [72, 84],
    [72, 85], [73, 68], [73, 69], [73, 76], [73, 77], [73, 78], [73, 79], [73, 81], [73, 82], [73, 83], [73, 84],
    [74, 69], [74, 77], [74, 79], [74, 80], [75, 69], [75, 71], [75, 72], [75, 73], [75, 77], [75, 78], [75, 80],
    [75, 82], [75, 87], [75, 89], [75, 90], [76, 65], [76, 66], [76, 67], [76, 73], [76, 75], [76, 82], [76, 83],
    [76, 84], [76, 85], [76, 86], [76, 89], [77, 65], [77, 67], [77, 68], [77, 69], [77, 70], [77, 71], [77, 72],
    [77, 75], [77, 76], [77, 77], [77, 78], [77, 79], [77, 80], [77, 81], [77, 82], [77, 83], [77, 84], [77, 85],
    [77, 86], [77, 87], [77, 88], [77, 89], [77, 90], [78, 65], [78, 67], [78, 69], [78, 70], [78, 71], [78, 73],
    [78, 76], [78, 79], [78, 80], [78, 82], [78, 85], [78, 90], [79, 77], [80, 65], [80, 69], [80, 70], [80, 71],
    [80, 72], [80, 75], [80, 76], [80, 77], [80, 78], [80, 82], [80, 83], [80, 84], [80, 87], [80, 89], [81, 65],
    [82, 69], [82, 79], [82, 83], [82, 85], [82, 87], [83, 65], [83, 66], [83, 67], [83, 68], [83, 69], [83, 71],
    [83, 72], [83, 73], [83, 74], [83, 75], [83, 76], [83, 77], [83, 78], [83, 79], [83, 82], [83, 83], [83, 84],
    [83, 86], [83, 88], [83, 89], [83, 90], [84, 67], [84, 68], [84, 70], [84, 71], [84, 72], [84, 74], [84, 75],
    [84, 76], [84, 77], [84, 78], [84, 79], [84, 82], [84, 84], [84, 86], [84, 87], [84, 90], [85, 65], [85, 71],
    [85, 77], [85, 83], [85, 89], [85, 90], [86, 65], [86, 67], [86, 69], [86, 71], [86, 73], [86, 78], [86, 85],
    [87, 70], [87, 83], [89, 69], [89, 84], [90, 65], [90, 77], [90, 87],
];

/// Whether ISO 3166-1 assigns the code `first second`.
pub open spec fn country_assigned(first: u8, second: u8) -> bool {
    match first {
        65 => match second {
            68 | 69 | 70 | 71 | 73 | 76 | 77 | 79 | 81 | 82 | 83 |
            84 | 85 | 87 | 88 | 90 => true,
            _ => false,
        },
        66 => match second {
            65 | 66 | 68 | 69 | 70 | 71 | 72 | 73 | 74 | 76 | 77 |
            78 | 79 | 81 | 82 | 83 | 84 | 86 | 87 | 89 | 90 => true,
            _ => false,
        },
        67 => match second {
            65 | 67 | 68 | 70 | 71 | 72 | 73 | 75 | 76 | 77 | 78 |
            79 | 82 | 85 | 86 | 87 | 88 | 89 | 90 => true,
            _ => false,
        },
        68 => match second {
            69 | 74 | 75 | 77 | 79 | 90 => true,
            _ => false,
        },
        69 => match second {
            67 | 69 | 71 | 72 | 82 | 83 | 84 => true,
            _ => false,
        },
        70 => match second {
            73 | 74 | 75 | 77 | 79 | 82 => true,
            _ => false,
        },
        71 => match second {
            65 | 66 | 68 | 69 | 70 | 71 | 72 | 73 | 76 | 77 | 78 |
            80 | 81 | 82 | 83 | 84 | 85 | 87 | 89 => true,
            _ => false,
        },
        72 => match second {
            75 | 77 | 78 | 82 | 84 | 85 => true,
            _ => false,
        },
        73 => match second {
            68 | 69 | 76 | 77 | 78 | 79 | 81 | 82 | 83 | 84 => true,
            _ => false,
        },
        74 => match second {
            69 | 77 | 79 | 80 => true,
            _ => false,
        },
        75 => match second {
            69 | 71 | 72 | 73 | 77 | 78 | 80 | 82 | 87 | 89 | 90 => true,
            _ => false,
        },
        76 => match second {
            65 | 66 | 67 | 73 | 75 | 82 | 83 | 84 | 85 | 86 | 89 => true,
            _ => false,
        },
        77 => match second {
            65 | 67 | 68 | 69 | 70 | 71 | 72 | 75 | 76 | 77 | 78 |
            79 | 80 | 81 | 82 | 83 | 84 | 85 | 86 | 87 | 88 | 89 |
            90 => true,
            _ => false,
        },
        78 => match second {
            65 | 67 | 69 | 70 | 71 | 73 | 76 | 79 | 80 | 82 | 85 |
            90 => true,
            _ => false,
        },
        79 => match second {
            77 => true,
            _ => false,
        },
        80 => match second {
            65 | 69 | 70 | 71 | 72 | 75 | 76 | 77 | 78 | 82 | 83 |
            84 | 87 | 89 => true,
            _ => false,
        },
        81 => match second {
            65 => true,
            _ => false,
        },
        82 => match second {
            69 | 79 | 83 | 85 | 87 => true,
            _ => false,
        },
        83 => match second {
            65 | 66 | 67 | 68 | 69 | 71 | 72 | 73 | 74 | 75 | 76 |
            77 | 78 | 79 | 82 | 83 | 84 | 86 | 88 | 89 | 90 => true,
            _ => false,
        },
        84 => match second {
            67 | 68 | 70 | 71 | 72 | 74 | 75 | 76 | 77 | 78 | 79 |
            82 | 84 | 86 | 87 | 90 => true,
            _ => false,
        },
        85 => match second {
            65 | 71 | 77 | 83 | 89 | 90 => true,
            _ => false,
        },
        86 => match second {
            65 | 67 | 69 | 71 | 73 | 78 | 85 => true,
            _ => false,
        },
        87 => match second {
            70 | 83 => true,
            _ => false,
        },
        89 => match second {
            69 | 84 => true,
            _ => false,
        },
        90 => match second {
            65 | 77 | 87 => true,
            _ => false,
        },
        _ => false,
    }
}

/// Whether ISO 3166-1 assigns the code.
pub fn is_assigned(candidate: [u8; 2]) -> (r: bool)
    ensures
        r == country_assigned(candidate@[0], candidate@[1]),
{
    let first = candidate[0];
    let second = candidate[1];
    match first {
        65 => match second {
            68 | 69 | 70 | 71 | 73 | 76 | 77 | 79 | 81 | 82 | 83 |
            84 | 85 | 87 | 88 | 90 => true,
            _ => false,
        },
        66 => match second {
            65 | 66 | 68 | 69 | 70 | 71 | 72 | 73 | 74 | 76 | 77 |
            78 | 79 | 81 | 82 | 83 | 84 | 86 | 87 | 89 | 90 => true,
            _ => false,
        },
        67 => match second {
            65 | 67 | 68 | 70 | 71 | 72 | 73 | 75 | 76 | 77 | 78 |
            79 | 82 | 85 | 86 | 87 | 88 | 89 | 90 => true,
            _ => false,
        },
        68 => match second {
            69 | 74 | 75 | 77 | 79 | 90 => true,
            _ => false,
        },
        69 => match second {
            67 | 69 | 71 | 72 | 82 | 83 | 84 => true,
            _ => false,
        },
        70 => match second {
            73 | 74 | 75 | 77 | 79 | 82 => true,
            _ => false,
        },
        71 => match second {
            65 | 66 | 68 | 69 | 70 | 71 | 72 | 73 | 76 | 77 | 78 |
            80 | 81 | 82 | 83 | 84 | 85 | 87 | 89 => true,
            _ => false,
        },
        72 => match second {
            75 | 77 | 78 | 82 | 84 | 85 => true,
            _ => false,
        },
        73 => match second {
            68 | 69 | 76 | 77 | 78 | 79 | 81 | 82 | 83 | 84 => true,
            _ => false,
        },
        74 => match second {
            69 | 77 | 79 | 80 => true,
            _ => false,
        },
        75 => match second {
            69 | 71 | 72 | 73 | 77 | 78 | 80 | 82 | 87 | 89 | 90 => true,
            _ => false,
        },
        76 => match second {
            65 | 66 | 67 | 73 | 75 | 82 | 83 | 84 | 85 | 86 | 89 => true,
            _ => false,
        },
        77 => match second {
            65 | 67 | 68 | 69 | 70 | 71 | 72 | 75 | 76 | 77 | 78 |
            79 | 80 | 81 | 82 | 83 | 84 | 85 | 86 | 87 | 88 | 89 |
            90 => true,
            _ => false,
        },
        78 => match second {
            65 | 67 | 69 | 70 | 71 | 73 | 76 | 79 | 80 | 82 | 85 |
            90 => true,
            _ => false,
        },
        79 => match second {
            77 => true,
            _ => false,
        },
        80 => match second {
            65 | 69 | 70 | 71 | 72 | 75 | 76 | 77 | 78 | 82 | 83 |
            84 | 87 | 89 => true,
            _ => false,
        },
        81 => match second {
            65 => true,
            _ => false,
        },
        82 => match second {
            69 | 79 | 83 | 85 | 87 => true,
            _ => false,
        },
        83 => match second {
            65 | 66 | 67 | 68 | 69 | 71 | 72 | 73 | 74 | 75 | 76 |
            77 | 78 | 79 | 82 | 83 | 84 | 86 | 88 | 89 | 90 => true,
            _ => false,
        },
        84 => match second {
            67 | 68 | 70 | 71 | 72 | 74 | 75 | 76 | 77 | 78 | 79 |
            82 | 84 | 86 | 87 | 90 => true,
            _ => false,
        },
        85 => match second {
            65 | 71 | 77 | 83 | 89 | 90 => true,
            _ => false,
        },
        86 => match second {
            65 | 67 | 69 | 71 | 73 | 78 | 85 => true,
            _ => false,
        },
        87 => match second {
            70 | 83 => true,
            _ => false,
        },
        89 => match second {
            69 | 84 => true,
            _ => false,
        },
        90 => match second {
            65 | 77 | 87 => true,
            _ => false,
        },
        _ => false,
    }
}

/// A validated ISO 3166-1 alpha-2 country code, stored as two uppercase
/// ASCII letters.
#[derive(Clone, Copy, PartialEq, Eq, PartialOrd, Ord, Hash, Debug)]
pub struct CountryCode {
    bytes: [u8; 2],
}

#[derive(Debug, PartialEq, Eq)]
pub enum CountryCodeError {
    Empty,
    InvalidLength { found: usize },
    InvalidCharacter { character: char, position: u8 },
    Unassigned { code: String },
}

/// Two bytes that are uppercase letters and assigned by ISO 3166-1.
pub open spec fn country_valid(b: Seq<u8>) -> bool {
    &&& b.len() == 2
    &&& is_upper_byte(b[0])
    &&& is_upper_byte(b[1])
    &&& country_assigned(b[0], b[1])
}

/// `e` is the error that validating the (invalid) bytes `b` reports: the
/// first byte that is not an uppercase letter, else non-membership in
/// ISO 3166-1.
pub open spec fn country_error_for(b: Seq<u8>, e: CountryCodeError) -> bool {
    if !is_upper_byte(b[0]) {
        e == CountryCodeError::InvalidCharacter { character: b[0] as char, position: 1 }
    } else if !is_upper_byte(b[1]) {
        e == CountryCodeError::InvalidCharacter { character: b[1] as char, position: 2 }
    } else {
        e matches CountryCodeError::Unassigned { code } && code@ == bytes_as_chars(b)
    }
}

/// `r` is what validating the two bytes `b` gives.
pub open spec fn country_validate_outcome(b: Seq<u8>, r: Result<(), CountryCodeError>) -> bool {
    if country_valid(b) {
        r is Ok
    } else {
        r matches Err(e) && country_error_for(b, e)
    }
}

/// The outcome of normalizing user input: trim, require two ASCII
/// characters, uppercase.
pub open spec fn country_normalize(s: Seq<char>) -> Result<Seq<u8>, CountryCodeError> {
    if s.len() == 0 {
        Err(CountryCodeError::Empty)
    } else {
        let t = trimmed(s);
        if t.len() != 2 {
            Err(CountryCodeError::InvalidLength { found: t.len() as usize })
        } else if !all_ascii_chars(t) {
            let i = first_non_ascii(t);
            Err(CountryCodeError::InvalidCharacter { character: t[i], position: (i + 1) as u8 })
        } else {
            Ok(upper_bytes(t))
        }
    }
}

/// `r` is what parsing the input `s` gives.
pub open spec fn country_parse_outcome(s: Seq<char>, r: Result<CountryCode, CountryCodeError>) -> bool {
    match country_normalize(s) {
        Err(e) => r == Err::<CountryCode, CountryCodeError>(e),
        Ok(b) => country_from_bytes_outcome(b, r),
    }
}

/// `r` is what building a code from the bytes `b` gives.
pub open spec fn country_from_bytes_outcome(b: Seq<u8>, r: Result<CountryCode, CountryCodeError>) -> bool {
    if country_valid(b) {
        r matches Ok(c) && c.view() == b
    } else {
        r matches Err(e) && country_error_for(b, e)
    }
}

/// Reports a byte that is not an uppercase ASCII letter.
pub fn validate_character(byte: u8, position: u8) -> (r: Result<(), CountryCodeError>)
    ensures
        is_upper_byte(byte) ==> r is Ok,
        !is_upper_byte(byte) ==> r == Err::<(), CountryCodeError>(
            CountryCodeError::InvalidCharacter { character: byte as char, position },
        ),
{
    if byte_is_upper(byte) {
        Ok(())
    } else {
        Err(CountryCodeError::InvalidCharacter { character: byte as char, position })
    }
}

pub fn validate_character_classes(candidate: [u8; 2]) -> (r: Result<(), CountryCodeError>)
    ensures
        is_upper_byte(candidate@[0]) && is_upper_byte(candidate@[1]) ==> r is Ok,
        !is_upper_byte(candidate@[0]) ==> r == Err::<(), CountryCodeError>(
            CountryCodeError::InvalidCharacter { character: candidate@[0] as char, position: 1 },
        ),
        is_upper_byte(candidate@[0]) && !is_upper_byte(candidate@[1]) ==> r == Err::<
            (),
            CountryCodeError,
        >(CountryCodeError::InvalidCharacter { character: candidate@[1] as char, position: 2 }),
{
    validate_character(candidate[0], 1)?;
    validate_character(candidate[1], 2)?;
    Ok(())
}

/// The code as an owned string (both bytes are ASCII).
fn code_string(candidate: [u8; 2]) -> (s: String)
    requires
        candidate@[0] < 128 && candidate@[1] < 128,
    ensures
        s@ == bytes_as_chars(candidate@),
{
    let mut s = String::new();
    push_char(&mut s, candidate[0] as char);
    push_char(&mut s, candidate[1] as char);
    assert(s@ =~= bytes_as_chars(candidate@));
    s
}

pub fn validate_membership(candidate: [u8; 2]) -> (r: Result<(), CountryCodeError>)
    requires
        candidate@[0] < 128 && candidate@[1] < 128,
    ensures
        country_assigned(candidate@[0], candidate@[1]) ==> r is Ok,
        !country_assigned(candidate@[0], candidate@[1]) ==> (r matches Err(
            CountryCodeError::Unassigned { code },
        ) && code@ == bytes_as_chars(candidate@)),
{
    if is_assigned(candidate) {
        Ok(())
    } else {
        Err(CountryCodeError::Unassigned { code: code_string(candidate) })
    }
}

/// Checks the character classes, then membership in ISO 3166-1.
pub fn validate(candidate: [u8; 2]) -> (r: Result<(), CountryCodeError>)
    ensures
        country_validate_outcome(candidate@, r),
{
    validate_character_classes(candidate)?;
    validate_membership(candidate)
}

/// Uppercases one character of user input, rejecting non-ASCII ones.
pub fn normalize_character(ch: char, position: u8) -> (r: Result<u8, CountryCodeError>)
    ensures
        (ch as u32) < 128 ==> r == Ok::<u8, CountryCodeError>(ascii_upper(ch) as u8),
        (ch as u32) >= 128 ==> r == Err::<u8, CountryCodeError>(
            CountryCodeError::InvalidCharacter { character: ch, position },
        ),
{
    if (ch as u32) >= 128 {
        return Err(CountryCodeError::InvalidCharacter { character: ch, position });
    }
    Ok(upper_char(ch) as u8)
}

/// Trims the input and checks that two ASCII characters remain; returns them
/// uppercased.
pub fn normalize(input: &str) -> (r: Result<[u8; 2], CountryCodeError>)
    ensures
        match country_normalize(input@) {
            Ok(b) => r matches Ok(a) && a@ == b,
            Err(e) => r == Err::<[u8; 2], CountryCodeError>(e),
        },
{
    if input.unicode_len() == 0 {
        return Err(CountryCodeError::Empty);
    }
    let t = trimmed_chars(input);
    let found = t.len();
    if found != 2 {
        return Err(CountryCodeError::InvalidLength { found });
    }
    match find_non_ascii(&t) {
        Some(i) => Err(CountryCodeError::InvalidCharacter { character: t[i], position: (i + 1) as u8 }),
        None => Ok(upper_ascii_array::<2>(&t)),
    }
}

impl CountryCode {
    #[verifier::type_invariant]
    spec fn well_formed(self) -> bool {
        country_valid(self.bytes@)
    }

    /// The two bytes of the code.
    pub closed spec fn view(self) -> Seq<u8> {
        self.bytes@
    }

    /// Parses user input: surrounding whitespace is trimmed and letters are
    /// uppercased before validation.
    pub fn parse(input: &str) -> (r: Result<Self, CountryCodeError>)
        ensures
            country_parse_outcome(input@, r),
    {
        match normalize(input) {
            Err(e) => Err(e),
            Ok(candidate) => Self::from_bytes(candidate),
        }
    }

    /// Validates two bytes that are already normalized.
    pub fn from_bytes(bytes: [u8; 2]) -> (r: Result<Self, CountryCodeError>)
        ensures
            country_from_bytes_outcome(bytes@, r),
    {
        match validate(bytes) {
            Err(e) => Err(e),
            Ok(()) => Ok(CountryCode { bytes }),
        }
    }

    pub fn as_bytes(&self) -> (r: &[u8; 2])
        ensures
            r@ == self.view(),
            country_valid(r@),
    {
        proof {
            use_type_invariant(self);
        }
        &self.bytes
    }

    pub fn as_str(&self) -> (r: &str)
        ensures
            r@ == bytes_as_chars(self.view()),
    {
        proof {
            use_type_invariant(self);
        }
        ascii_str(self.bytes.as_slice())
    }
}


/// The text of a country-code error.
pub open spec fn country_error_message(e: CountryCodeError) -> Seq<char> {
    match e {
        CountryCodeError::Empty => "country code cannot be empty"@,
        CountryCodeError::InvalidLength { found } => "country code must be two characters, found "@
            + decimal(found as nat),
        CountryCodeError::InvalidCharacter { character, position } => "invalid character '"@
            + seq![character] + "' at position "@ + decimal(position as nat)
            + " of 2: expected an uppercase letter (A-Z) ASCII character"@,
        CountryCodeError::Unassigned { code } => "country code '"@ + code@
            + "' is not assigned by ISO 3166-1"@,
    }
}

impl CountryCodeError {
    /// The human-readable text of the error, as `Display` prints it.
    pub fn to_string(&self) -> (msg: String)
        ensures
            msg@ == country_error_message(*self),
    {
        match self {
            CountryCodeError::Empty => String::from_str("country code cannot be empty"),
            CountryCodeError::InvalidLength { found } => {
                let mut s = String::from_str("country code must be two characters, found ");
                push_decimal(&mut s, *found as u64);
                s
            },
            CountryCodeError::InvalidCharacter { character, position } => {
                let mut s = String::from_str("invalid character '");
                push_char(&mut s, *character);
                s.append("' at position ");
                push_decimal(&mut s, *position as u64);
                s.append(" of 2: expected an uppercase letter (A-Z) ASCII character");
                s
            },
            CountryCodeError::Unassigned { code } => {
                let mut s = String::from_str("country code '");
                s.append(code.as_str());
                s.append("' is not assigned by ISO 3166-1");
                s
            },
        }
    }
}

impl core::str::FromStr for CountryCode {
    type Err = CountryCodeError;

    fn from_str(s: &str) -> (r: Result<Self, Self::Err>)
        ensures
            country_parse_outcome(s@, r),
    {
        Self::parse(s)
    }
}

// The error of an unassigned code holds a `String`, which has no exact
// specification value; the conversions promise what `parse` and
// `from_bytes` promise, and no `try_from_spec` equality.
impl<'a> vstd::std_specs::convert::TryFromSpecImpl<&'a str> for CountryCode {
    open spec fn obeys_try_from_spec() -> bool {
        false
    }

    open spec fn try_from_spec(v: &'a str) -> Result<Self, Self::Error> {
        choose|r: Result<CountryCode, CountryCodeError>| country_parse_outcome(v@, r)
    }
}

impl<'a> TryFrom<&'a str> for CountryCode {
    type Error = CountryCodeError;

    fn try_from(value: &'a str) -> (r: Result<Self, Self::Error>)
        ensures
            country_parse_outcome(value@, r),
    {
        Self::parse(value)
    }
}

impl vstd::std_specs::convert::TryFromSpecImpl<[u8; 2]> for CountryCode {
    open spec fn obeys_try_from_spec() -> bool {
        false
    }

    open spec fn try_from_spec(v: [u8; 2]) -> Result<Self, Self::Error> {
        choose|r: Result<CountryCode, CountryCodeError>| country_from_bytes_outcome(v@, r)
    }
}

impl TryFrom<[u8; 2]> for CountryCode {
    type Error = CountryCodeError;

    fn try_from(value: [u8; 2]) -> (r: Result<Self, Self::Error>)
        ensures
            country_from_bytes_outcome(value@, r),
    {
        Self::from_bytes(value)
    }
}

impl<'a> vstd::std_specs::convert::TryFromSpecImpl<&'a [u8]> for CountryCode {
    open spec fn obeys_try_from_spec() -> bool {
        false
    }

    open spec fn try_from_spec(v: &'a [u8]) -> Result<Self, Self::Error> {
        choose|r: Result<CountryCode, CountryCodeError>| v@.len() == 2 && country_from_bytes_outcome(v@, r)
    }
}

impl<'a> TryFrom<&'a [u8]> for CountryCode {
    type Error = CountryCodeError;

    fn try_from(value: &'a [u8]) -> (r: Result<Self, Self::Error>)
        ensures
            value@.len() != 2 ==> r == Err::<CountryCode, CountryCodeError>(
                CountryCodeError::InvalidLength { found: value@.len() as usize },
            ),
            value@.len() == 2 ==> country_from_bytes_outcome(value@, r),
    {
        if value.len() != 2 {
            return Err(CountryCodeError::InvalidLength { found: value.len() });
        }
        let bytes = [value[0], value[1]];
        assert(bytes@ =~= value@);
        Self::from_bytes(bytes)
    }
}

impl CountryCode {
    /// The canonical form, as `Display` prints it.
    pub fn to_string(&self) -> (s: String)
        ensures
            s@ == bytes_as_chars(self.view()),
    {
        String::from_str(self.as_str())
    }

    /// `CountryCode("…")`, as `Debug` prints it.
    pub fn debug_string(&self) -> (s: String)
        ensures
            s@ == debug_tuple("CountryCode"@, bytes_as_chars(self.view())),
    {
        debug_tuple_string("CountryCode", self.as_str())
    }
}

impl PartialEq<str> for CountryCode {
    fn eq(&self, other: &str) -> (r: bool) {
        bytes_eq_str(self.as_bytes().as_slice(), other)
    }
}

impl vstd::std_specs::cmp::PartialEqSpecImpl<str> for CountryCode {
    open spec fn obeys_eq_spec() -> bool {
        true
    }

    open spec fn eq_spec(&self, other: &str) -> bool {
        bytes_as_chars(self.view()) == other@
    }
}

impl<'a> PartialEq<&'a str> for CountryCode {
    fn eq(&self, other: &&'a str) -> (r: bool) {
        bytes_eq_str(self.as_bytes().as_slice(), *other)
    }
}

impl<'a> vstd::std_specs::cmp::PartialEqSpecImpl<&'a str> for CountryCode {
    open spec fn obeys_eq_spec() -> bool {
        true
    }

    open spec fn eq_spec(&self, other: &&'a str) -> bool {
        bytes_as_chars(self.view()) == other@
    }
}

impl PartialEq<CountryCode> for str {
    fn eq(&self, other: &CountryCode) -> (r: bool) {
        bytes_eq_str(other.as_bytes().as_slice(), self)
    }
}

impl vstd::std_specs::cmp::PartialEqSpecImpl<CountryCode> for str {
    open spec fn obeys_eq_spec() -> bool {
        true
    }

    open spec fn eq_spec(&self, other: &CountryCode) -> bool {
        bytes_as_chars(other.view()) == self@
    }
}

impl<'a> PartialEq<CountryCode> for &'a str {
    fn eq(&self, other: &CountryCode) -> (r: bool) {
        bytes_eq_str(other.as_bytes().as_slice(), *self)
    }
}

impl<'a> vstd::std_specs::cmp::PartialEqSpecImpl<CountryCode> for &'a str {
    open spec fn obeys_eq_spec() -> bool {
        true
    }

    open spec fn eq_spec(&self, other: &CountryCode) -> bool {
        bytes_as_chars(other.view()) == self@
    }
}

impl AsRef<[u8]> for CountryCode {
    fn as_ref(&self) -> (r: &[u8])
        ensures
            ({
                let b: &[u8] = r;
                b@ == self.view()
            }),
    {
        self.as_bytes().as_slice()
    }
}

impl AsRef<str> for CountryCode {
    fn as_ref(&self) -> (r: &str)
        ensures
            ({
                let t: &str = r;
                t@ == bytes_as_chars(self.view())
            }),
    {
        self.as_str()
    }
}


// ---------------------------------------------------------------- laws

/// The text of an assigned country code parses back to it: for a
/// `CountryCode` `x`, `CountryCode::parse(x.as_str())` gives `x` again.
pub proof fn law_country_code_text_round_trip(b: Seq<u8>, r: Result<CountryCode, CountryCodeError>)
    requires
        country_valid(b),
    ensures
        country_parse_outcome(bytes_as_chars(b), r) <==> (r matches Ok(c) && c.view() == b),
{
    assert forall|i: int| 0 <= i < b.len() implies (48 <= #[trigger] b[i] <= 57 || 65 <= b[i]
        <= 90) by {
        assert(is_upper_byte(b[i]));
    }
    crate::text::lemma_alnum_text(b);
    assert(country_normalize(bytes_as_chars(b)) == Ok::<Seq<u8>, CountryCodeError>(b));
}

// ---------------------------------------------------------------- the standard

/// The alpha-2 codes that ISO 3166-1 assigns, by their two letters.
pub open spec fn iso3166_assigned(first: char, second: char) -> bool {
    match first {
        'A' => second == 'D' || second == 'E' || second == 'F' || second == 'G' || second == 'I'
            || second == 'L' || second == 'M' || second == 'O' || second == 'Q' || second == 'R'
            || second == 'S' || second == 'T' || second == 'U' || second == 'W' || second == 'X'
            || second == 'Z',
        'B' => second == 'A' || second == 'B' || second == 'D' || second == 'E' || second == 'F'
            || second == 'G' || second == 'H' || second == 'I' || second == 'J' || second == 'L'
            || second == 'M' || second == 'N' || second == 'O' || second == 'Q' || second == 'R'
            || second == 'S' || second == 'T' || second == 'V' || second == 'W' || second == 'Y'
            || second == 'Z',
        'C' => second == 'A' || second == 'C' || second == 'D' || second == 'F' || second == 'G'
            || second == 'H' || second == 'I' || second == 'K' || second == 'L' || second == 'M'
            || second == 'N' || second == 'O' || second == 'R' || second == 'U' || second == 'V'
            || second == 'W' || second == 'X' || second == 'Y' || second == 'Z',
        'D' => second == 'E' || second == 'J' || second == 'K' || second == 'M' || second == 'O'
            || second == 'Z',
        'E' => second == 'C' || second == 'E' || second == 'G' || second == 'H' || second == 'R'
            || second == 'S' || second == 'T',
        'F' => second == 'I' || second == 'J' || second == 'K' || second == 'M' || second == 'O'
            || second == 'R',
        'G' => second == 'A' || second == 'B' || second == 'D' || second == 'E' || second == 'F'
            || second == 'G' || second == 'H' || second == 'I' || second == 'L' || second == 'M'
            || second == 'N' || second == 'P' || second == 'Q' || second == 'R' || second == 'S'
            || second == 'T' || second == 'U' || second == 'W' || second == 'Y',
        'H' => second == 'K' || second == 'M' || second == 'N' || second == 'R' || second == 'T'
            || second == 'U',
        'I' => second == 'D' || second == 'E' || second == 'L' || second == 'M' || second == 'N'
            || second == 'O' || second == 'Q' || second == 'R' || second == 'S' || second == 'T',
        'J' => second == 'E' || second == 'M' || second == 'O' || second == 'P',
        'K' => second == 'E' || second == 'G' || second == 'H' || second == 'I' || second == 'M'
            || second == 'N' || second == 'P' || second == 'R' || second == 'W' || second == 'Y'
            || second == 'Z',
        'L' => second == 'A' || second == 'B' || second == 'C' || second == 'I' || second == 'K'
            || second == 'R' || second == 'S' || second == 'T' || second == 'U' || second == 'V'
            || second == 'Y',
        'M' => second == 'A' || second == 'C' || second == 'D' || second == 'E' || second == 'F'
            || second == 'G' || second == 'H' || second == 'K' || second == 'L' || second == 'M'
            || second == 'N' || second == 'O' || second == 'P' || second == 'Q' || second == 'R'
            || second == 'S' || second == 'T' || second == 'U' || second == 'V' || second == 'W'
            || second == 'X' || second == 'Y' || second == 'Z',
        'N' => second == 'A' || second == 'C' || second == 'E' || second == 'F' || second == 'G'
            || second == 'I' || second == 'L' || second == 'O' || second == 'P' || second == 'R'
            || second == 'U' || second == 'Z',
        'O' => second == 'M',
        'P' => second == 'A' || second == 'E' || second == 'F' || second == 'G' || second == 'H'
            || second == 'K' || second == 'L' || second == 'M' || second == 'N' || second == 'R'
            || second == 'S' || second == 'T' || second == 'W' || second == 'Y',
        'Q' => second == 'A',
        'R' => second == 'E' || second == 'O' || second == 'S' || second == 'U' || second == 'W',
        'S' => second == 'A' || second == 'B' || second == 'C' || second == 'D' || second == 'E'
            || second == 'G' || second == 'H' || second == 'I' || second == 'J' || second == 'K'
            || second == 'L' || second == 'M' || second == 'N' || second == 'O' || second == 'R'
            || second == 'S' || second == 'T' || second == 'V' || second == 'X' || second == 'Y'
            || second == 'Z',
        'T' => second == 'C' || second == 'D' || second == 'F' || second == 'G' || second == 'H'
            || second == 'J' || second == 'K' || second == 'L' || second == 'M' || second == 'N'
            || second == 'O' || second == 'R' || second == 'T' || second == 'V' || second == 'W'
            || second == 'Z',
        'U' => second == 'A' || second == 'G' || second == 'M' || second == 'S' || second == 'Y'
            || second == 'Z',
        'V' => second == 'A' || second == 'C' || second == 'E' || second == 'G' || second == 'I'
            || second == 'N' || second == 'U',
        'W' => second == 'F' || second == 'S',
        'Y' => second == 'E' || second == 'T',
        'Z' => second == 'A' || second == 'M' || second == 'W',
        _ => false,
    }
}

/// The registry assigns exactly the codes that ISO 3166-1 assigns.
pub proof fn law_country_codes_are_the_standards(first: u8, second: u8)
    ensures
        country_assigned(first, second) <==> iso3166_assigned(first as char, second as char),
{
}

} // verus!
