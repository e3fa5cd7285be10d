//! ISO 10383 Market Identifier Codes.
use vstd::prelude::*;
use crate::text::{
    all_ascii_chars, ascii_str, bytes_as_chars, bytes_eq_str, debug_tuple, debug_tuple_string,
    decimal, find_non_ascii, first_non_ascii, push_char, push_decimal, trimmed, trimmed_chars,
    upper_ascii_array, upper_bytes, lemma_alnum_text,
};
use super::common::{byte_is_digit, byte_is_upper, is_alnum_byte};
use super::country_code::{CountryCode, country_valid};

verus! {

/// What the registry records about a MIC.
#[derive(Debug, Clone, Copy, PartialEq, Eq)]
pub struct MicEntry {
    /// The operating MIC this code belongs to (the code itself for an
    /// operating MIC, the operator's code for a market segment).
    pub operating: [u8; 4],
    /// The ISO 3166-1 country of the market (`ZZ` where none applies).
    pub country: [u8; 2],
    /// Whether the registry lists the code as active rather than expired.
    pub active: bool,
}

/// The registry entry of a code, if the code is registered.
pub open spec fn mic_registry(a: u8, b: u8, c: u8, d: u8) -> Option<MicEntry> {
    match (a, b, c, d) {
        (51, 54, 48, 84) => Some(MicEntry { operating: [51, 54, 48, 84], country: [68, 69], active: true }),
        (65, 76, 68, 80) => Some(MicEntry { operating: [65, 76, 68, 80], country: [85, 83], active: false }),
        (65, 82, 67, 88) => Some(MicEntry { operating: [88, 78, 89, 83], country: [85, 83], active: true }),
        (66, 86, 77, 70) => Some(MicEntry { operating: [66, 86, 77, 70], country: [66, 82], active: true }),
        (88, 65, 77, 83) => Some(MicEntry { operating: [88, 65, 77, 83], country: [78, 76], active: true }),
        (88, 65, 83, 69) => Some(MicEntry { operating: [88, 78, 89, 83], country: [85, 83], active: true }),
        (88, 65, 83, 88) => Some(MicEntry { operating: [88, 65, 83, 88], country: [65, 85], active: true }),
        (88, 66, 79, 77) => Some(MicEntry { operating: [88, 66, 79, 77], country: [73, 78], active: true }),
        (88, 66, 85, 69) => Some(MicEntry { operating: [88, 66, 85, 69], country: [65, 82], active: true }),
        (88, 67, 72, 73) => Some(MicEntry { operating: [88, 78, 89, 83], country: [85, 83], active: true }),
        (88, 69, 84, 82) => Some(MicEntry { operating: [88, 70, 82, 65], country: [68, 69], active: true }),
        (88, 70, 82, 65) => Some(MicEntry { operating: [88, 70, 82, 65], country: [68, 69], active: true }),
        (88, 72, 75, 71) => Some(MicEntry { operating: [88, 72, 75, 71], country: [72, 75], active: true }),
        (88, 74, 80, 88) => Some(MicEntry { operating: [88, 74, 80, 88], country: [74, 80], active: true }),
        (88, 74, 83, 69) => Some(MicEntry { operating: [88, 74, 83, 69], country: [90, 65], active: true }),
        (88, 75, 82, 88) => Some(MicEntry { operating: [88, 75, 82, 88], country: [75, 82], active: true }),
        (88, 76, 79, 77) => Some(MicEntry { operating: [88, 76, 79, 78], country: [71, 66], active: true }),
        (88, 76, 79, 78) => Some(MicEntry { operating: [88, 76, 79, 78], country: [71, 66], active: true }),
        (88, 77, 65, 68) => Some(MicEntry { operating: [88, 77, 65, 68], country: [69, 83], active: true }),
        (88, 77, 69, 88) => Some(MicEntry { operating: [88, 77, 69, 88], country: [77, 88], active: true }),
        (88, 77, 73, 76) => Some(MicEntry { operating: [88, 77, 73, 76], country: [73, 84], active: true }),
        (88, 78, 65, 83) => Some(MicEntry { operating: [88, 78, 65, 83], country: [85, 83], active: true }),
        (88, 78, 67, 77) => Some(MicEntry { operating: [88, 78, 65, 83], country: [85, 83], active: true }),
        (88, 78, 71, 83) => Some(MicEntry { operating: [88, 78, 65, 83], country: [85, 83], active: true }),
        (88, 78, 77, 83) => Some(MicEntry { operating: [88, 78, 65, 83], country: [85, 83], active: true }),
        (88, 78, 83, 69) => Some(MicEntry { operating: [88, 78, 83, 69], country: [73, 78], active: true }),
        (88, 78, 89, 83) => Some(MicEntry { operating: [88, 78, 89, 83], country: [85, 83], active: true }),
        (88, 79, 70, 70) => Some(MicEntry { operating: [88, 79, 70, 70], country: [90, 90], active: true }),
        (88, 80, 65, 82) => Some(MicEntry { operating: [88, 80, 65, 82], country: [70, 82], active: true }),
        (88, 83, 69, 83) => Some(MicEntry { operating: [88, 83, 69, 83], country: [83, 71], active: true }),
        (88, 83, 72, 69) => Some(MicEntry { operating: [88, 83, 72, 69], country: [67, 78], active: true }),
        (88, 83, 72, 71) => Some(MicEntry { operating: [88, 83, 72, 71], country: [67, 78], active: true }),
        (88, 83, 87, 88) => Some(MicEntry { operating: [88, 83, 87, 88], country: [67, 72], active: true }),
        (88, 84, 75, 83) => Some(MicEntry { operating: [88, 74, 80, 88], country: [74, 80], active: true }),
        (88, 84, 83, 69) => Some(MicEntry { operating: [88, 84, 83, 69], country: [67, 65], active: true }),
        (88, 88, 88, 88) => Some(MicEntry { operating: [88, 88, 88, 88], country: [90, 90], active: true }),
        _ => None,
    }
}

pub open spec fn mic_lookup(code: Seq<u8>) -> Option<MicEntry> {
    mic_registry(code[0], code[1], code[2], code[3])
}

/// Looks a code up in the registry.
pub fn find(candidate: [u8; 4]) -> (r: Option<MicEntry>)
    ensures
        r == mic_lookup(candidate@),
{
    let a = candidate[0];
    let b = candidate[1];
    let c = candidate[2];
    let d = candidate[3];
    match (a, b, c, d) {
        (51, 54, 48, 84) => Some(MicEntry { operating: [51, 54, 48, 84], country: [68, 69], active: true }),
        (65, 76, 68, 80) => Some(MicEntry { operating: [65, 76, 68, 80], country: [85, 83], active: false }),
        (65, 82, 67, 88) => Some(MicEntry { operating: [88, 78, 89, 83], country: [85, 83], active: true }),
        (66, 86, 77, 70) => Some(MicEntry { operating: [66, 86, 77, 70], country: [66, 82], active: true }),
        (88, 65, 77, 83) => Some(MicEntry { operating: [88, 65, 77, 83], country: [78, 76], active: true }),
        (88, 65, 83, 69) => Some(MicEntry { operating: [88, 78, 89, 83], country: [85, 83], active: true }),
        (88, 65, 83, 88) => Some(MicEntry { operating: [88, 65, 83, 88], country: [65, 85], active: true }),
        (88, 66, 79, 77) => Some(MicEntry { operating: [88, 66, 79, 77], country: [73, 78], active: true }),
        (88, 66, 85, 69) => Some(MicEntry { operating: [88, 66, 85, 69], country: [65, 82], active: true }),
        (88, 67, 72, 73) => Some(MicEntry { operating: [88, 78, 89, 83], country: [85, 83], active: true }),
        (88, 69, 84, 82) => Some(MicEntry { operating: [88, 70, 82, 65], country: [68, 69], active: true }),
        (88, 70, 82, 65) => Some(MicEntry { operating: [88, 70, 82, 65], country: [68, 69], active: true }),
        (88, 72, 75, 71) => Some(MicEntry { operating: [88, 72, 75, 71], country: [72, 75], active: true }),
        (88, 74, 80, 88) => Some(MicEntry { operating: [88, 74, 80, 88], country: [74, 80], active: true }),
        (88, 74, 83, 69) => Some(MicEntry { operating: [88, 74, 83, 69], country: [90, 65], active: true }),
        (88, 75, 82, 88) => Some(MicEntry { operating: [88, 75, 82, 88], country: [75, 82], active: true }),
        (88, 76, 79, 77) => Some(MicEntry { operating: [88, 76, 79, 78], country: [71, 66], active: true }),
        (88, 76, 79, 78) => Some(MicEntry { operating: [88, 76, 79, 78], country: [71, 66], active: true }),
        (88, 77, 65, 68) => Some(MicEntry { operating: [88, 77, 65, 68], country: [69, 83], active: true }),
        (88, 77, 69, 88) => Some(MicEntry { operating: [88, 77, 69, 88], country: [77, 88], active: true }),
        (88, 77, 73, 76) => Some(MicEntry { operating: [88, 77, 73, 76], country: [73, 84], active: true }),
        (88, 78, 65, 83) => Some(MicEntry { operating: [88, 78, 65, 83], country: [85, 83], active: true }),
        (88, 78, 67, 77) => Some(MicEntry { operating: [88, 78, 65, 83], country: [85, 83], active: true }),
        (88, 78, 71, 83) => Some(MicEntry { operating: [88, 78, 65, 83], country: [85, 83], active: true }),
        (88, 78, 77, 83) => Some(MicEntry { operating: [88, 78, 65, 83], country: [85, 83], active: true }),
        (88, 78, 83, 69) => Some(MicEntry { operating: [88, 78, 83, 69], country: [73, 78], active: true }),
        (88, 78, 89, 83) => Some(MicEntry { operating: [88, 78, 89, 83], country: [85, 83], active: true }),
        (88, 79, 70, 70) => Some(MicEntry { operating: [88, 79, 70, 70], country: [90, 90], active: true }),
        (88, 80, 65, 82) => Some(MicEntry { operating: [88, 80, 65, 82], country: [70, 82], active: true }),
        (88, 83, 69, 83) => Some(MicEntry { operating: [88, 83, 69, 83], country: [83, 71], active: true }),
        (88, 83, 72, 69) => Some(MicEntry { operating: [88, 83, 72, 69], country: [67, 78], active: true }),
        (88, 83, 72, 71) => Some(MicEntry { operating: [88, 83, 72, 71], country: [67, 78], active: true }),
        (88, 83, 87, 88) => Some(MicEntry { operating: [88, 83, 87, 88], country: [67, 72], active: true }),
        (88, 84, 75, 83) => Some(MicEntry { operating: [88, 74, 80, 88], country: [74, 80], active: true }),
        (88, 84, 83, 69) => Some(MicEntry { operating: [88, 84, 83, 69], country: [67, 65], active: true }),
        (88, 88, 88, 88) => Some(MicEntry { operating: [88, 88, 88, 88], country: [90, 90], active: true }),
        _ => None,
    }
}

/// A registered MIC, stored as four uppercase ASCII letters or digits.
#[derive(Clone, Copy, PartialEq, Eq, PartialOrd, Ord, Hash, Debug)]
pub struct Mic {
    bytes: [u8; 4],
}

#[derive(Debug, PartialEq, Eq)]
pub enum MicError {
    Empty,
    InvalidLength { found: usize },
    InvalidCharacter { character: char, position: u8 },
    Unregistered { code: String },
}

// ---------------------------------------------------------------- model

pub open spec fn mic_classes_ok(b: Seq<u8>) -> bool {
    forall|i: int| 0 <= i < 4 ==> is_alnum_byte(#[trigger] b[i])
}

pub open spec fn mic_first_bad(b: Seq<u8>, i: int) -> bool {
    &&& 0 <= i < 4
    &&& !is_alnum_byte(b[i])
    &&& forall|j: int| 0 <= j < i ==> is_alnum_byte(#[trigger] b[j])
}

/// Four bytes that are uppercase letters or digits and registered.
pub open spec fn mic_valid(b: Seq<u8>) -> bool {
    b.len() == 4 && mic_classes_ok(b) && mic_lookup(b) is Some
}

/// `e` is the error that validating the (invalid) bytes `b` reports.
pub open spec fn mic_error_for(b: Seq<u8>, e: MicError) -> bool {
    if !mic_classes_ok(b) {
        let i = choose|i: int| mic_first_bad(b, i);
        e == MicError::InvalidCharacter { character: b[i] as char, position: (i + 1) as u8 }
    } else {
        e matches MicError::Unregistered { code } && code@ == bytes_as_chars(b)
    }
}

/// The outcome of normalizing user input: trim, require four ASCII
/// characters, uppercase.
pub open spec fn mic_normalize(s: Seq<char>) -> Result<Seq<u8>, MicError> {
    if s.len() == 0 {
        Err(MicError::Empty)
    } else {
        let t = trimmed(s);
        if t.len() != 4 {
            Err(MicError::InvalidLength { found: t.len() as usize })
        } else if !all_ascii_chars(t) {
            let i = first_non_ascii(t);
            Err(MicError::InvalidCharacter { character: t[i], position: (i + 1) as u8 })
        } else {
            Ok(upper_bytes(t))
        }
    }
}

/// `r` is what building a MIC from the bytes `b` gives.
pub open spec fn mic_from_bytes_outcome(b: Seq<u8>, r: Result<Mic, MicError>) -> bool {
    if mic_valid(b) {
        r matches Ok(m) && m.view() == b
    } else {
        r matches Err(e) && mic_error_for(b, e)
    }
}

/// `r` is what parsing the input `s` gives.
pub open spec fn mic_parse_outcome(s: Seq<char>, r: Result<Mic, MicError>) -> bool {
    match mic_normalize(s) {
        Err(e) => r == Err::<Mic, MicError>(e),
        Ok(b) => mic_from_bytes_outcome(b, r),
    }
}

proof fn lemma_first_bad_unique(b: Seq<u8>, i: int)
    requires
        mic_first_bad(b, i),
    ensures
        (choose|k: int| mic_first_bad(b, k)) == i,
{
    let k = choose|k: int| mic_first_bad(b, k);
    assert(mic_first_bad(b, k));
    if k < i {
        assert(is_alnum_byte(b[k]));
    } else if k > i {
        assert(is_alnum_byte(b[i]));
    }
}

// ---------------------------------------------------------------- code

pub fn validate_character_classes(candidate: [u8; 4]) -> (r: Result<(), MicError>)
    ensures
        mic_classes_ok(candidate@) ==> r is Ok,
        !mic_classes_ok(candidate@) ==> (r matches Err(e) && mic_error_for(candidate@, e)),
{
    let mut i: usize = 0;
    while i < 4
        invariant
            i <= 4,
            forall|j: int| 0 <= j < i ==> is_alnum_byte(#[trigger] candidate@[j]),
        decreases 4 - i,
    {
        let byte = candidate[i];
        if !byte_is_upper(byte) && !byte_is_digit(byte) {
            proof {
                lemma_first_bad_unique(candidate@, i as int);
            }
            return Err(MicError::InvalidCharacter { character: byte as char, position: (i + 1) as u8 });
        }
        i = i + 1;
    }
    Ok(())
}

/// The code as an owned string (all bytes are ASCII).
fn code_string(candidate: [u8; 4]) -> (s: String)
    requires
        mic_classes_ok(candidate@),
    ensures
        s@ == bytes_as_chars(candidate@),
{
    let mut s = String::new();
    push_char(&mut s, candidate[0] as char);
    push_char(&mut s, candidate[1] as char);
    push_char(&mut s, candidate[2] as char);
    push_char(&mut s, candidate[3] as char);
    assert(s@ =~= bytes_as_chars(candidate@));
    s
}

pub fn validate_membership(candidate: [u8; 4]) -> (r: Result<MicEntry, MicError>)
    requires
        mic_classes_ok(candidate@),
    ensures
        mic_lookup(candidate@) matches Some(e) ==> r == Ok::<MicEntry, MicError>(e),
        mic_lookup(candidate@) is None ==> (r matches Err(MicError::Unregistered { code })
            && code@ == bytes_as_chars(candidate@)),
{
    match find(candidate) {
        Some(entry) => Ok(entry),
        None => Err(MicError::Unregistered { code: code_string(candidate) }),
    }
}

/// Checks the character classes, then registration; returns the registry
/// entry.
pub fn validate(candidate: [u8; 4]) -> (r: Result<MicEntry, MicError>)
    ensures
        mic_valid(candidate@) ==> r == Ok::<MicEntry, MicError>(mic_lookup(candidate@)->Some_0),
        !mic_valid(candidate@) ==> (r matches Err(e) && mic_error_for(candidate@, e)),
{
    validate_character_classes(candidate)?;
    validate_membership(candidate)
}

/// Trims the input and checks that four ASCII characters remain; returns
/// them uppercased.
pub fn normalize(input: &str) -> (r: Result<[u8; 4], MicError>)
    ensures
        match mic_normalize(input@) {
            Ok(b) => r matches Ok(a) && a@ == b,
            Err(e) => r == Err::<[u8; 4], MicError>(e),
        },
{
    if input.unicode_len() == 0 {
        return Err(MicError::Empty);
    }
    let t = trimmed_chars(input);
    let found = t.len();
    if found != 4 {
        return Err(MicError::InvalidLength { found });
    }
    match find_non_ascii(&t) {
        Some(i) => Err(MicError::InvalidCharacter { character: t[i], position: (i + 1) as u8 }),
        None => Ok(upper_ascii_array::<4>(&t)),
    }
}

impl Mic {
    #[verifier::type_invariant]
    spec fn well_formed(self) -> bool {
        mic_valid(self.bytes@)
    }

    /// The four characters of the code.
    pub closed spec fn view(self) -> Seq<u8> {
        self.bytes@
    }

    /// The registry entry of this MIC.
    pub open spec fn entry(self) -> MicEntry {
        mic_lookup(self.view())->Some_0
    }

    /// Parses user input: surrounding whitespace is trimmed and letters are
    /// uppercased before checking the registry.
    pub fn parse(input: &str) -> (r: Result<Self, MicError>)
        ensures
            mic_parse_outcome(input@, r),
    {
        match normalize(input) {
            Err(e) => Err(e),
            Ok(candidate) => Self::from_bytes(candidate),
        }
    }

    /// Alias for [`Mic::parse`].
    pub fn new(input: &str) -> (r: Result<Self, MicError>)
        ensures
            mic_parse_outcome(input@, r),
    {
        Self::parse(input)
    }

    /// Validates four bytes that are already normalized against the registry.
    pub fn from_bytes(bytes: [u8; 4]) -> (r: Result<Self, MicError>)
        ensures
            mic_from_bytes_outcome(bytes@, r),
    {
        match validate(bytes) {
            Err(e) => Err(e),
            Ok(_) => Ok(Mic { bytes }),
        }
    }

    pub fn as_bytes(&self) -> (r: &[u8; 4])
        ensures
            r@ == self.view(),
            mic_valid(r@),
    {
        proof {
            use_type_invariant(self);
        }
        &self.bytes
    }

    pub fn as_str(&self) -> (r: &str)
        ensures
            r@ == bytes_as_chars(self.view()),
    {
        proof {
            use_type_invariant(self);
        }
        ascii_str(self.bytes.as_slice())
    }

    fn lookup(&self) -> (r: MicEntry)
        ensures
            mic_valid(self.view()),
            r == self.entry(),
    {
        proof {
            use_type_invariant(self);
        }
        match find(self.bytes) {
            Some(e) => e,
            None => MicEntry { operating: self.bytes, country: [90, 90], active: false },
        }
    }

    /// Whether the registry lists the code as active (not expired).
    pub fn is_active(&self) -> (r: bool)
        ensures
            r == self.entry().active,
    {
        self.lookup().active
    }

    /// The operating MIC of this code: itself for an operating MIC, the
    /// operator for a market segment.
    pub fn operating_mic(&self) -> (r: Mic)
        ensures
            mic_valid(self.entry().operating@) ==> r.view() == self.entry().operating@,
            !mic_valid(self.entry().operating@) ==> r.view() == self.view(),
    {
        let entry = self.lookup();
        match validate(entry.operating) {
            Ok(_) => Mic { bytes: entry.operating },
            Err(_) => *self,
        }
    }

    /// Whether this code is an operating MIC (its own operator).
    pub fn is_operating(&self) -> (r: bool)
        ensures
            r == (self.operating_mic_spec() == self.view()),
    {
        let op = self.operating_mic();
        let r = op.bytes[0] == self.bytes[0] && op.bytes[1] == self.bytes[1] && op.bytes[2]
            == self.bytes[2] && op.bytes[3] == self.bytes[3];
        proof {
            if r {
                assert(op.bytes@ =~= self.bytes@);
            }
        }
        r
    }

    /// The code of the operating MIC.
    pub open spec fn operating_mic_spec(self) -> Seq<u8> {
        if mic_valid(self.entry().operating@) {
            self.entry().operating@
        } else {
            self.view()
        }
    }

    /// Whether this code is a segment of another operating MIC.
    pub fn is_segment(&self) -> (r: bool)
        ensures
            r == (self.operating_mic_spec() != self.view()),
    {
        !self.is_operating()
    }

    /// The country of the market, when it is an assigned ISO 3166-1 code.
    pub fn country_code(&self) -> (r: Option<CountryCode>)
        ensures
            country_valid(self.entry().country@) <==> r is Some,
            r matches Some(c) ==> c.view() == self.entry().country@,
    {
        match CountryCode::from_bytes(self.lookup().country) {
            Ok(c) => Some(c),
            Err(_) => None,
        }
    }
}

/// The text of a MIC error.
pub open spec fn mic_error_message(e: MicError) -> Seq<char> {
    match e {
        MicError::Empty => "MIC cannot be empty"@,
        MicError::InvalidLength { found } => "MIC must be exactly four characters long; found "@
            + decimal(found as nat),
        MicError::InvalidCharacter { character, position } => "MIC must only contain uppercase ASCII letters and decimal digits; found "@
            + seq![character] + " at position "@ + decimal(position as nat),
        MicError::Unregistered { code } => "MIC "@ + code@ + " is not registered in ISO 10383"@,
    }
}

impl MicError {
    /// The human-readable text of the error, as `Display` prints it.
    pub fn to_string(&self) -> (msg: String)
        ensures
            msg@ == mic_error_message(*self),
    {
        match self {
            MicError::Empty => String::from_str("MIC cannot be empty"),
            MicError::InvalidLength { found } => {
                let mut s = String::from_str("MIC must be exactly four characters long; found ");
                push_decimal(&mut s, *found as u64);
                s
            },
            MicError::InvalidCharacter { character, position } => {
                let mut s = String::from_str(
                    "MIC must only contain uppercase ASCII letters and decimal digits; found ",
                );
                push_char(&mut s, *character);
                s.append(" at position ");
                push_decimal(&mut s, *position as u64);
                s
            },
            MicError::Unregistered { code } => {
                let mut s = String::from_str("MIC ");
                s.append(code.as_str());
                s.append(" is not registered in ISO 10383");
                s
            },
        }
    }
}

impl core::str::FromStr for Mic {
    type Err = MicError;

    fn from_str(s: &str) -> (r: Result<Self, Self::Err>)
        ensures
            mic_parse_outcome(s@, r),
    {
        Self::parse(s)
    }
}

impl<'a> TryFrom<&'a str> for Mic {
    type Error = MicError;

    fn try_from(value: &'a str) -> (r: Result<Self, Self::Error>)
        ensures
            mic_parse_outcome(value@, r),
    {
        Self::parse(value)
    }
}

impl TryFrom<[u8; 4]> for Mic {
    type Error = MicError;

    fn try_from(value: [u8; 4]) -> (r: Result<Self, Self::Error>)
        ensures
            mic_from_bytes_outcome(value@, r),
    {
        Self::from_bytes(value)
    }
}

// The error of an unregistered code holds a `String`, which has no exact
// specification value; the conversions promise what `parse` and
// `from_bytes` promise, and no `try_from_spec` equality.
impl<'a> vstd::std_specs::convert::TryFromSpecImpl<&'a str> for Mic {
    open spec fn obeys_try_from_spec() -> bool {
        false
    }

    open spec fn try_from_spec(v: &'a str) -> Result<Self, Self::Error> {
        choose|r: Result<Mic, MicError>| mic_parse_outcome(v@, r)
    }
}

impl vstd::std_specs::convert::TryFromSpecImpl<[u8; 4]> for Mic {
    open spec fn obeys_try_from_spec() -> bool {
        false
    }

    open spec fn try_from_spec(v: [u8; 4]) -> Result<Self, Self::Error> {
        choose|r: Result<Mic, MicError>| mic_from_bytes_outcome(v@, r)
    }
}

impl<'a> vstd::std_specs::convert::TryFromSpecImpl<&'a [u8]> for Mic {
    open spec fn obeys_try_from_spec() -> bool {
        false
    }

    open spec fn try_from_spec(v: &'a [u8]) -> Result<Self, Self::Error> {
        choose|r: Result<Mic, MicError>| v@.len() == 4 && mic_from_bytes_outcome(v@, r)
    }
}

impl<'a> TryFrom<&'a [u8]> for Mic {
    type Error = MicError;

    fn try_from(value: &'a [u8]) -> (r: Result<Self, Self::Error>)
        ensures
            value@.len() != 4 ==> r == Err::<Mic, MicError>(
                MicError::InvalidLength { found: value@.len() as usize },
            ),
            value@.len() == 4 ==> mic_from_bytes_outcome(value@, r),
    {
        if value.len() != 4 {
            return Err(MicError::InvalidLength { found: value.len() });
        }
        let bytes = [value[0], value[1], value[2], value[3]];
        assert(bytes@ =~= value@);
        Self::from_bytes(bytes)
    }
}

impl Mic {
    /// The canonical form, as `Display` prints it.
    pub fn to_string(&self) -> (s: String)
        ensures
            s@ == bytes_as_chars(self.view()),
    {
        String::from_str(self.as_str())
    }

    /// `Mic("…")`, as `Debug` prints it.
    pub fn debug_string(&self) -> (s: String)
        ensures
            s@ == debug_tuple("Mic"@, bytes_as_chars(self.view())),
    {
        debug_tuple_string("Mic", self.as_str())
    }
}

impl PartialEq<str> for Mic {
    fn eq(&self, other: &str) -> (r: bool) {
        bytes_eq_str(self.as_bytes().as_slice(), other)
    }
}

impl vstd::std_specs::cmp::PartialEqSpecImpl<str> for Mic {
    open spec fn obeys_eq_spec() -> bool {
        true
    }

    open spec fn eq_spec(&self, other: &str) -> bool {
        bytes_as_chars(self.view()) == other@
    }
}

impl<'a> PartialEq<&'a str> for Mic {
    fn eq(&self, other: &&'a str) -> (r: bool) {
        bytes_eq_str(self.as_bytes().as_slice(), *other)
    }
}

impl<'a> vstd::std_specs::cmp::PartialEqSpecImpl<&'a str> for Mic {
    open spec fn obeys_eq_spec() -> bool {
        true
    }

    open spec fn eq_spec(&self, other: &&'a str) -> bool {
        bytes_as_chars(self.view()) == other@
    }
}

impl PartialEq<Mic> for str {
    fn eq(&self, other: &Mic) -> (r: bool) {
        bytes_eq_str(other.as_bytes().as_slice(), self)
    }
}

impl vstd::std_specs::cmp::PartialEqSpecImpl<Mic> for str {
    open spec fn obeys_eq_spec() -> bool {
        true
    }

    open spec fn eq_spec(&self, other: &Mic) -> bool {
        bytes_as_chars(other.view()) == self@
    }
}

impl<'a> PartialEq<Mic> for &'a str {
    fn eq(&self, other: &Mic) -> (r: bool) {
        bytes_eq_str(other.as_bytes().as_slice(), *self)
    }
}

impl<'a> vstd::std_specs::cmp::PartialEqSpecImpl<Mic> for &'a str {
    open spec fn obeys_eq_spec() -> bool {
        true
    }

    open spec fn eq_spec(&self, other: &Mic) -> bool {
        bytes_as_chars(other.view()) == self@
    }
}

impl AsRef<[u8]> for Mic {
    fn as_ref(&self) -> (r: &[u8])
        ensures
            ({
                let b: &[u8] = r;
                b@ == self.view()
            }),
    {
        self.as_bytes().as_slice()
    }
}

impl AsRef<str> for Mic {
    fn as_ref(&self) -> (r: &str)
        ensures
            ({
                let t: &str = r;
                t@ == bytes_as_chars(self.view())
            }),
    {
        self.as_str()
    }
}


// ---------------------------------------------------------------- laws

/// The text of a registered MIC parses back to it: for a `Mic` `x`,
/// `Mic::parse(x.as_str())` gives `x` again.
pub proof fn law_mic_text_round_trip(b: Seq<u8>, r: Result<Mic, MicError>)
    requires
        mic_valid(b),
    ensures
        mic_parse_outcome(bytes_as_chars(b), r) <==> (r matches Ok(m) && m.view() == b),
{
    assert forall|i: int| 0 <= i < b.len() implies (48 <= #[trigger] b[i] <= 57 || 65 <= b[i]
        <= 90) by {
        assert(is_alnum_byte(b[i]));
    }
    lemma_alnum_text(b);
    assert(mic_normalize(bytes_as_chars(b)) == Ok::<Seq<u8>, MicError>(b));
}

// ---------------------------------------------------------------- the registry

/// The ISO 10383 codes that this library ships, each with its operating MIC,
/// the country of its market (`ZZ` where none applies) and whether the
/// registry lists it as active.
pub open spec fn iso10383_entry(code: (char, char, char, char)) -> Option<
    ((char, char, char, char), (char, char), bool),
> {
    match code {
        ('3', '6', '0', 'T') => Some((('3', '6', '0', 'T'), ('D', 'E'), true)),
        ('A', 'L', 'D', 'P') => Some((('A', 'L', 'D', 'P'), ('U', 'S'), false)),
        ('A', 'R', 'C', 'X') => Some((('X', 'N', 'Y', 'S'), ('U', 'S'), true)),
        ('B', 'V', 'M', 'F') => Some((('B', 'V', 'M', 'F'), ('B', 'R'), true)),
        ('X', 'A', 'M', 'S') => Some((('X', 'A', 'M', 'S'), ('N', 'L'), true)),
        ('X', 'A', 'S', 'E') => Some((('X', 'N', 'Y', 'S'), ('U', 'S'), true)),
        ('X', 'A', 'S', 'X') => Some((('X', 'A', 'S', 'X'), ('A', 'U'), true)),
        ('X', 'B', 'O', 'M') => Some((('X', 'B', 'O', 'M'), ('I', 'N'), true)),
        ('X', 'B', 'U', 'E') => Some((('X', 'B', 'U', 'E'), ('A', 'R'), true)),
        ('X', 'C', 'H', 'I') => Some((('X', 'N', 'Y', 'S'), ('U', 'S'), true)),
        ('X', 'E', 'T', 'R') => Some((('X', 'F', 'R', 'A'), ('D', 'E'), true)),
        ('X', 'F', 'R', 'A') => Some((('X', 'F', 'R', 'A'), ('D', 'E'), true)),
        ('X', 'H', 'K', 'G') => Some((('X', 'H', 'K', 'G'), ('H', 'K'), true)),
        ('X', 'J', 'P', 'X') => Some((('X', 'J', 'P', 'X'), ('J', 'P'), true)),
        ('X', 'J', 'S', 'E') => Some((('X', 'J', 'S', 'E'), ('Z', 'A'), true)),
        ('X', 'K', 'R', 'X') => Some((('X', 'K', 'R', 'X'), ('K', 'R'), true)),
        ('X', 'L', 'O', 'M') => Some((('X', 'L', 'O', 'N'), ('G', 'B'), true)),
        ('X', 'L', 'O', 'N') => Some((('X', 'L', 'O', 'N'), ('G', 'B'), true)),
        ('X', 'M', 'A', 'D') => Some((('X', 'M', 'A', 'D'), ('E', 'S'), true)),
        ('X', 'M', 'E', 'X') => Some((('X', 'M', 'E', 'X'), ('M', 'X'), true)),
        ('X', 'M', 'I', 'L') => Some((('X', 'M', 'I', 'L'), ('I', 'T'), true)),
        ('X', 'N', 'A', 'S') => Some((('X', 'N', 'A', 'S'), ('U', 'S'), true)),
        ('X', 'N', 'C', 'M') => Some((('X', 'N', 'A', 'S'), ('U', 'S'), true)),
        ('X', 'N', 'G', 'S') => Some((('X', 'N', 'A', 'S'), ('U', 'S'), true)),
        ('X', 'N', 'M', 'S') => Some((('X', 'N', 'A', 'S'), ('U', 'S'), true)),
        ('X', 'N', 'S', 'E') => Some((('X', 'N', 'S', 'E'), ('I', 'N'), true)),
        ('X', 'N', 'Y', 'S') => Some((('X', 'N', 'Y', 'S'), ('U', 'S'), true)),
        ('X', 'O', 'F', 'F') => Some((('X', 'O', 'F', 'F'), ('Z', 'Z'), true)),
        ('X', 'P', 'A', 'R') => Some((('X', 'P', 'A', 'R'), ('F', 'R'), true)),
        ('X', 'S', 'E', 'S') => Some((('X', 'S', 'E', 'S'), ('S', 'G'), true)),
        ('X', 'S', 'H', 'E') => Some((('X', 'S', 'H', 'E'), ('C', 'N'), true)),
        ('X', 'S', 'H', 'G') => Some((('X', 'S', 'H', 'G'), ('C', 'N'), true)),
        ('X', 'S', 'W', 'X') => Some((('X', 'S', 'W', 'X'), ('C', 'H'), true)),
        ('X', 'T', 'K', 'S') => Some((('X', 'J', 'P', 'X'), ('J', 'P'), true)),
        ('X', 'T', 'S', 'E') => Some((('X', 'T', 'S', 'E'), ('C', 'A'), true)),
        ('X', 'X', 'X', 'X') => Some((('X', 'X', 'X', 'X'), ('Z', 'Z'), true)),
        _ => None,
    }
}

/// The registry holds exactly the listed ISO 10383 codes, each with the
/// operating MIC, country and status that the list gives.
pub proof fn law_mic_registry_is_the_list(a: u8, b: u8, c: u8, d: u8)
    ensures
        match iso10383_entry((a as char, b as char, c as char, d as char)) {
            None => mic_registry(a, b, c, d) is None,
            Some((operating, country, active)) => mic_registry(a, b, c, d) matches Some(e) && {
                &&& e.active == active
                &&& operating == (
                    e.operating[0] as char,
                    e.operating[1] as char,
                    e.operating[2] as char,
                    e.operating[3] as char,
                )
                &&& (e.country[0] as char, e.country[1] as char) == country
            },
        },
{
}

/// Four bytes make a valid MIC exactly when they spell a code on the list.
pub proof fn law_mic_valid_iff_listed(b: Seq<u8>)
    requires
        b.len() == 4,
    ensures
        mic_valid(b) <==> iso10383_entry((b[0] as char, b[1] as char, b[2] as char, b[3] as char)) is Some,
{
    law_mic_registry_is_the_list(b[0], b[1], b[2], b[3]);
    if iso10383_entry((b[0] as char, b[1] as char, b[2] as char, b[3] as char)) is Some {
        assert(is_alnum_byte(b[0]) && is_alnum_byte(b[1]) && is_alnum_byte(b[2]) && is_alnum_byte(b[3]));
        assert forall|i: int| 0 <= i < 4 implies is_alnum_byte(#[trigger] b[i]) by {
            if i == 0 {} else if i == 1 {} else if i == 2 {} else {}
        }
    }
}

} // verus!
