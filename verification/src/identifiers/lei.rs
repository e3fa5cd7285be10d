//! ISO 17442 Legal Entity Identifier.
use vstd::prelude::*;
use crate::text::{
    all_ascii_chars, ascii_str, bytes_as_chars, bytes_eq_str, debug_tuple, debug_tuple_string,
    decimal, find_non_ascii, first_non_ascii, push_decimal, trimmed, trimmed_chars,
    upper_ascii_array, upper_bytes, all_alnum_upper, lemma_alnum_text,
};
use super::common::{
    CharacterClass, alnum_value, byte_is_digit, byte_is_upper, is_alnum_byte, is_digit_byte,
    is_upper_byte,
};

verus! {

/// Length of the part of an LEI that the check digits are computed over.
pub const BASE_LEN: usize = 18;

/// A validated LEI: eighteen alphanumeric characters (a four-character LOU
/// prefix and the entity part) and two MOD 97-10 check digits.
#[derive(Clone, Copy, PartialEq, Eq, PartialOrd, Ord, Hash, Debug)]
pub struct Lei {
    bytes: [u8; 20],
}

#[derive(Debug, PartialEq, Eq, Structural)]
#[allow(inconsistent_fields)]
pub enum LeiError {
    Empty,
    InvalidLength { found: usize },
    InvalidCharacter { character: char, position: u8, expected: CharacterClass },
    InvalidCheckDigits { expected: u8, found: u8 },
}

// ---------------------------------------------------------------- model

/// Which class ISO 17442 expects at a position: eighteen alphanumeric
/// characters, then two check digits.
pub open spec fn lei_expected_class(i: int) -> CharacterClass {
    if i < 18 {
        CharacterClass::Alphanumeric
    } else {
        CharacterClass::Digit
    }
}

pub open spec fn lei_class_ok(i: int, b: u8) -> bool {
    if i < 18 {
        is_alnum_byte(b)
    } else {
        is_digit_byte(b)
    }
}

pub open spec fn lei_classes_ok(b: Seq<u8>) -> bool {
    forall|i: int| 0 <= i < 20 ==> lei_class_ok(i, #[trigger] b[i])
}

/// `i` is the first position whose byte is outside its expected class.
pub open spec fn lei_first_bad(b: Seq<u8>, i: int) -> bool {
    &&& 0 <= i < 20
    &&& !lei_class_ok(i, b[i])
    &&& forall|j: int| 0 <= j < i ==> lei_class_ok(j, #[trigger] b[j])
}

pub open spec fn lei_check_classes(b: Seq<u8>) -> Result<(), LeiError> {
    if lei_classes_ok(b) {
        Ok(())
    } else {
        let i = choose|i: int| lei_first_bad(b, i);
        Err(
            LeiError::InvalidCharacter {
                character: b[i] as char,
                position: (i + 1) as u8,
                expected: lei_expected_class(i),
            },
        )
    }
}

/// One MOD 97 folding step on a remainder below 97: a digit shifts the
/// remainder one decimal place, any other character two places, and its
/// value is added.
pub open spec fn lei_fold_step(r: u32, c: u8) -> u32 {
    if is_digit_byte(c) {
        (((r as int) * 10 + alnum_value(c)) % 97) as u32
    } else {
        (((r as int) * 100 + alnum_value(c)) % 97) as u32
    }
}

/// The remainder modulo 97 of the digit string of `b`, starting from `r`.
pub open spec fn lei_fold(r: u32, b: Seq<u8>) -> u32
    decreases b.len(),
{
    if b.len() == 0 {
        r
    } else {
        lei_fold_step(lei_fold(r, b.drop_last()), b.last())
    }
}

/// The two check digits ISO 17442 computes for an eighteen-character base:
/// `98 - (base * 100 mod 97)`.
pub open spec fn lei_check_digits(base: Seq<u8>) -> int {
    98 - ((lei_fold(0, base) as int) * 100) % 97
}

/// Two ASCII digit bytes read as a number (saturating at 255, as `u8` does).
pub open spec fn lei_digit_pair(tens: u8, ones: u8) -> u8 {
    let t = ((tens - 48) % 256) as int;
    let o = ((ones - 48) % 256) as int;
    let m = if t * 10 > 255 { 255 } else { t * 10 };
    (if m + o > 255 { 255 } else { m + o }) as u8
}

pub open spec fn lei_check_digits_of(b: Seq<u8>) -> Result<(), LeiError> {
    let expected = lei_check_digits(b.subrange(0, 18));
    let found = lei_digit_pair(b[18], b[19]);
    if expected == found {
        Ok(())
    } else {
        Err(LeiError::InvalidCheckDigits { expected: expected as u8, found })
    }
}

/// The outcome of validating twenty bytes as an LEI.
pub open spec fn lei_validate(b: Seq<u8>) -> Result<(), LeiError> {
    match lei_check_classes(b) {
        Err(e) => Err(e),
        Ok(_) => lei_check_digits_of(b),
    }
}

pub open spec fn lei_valid(b: Seq<u8>) -> bool {
    b.len() == 20 && lei_validate(b) is Ok
}

/// The outcome of normalizing user input: trim, require twenty ASCII
/// characters, uppercase.
pub open spec fn lei_normalize(s: Seq<char>) -> Result<Seq<u8>, LeiError> {
    if s.len() == 0 {
        Err(LeiError::Empty)
    } else {
        let t = trimmed(s);
        if t.len() != 20 {
            Err(LeiError::InvalidLength { found: t.len() as usize })
        } else if !all_ascii_chars(t) {
            let i = first_non_ascii(t);
            Err(
                LeiError::InvalidCharacter {
                    character: t[i],
                    position: (i + 1) as u8,
                    expected: lei_expected_class(i),
                },
            )
        } else {
            Ok(upper_bytes(t))
        }
    }
}

/// The outcome of parsing user input: the bytes of the LEI, or the error.
pub open spec fn lei_parse(s: Seq<char>) -> Result<Seq<u8>, LeiError> {
    match lei_normalize(s) {
        Err(e) => Err(e),
        Ok(b) => match lei_validate(b) {
            Err(e) => Err(e),
            Ok(_) => Ok(b),
        },
    }
}

// ---------------------------------------------------------------- proofs

proof fn lemma_first_bad_unique(b: Seq<u8>, i: int)
    requires
        lei_first_bad(b, i),
    ensures
        (choose|k: int| lei_first_bad(b, k)) == i,
{
    let k = choose|k: int| lei_first_bad(b, k);
    assert(lei_first_bad(b, k));
    if k < i {
        assert(lei_class_ok(k, b[k]));
    } else if k > i {
        assert(lei_class_ok(i, b[i]));
    }
}

proof fn lemma_fold_push(r: u32, b: Seq<u8>, i: int)
    requires
        0 < i <= b.len(),
    ensures
        lei_fold(r, b.subrange(0, i)) == lei_fold_step(lei_fold(r, b.subrange(0, i - 1)), b[i - 1]),
{
    assert(b.subrange(0, i).drop_last() =~= b.subrange(0, i - 1));
}

// ---------------------------------------------------------------- code

/// Continues a MOD 97 remainder over the digit string of `bytes`.
pub fn fold_mod_97(rem: u32, bytes: &[u8]) -> (r: u32)
    requires
        rem < 97,
    ensures
        r == lei_fold(rem, bytes@),
        r < 97,
{
    let mut acc = rem;
    let mut i: usize = 0;
    assert(bytes@.subrange(0, 0) =~= Seq::<u8>::empty());
    while i < bytes.len()
        invariant
            i <= bytes@.len(),
            acc < 97,
            acc == lei_fold(rem, bytes@.subrange(0, i as int)),
        decreases bytes@.len() - i,
    {
        let c = bytes[i];
        proof {
            lemma_fold_push(rem, bytes@, i + 1);
        }
        if byte_is_digit(c) {
            let digit = (c - 48) as u32;
            acc = acc.wrapping_mul(10).wrapping_add(digit) % 97;
        } else {
            let value = (c.wrapping_sub(65).wrapping_add(10)) as u32;
            assert(value == (c + 201) % 256) by (bit_vector)
                requires
                    value == (c.wrapping_sub(65).wrapping_add(10)) as u32,
            ;
            assert(value == alnum_value(c));
            acc = acc.wrapping_mul(100).wrapping_add(value) % 97;
        }
        i = i + 1;
    }
    assert(bytes@.subrange(0, bytes@.len() as int) =~= bytes@);
    acc
}

/// The ISO 17442 check digits of an eighteen-character base.
pub fn compute_check_digits(base: &[u8; 18]) -> (r: u8)
    ensures
        r == lei_check_digits(base@),
{
    let rem = fold_mod_97(0, base.as_slice());
    assert(rem < 97);
    let rem2 = (rem * 100) % 97;
    (98 - rem2) as u8
}

/// Interprets two ASCII digit bytes as a base-10 value.
pub fn digit_pair_value(tens: u8, ones: u8) -> (r: u8)
    ensures
        r == lei_digit_pair(tens, ones),
{
    let t = tens.wrapping_sub(48);
    let o = ones.wrapping_sub(48);
    assert(t == ((tens - 48) % 256) as u8 && o == ((ones - 48) % 256) as u8) by (bit_vector)
        requires
            t == tens.wrapping_sub(48),
            o == ones.wrapping_sub(48),
    ;
    let m: u8 = if t > 25 {
        255
    } else {
        t * 10
    };
    if m as u16 + o as u16 > 255 {
        255
    } else {
        m + o
    }
}

/// Which class ISO 17442 expects at a (0-based) position.
pub fn expected_class(position_index: usize) -> (r: CharacterClass)
    ensures
        r == lei_expected_class(position_index as int),
{
    if position_index < BASE_LEN {
        CharacterClass::Alphanumeric
    } else {
        CharacterClass::Digit
    }
}

pub fn validate_character_classes(candidate: &[u8; 20]) -> (r: Result<(), LeiError>)
    ensures
        r == lei_check_classes(candidate@),
{
    let mut i: usize = 0;
    while i < 20
        invariant
            i <= 20,
            forall|j: int| 0 <= j < i ==> lei_class_ok(j, #[trigger] candidate@[j]),
        decreases 20 - i,
    {
        let byte = candidate[i];
        let is_valid = if i < BASE_LEN {
            byte_is_digit(byte) || byte_is_upper(byte)
        } else {
            byte_is_digit(byte)
        };
        if !is_valid {
            proof {
                lemma_first_bad_unique(candidate@, i as int);
            }
            return Err(
                LeiError::InvalidCharacter {
                    character: byte as char,
                    position: (i + 1) as u8,
                    expected: expected_class(i),
                },
            );
        }
        i = i + 1;
    }
    Ok(())
}

pub fn validate_check_digits(candidate: &[u8; 20]) -> (r: Result<(), LeiError>)
    ensures
        r == lei_check_digits_of(candidate@),
{
    let c = candidate;
    let base: [u8; 18] = [
        c[0], c[1], c[2], c[3], c[4], c[5], c[6], c[7], c[8], c[9], c[10], c[11], c[12], c[13],
        c[14], c[15], c[16], c[17],
    ];
    assert(base@ =~= candidate@.subrange(0, 18));
    let expected = compute_check_digits(&base);
    let found = digit_pair_value(c[18], c[19]);
    if expected == found {
        Ok(())
    } else {
        Err(LeiError::InvalidCheckDigits { expected, found })
    }
}

/// Validates twenty bytes as an LEI: character classes first, then the
/// check digits.
pub fn validate(candidate: &[u8; 20]) -> (r: Result<(), LeiError>)
    ensures
        r == lei_validate(candidate@),
{
    match validate_character_classes(candidate) {
        Err(e) => Err(e),
        Ok(()) => validate_check_digits(candidate),
    }
}

/// Trims the input and checks that twenty ASCII characters remain; returns
/// them uppercased.
pub fn normalize(input: &str) -> (r: Result<[u8; 20], LeiError>)
    ensures
        match lei_normalize(input@) {
            Ok(b) => r matches Ok(a) && a@ == b,
            Err(e) => r == Err::<[u8; 20], LeiError>(e),
        },
{
    if input.unicode_len() == 0 {
        return Err(LeiError::Empty);
    }
    let t = trimmed_chars(input);
    let found = t.len();
    if found != 20 {
        return Err(LeiError::InvalidLength { found });
    }
    match find_non_ascii(&t) {
        Some(i) => Err(
            LeiError::InvalidCharacter {
                character: t[i],
                position: (i + 1) as u8,
                expected: expected_class(i),
            },
        ),
        None => Ok(upper_ascii_array::<20>(&t)),
    }
}

impl Lei {
    #[verifier::type_invariant]
    spec fn well_formed(self) -> bool {
        lei_valid(self.bytes@)
    }

    /// The twenty bytes, e.g. `5493000IBP32UQZ0KL24`.
    pub closed spec fn view(self) -> Seq<u8> {
        self.bytes@
    }

    /// Parses user input: surrounding whitespace is trimmed and letters are
    /// uppercased before validation.
    pub fn parse(input: &str) -> (r: Result<Self, LeiError>)
        ensures
            match lei_parse(input@) {
                Ok(b) => r matches Ok(x) && x.view() == b,
                Err(e) => r == Err::<Lei, LeiError>(e),
            },
    {
        match normalize(input) {
            Err(e) => Err(e),
            Ok(candidate) => Self::from_bytes(candidate),
        }
    }

    /// Alias for [`Lei::parse`].
    pub fn new(input: &str) -> (r: Result<Self, LeiError>)
        ensures
            match lei_parse(input@) {
                Ok(b) => r matches Ok(x) && x.view() == b,
                Err(e) => r == Err::<Lei, LeiError>(e),
            },
    {
        Self::parse(input)
    }

    /// Validates bytes that are already normalized.
    pub fn from_bytes(bytes: [u8; 20]) -> (r: Result<Self, LeiError>)
        ensures
            match lei_validate(bytes@) {
                Ok(_) => r matches Ok(x) && x.view() == bytes@,
                Err(e) => r == Err::<Lei, LeiError>(e),
            },
    {
        match validate(&bytes) {
            Err(e) => Err(e),
            Ok(()) => Ok(Lei { bytes }),
        }
    }

    pub fn as_bytes(&self) -> (r: &[u8; 20])
        ensures
            r@ == self.view(),
            lei_valid(r@),
    {
        proof {
            use_type_invariant(self);
        }
        &self.bytes
    }

    pub fn as_str(&self) -> (r: &str)
        ensures
            r@ == bytes_as_chars(self.view()),
    {
        proof {
            use_type_invariant(self);
            assert forall|i: int| 0 <= i < 20 implies self.bytes@[i] < 128 by {
                assert(lei_class_ok(i, self.bytes@[i]));
            }
        }
        ascii_str(self.bytes.as_slice())
    }

    /// The four-character prefix of the issuing Local Operating Unit.
    pub fn lou_prefix(&self) -> (r: &str)
        ensures
            r@ == bytes_as_chars(self.view().subrange(0, 4)),
    {
        let s = self.as_str();
        proof {
            use_type_invariant(self);
            assert forall|i: int| 0 <= i < s@.len() implies '\0' <= #[trigger] s@[i] <= '\u{7f}' by {
                assert(lei_class_ok(i, self.bytes@[i]));
            }
        }
        let r = s.substring_ascii(0, 4);
        assert(r@ =~= bytes_as_chars(self.view().subrange(0, 4)));
        r
    }

    /// The entity-specific characters between the prefix and the check digits.
    pub fn entity_id(&self) -> (r: &str)
        ensures
            r@ == bytes_as_chars(self.view().subrange(4, 18)),
    {
        let s = self.as_str();
        proof {
            use_type_invariant(self);
            assert forall|i: int| 0 <= i < s@.len() implies '\0' <= #[trigger] s@[i] <= '\u{7f}' by {
                assert(lei_class_ok(i, self.bytes@[i]));
            }
        }
        let r = s.substring_ascii(4, BASE_LEN);
        assert(r@ =~= bytes_as_chars(self.view().subrange(4, 18)));
        r
    }

    /// The value of the two trailing check digits.
    pub fn check_digits(&self) -> (r: u8)
        ensures
            r == lei_digit_pair(self.view()[18], self.view()[19]),
    {
        digit_pair_value(self.bytes[18], self.bytes[19])
    }

    /// The check digits recomputed from the first eighteen characters.
    pub fn computed_check_digits(&self) -> (r: u8)
        ensures
            r == lei_check_digits(self.view().subrange(0, 18)),
    {
        let c = &self.bytes;
        let base: [u8; 18] = [
            c[0], c[1], c[2], c[3], c[4], c[5], c[6], c[7], c[8], c[9], c[10], c[11], c[12],
            c[13], c[14], c[15], c[16], c[17],
        ];
        assert(base@ =~= c@.subrange(0, 18));
        compute_check_digits(&base)
    }
}

/// The text of an LEI error.
pub open spec fn lei_error_message(e: LeiError) -> Seq<char> {
    match e {
        LeiError::Empty => "LEI cannot be empty"@,
        LeiError::InvalidLength { found } => "LEI must be 20 characters long, found "@ + decimal(found as nat),
        LeiError::InvalidCharacter { character, position, expected } =>
            "LEI must contain only alphanumeric characters, found '"@ + seq![character]
            + "' at position "@ + decimal(position as nat) + ". Expected "@ + expected.describe_spec(),
        LeiError::InvalidCheckDigits { expected, found } => "LEI must have valid check digits, found "@
            + decimal(found as nat) + ", expected "@ + decimal(expected as nat),
    }
}

impl LeiError {
    /// The human-readable text of the error, as `Display` prints it.
    pub fn to_string(&self) -> (msg: String)
        ensures
            msg@ == lei_error_message(*self),
    {
        match self {
            LeiError::Empty => String::from_str("LEI cannot be empty"),
            LeiError::InvalidLength { found } => {
                let mut s = String::from_str("LEI must be 20 characters long, found ");
                push_decimal(&mut s, *found as u64);
                s
            },
            LeiError::InvalidCharacter { character, position, expected } => {
                let mut s = String::from_str(
                    "LEI must contain only alphanumeric characters, found '",
                );
                crate::text::push_char(&mut s, *character);
                s.append("' at position ");
                push_decimal(&mut s, *position as u64);
                s.append(". Expected ");
                s.append(expected.describe());
                s
            },
            LeiError::InvalidCheckDigits { expected, found } => {
                let mut s = String::from_str("LEI must have valid check digits, found ");
                push_decimal(&mut s, *found as u64);
                s.append(", expected ");
                push_decimal(&mut s, *expected as u64);
                s
            },
        }
    }
}

impl Lei {
    /// The canonical form, as `Display` prints it.
    pub fn to_string(&self) -> (s: String)
        ensures
            s@ == bytes_as_chars(self.view()),
    {
        String::from_str(self.as_str())
    }

    /// `Lei("…")`, as `Debug` prints it.
    pub fn debug_string(&self) -> (s: String)
        ensures
            s@ == debug_tuple("Lei"@, bytes_as_chars(self.view())),
    {
        debug_tuple_string("Lei", self.as_str())
    }
}

impl core::str::FromStr for Lei {
    type Err = LeiError;

    fn from_str(s: &str) -> (r: Result<Self, Self::Err>)
        ensures
            match lei_parse(s@) {
                Ok(b) => (r matches Ok(x) && x.view() == b),
                Err(e) => r == Err::<Lei, LeiError>(e),
            },
    {
        Self::parse(s)
    }
}

impl Lei {
    /// The value `try_from` on input text gives.
    pub closed spec fn parsed(s: Seq<char>) -> Result<Lei, LeiError> {
        match lei_parse(s) {
            Ok(b) => Ok(Lei { bytes: choose|a: [u8; 20]| #[trigger] a@ == b }),
            Err(e) => Err(e),
        }
    }

    /// The value `try_from` on 20 bytes gives.
    pub closed spec fn checked(v: [u8; 20]) -> Result<Lei, LeiError> {
        match lei_validate(v@) {
            Ok(_) => Ok(Lei { bytes: v }),
            Err(e) => Err(e),
        }
    }

    /// The value `try_from` on a byte slice gives.
    pub closed spec fn checked_slice(v: Seq<u8>) -> Result<Lei, LeiError> {
        if v.len() != 20 {
            Err(LeiError::InvalidLength { found: v.len() as usize })
        } else {
            match lei_validate(v) {
                Ok(_) => Ok(Lei { bytes: choose|a: [u8; 20]| #[trigger] a@ == v }),
                Err(e) => Err(e),
            }
        }
    }
}

impl<'a> TryFrom<&'a str> for Lei {
    type Error = LeiError;

    fn try_from(value: &'a str) -> (r: Result<Self, Self::Error>) {
        let r = Self::parse(value);
        proof {
            if let Ok(b) = lei_parse(value@) {
                let x = r->Ok_0;
                assert(x.bytes@ == b);
                let a = choose|a: [u8; 20]| #[trigger] a@ == b;
                assert(a@ == b);
                assert(a =~= x.bytes);
            }
        }
        r
    }
}

impl<'a> vstd::std_specs::convert::TryFromSpecImpl<&'a str> for Lei {
    open spec fn obeys_try_from_spec() -> bool {
        true
    }

    open spec fn try_from_spec(v: &'a str) -> Result<Self, Self::Error> {
        Lei::parsed(v@)
    }
}

impl TryFrom<[u8; 20]> for Lei {
    type Error = LeiError;

    fn try_from(value: [u8; 20]) -> (r: Result<Self, Self::Error>) {
        let r = Self::from_bytes(value);
        proof {
            if let Ok(x) = r {
                assert(x.bytes =~= value);
            }
        }
        r
    }
}

impl vstd::std_specs::convert::TryFromSpecImpl<[u8; 20]> for Lei {
    open spec fn obeys_try_from_spec() -> bool {
        true
    }

    open spec fn try_from_spec(v: [u8; 20]) -> Result<Self, Self::Error> {
        Lei::checked(v)
    }
}

impl<'a> TryFrom<&'a [u8]> for Lei {
    type Error = LeiError;

    fn try_from(value: &'a [u8]) -> (r: Result<Self, Self::Error>) {
        if value.len() != 20 {
            return Err(LeiError::InvalidLength { found: value.len() });
        }
        let bytes: [u8; 20] = [
            value[0],
            value[1],
            value[2],
            value[3],
            value[4],
            value[5],
            value[6],
            value[7],
            value[8],
            value[9],
            value[10],
            value[11],
            value[12],
            value[13],
            value[14],
            value[15],
            value[16],
            value[17],
            value[18],
            value[19],
        ];
        assert(bytes@ =~= value@);
        let r = Self::from_bytes(bytes);
        proof {
            if let Ok(x) = r {
                let a = choose|a: [u8; 20]| #[trigger] a@ == value@;
                assert(a@ == x.bytes@);
                assert(a =~= x.bytes);
            }
        }
        r
    }
}

impl<'a> vstd::std_specs::convert::TryFromSpecImpl<&'a [u8]> for Lei {
    open spec fn obeys_try_from_spec() -> bool {
        true
    }

    open spec fn try_from_spec(v: &'a [u8]) -> Result<Self, Self::Error> {
        Lei::checked_slice(v@)
    }
}

impl PartialEq<str> for Lei {
    fn eq(&self, other: &str) -> (r: bool) {
        bytes_eq_str(self.as_bytes().as_slice(), other)
    }
}

impl vstd::std_specs::cmp::PartialEqSpecImpl<str> for Lei {
    open spec fn obeys_eq_spec() -> bool {
        true
    }

    open spec fn eq_spec(&self, other: &str) -> bool {
        bytes_as_chars(self.view()) == other@
    }
}

impl<'a> PartialEq<&'a str> for Lei {
    fn eq(&self, other: &&'a str) -> (r: bool) {
        bytes_eq_str(self.as_bytes().as_slice(), *other)
    }
}

impl<'a> vstd::std_specs::cmp::PartialEqSpecImpl<&'a str> for Lei {
    open spec fn obeys_eq_spec() -> bool {
        true
    }

    open spec fn eq_spec(&self, other: &&'a str) -> bool {
        bytes_as_chars(self.view()) == other@
    }
}

impl PartialEq<Lei> for str {
    fn eq(&self, other: &Lei) -> (r: bool) {
        bytes_eq_str(other.as_bytes().as_slice(), self)
    }
}

impl vstd::std_specs::cmp::PartialEqSpecImpl<Lei> for str {
    open spec fn obeys_eq_spec() -> bool {
        true
    }

    open spec fn eq_spec(&self, other: &Lei) -> bool {
        bytes_as_chars(other.view()) == self@
    }
}

impl<'a> PartialEq<Lei> for &'a str {
    fn eq(&self, other: &Lei) -> (r: bool) {
        bytes_eq_str(other.as_bytes().as_slice(), *self)
    }
}

impl<'a> vstd::std_specs::cmp::PartialEqSpecImpl<Lei> for &'a str {
    open spec fn obeys_eq_spec() -> bool {
        true
    }

    open spec fn eq_spec(&self, other: &Lei) -> bool {
        bytes_as_chars(other.view()) == self@
    }
}

impl AsRef<[u8]> for Lei {
    fn as_ref(&self) -> (r: &[u8])
        ensures
            ({
                let b: &[u8] = r;
                b@ == self.view()
            }),
    {
        self.as_bytes().as_slice()
    }
}

impl AsRef<str> for Lei {
    fn as_ref(&self) -> (r: &str)
        ensures
            ({
                let t: &str = r;
                t@ == bytes_as_chars(self.view())
            }),
    {
        self.as_str()
    }
}


// ---------------------------------------------------------------- laws

/// The text of a valid LEI parses back to it: for a `Lei` `x`,
/// `Lei::parse(x.as_str())` gives `x` again.
pub proof fn law_lei_text_round_trip(b: Seq<u8>)
    requires
        lei_valid(b),
    ensures
        lei_parse(bytes_as_chars(b)) == Ok::<Seq<u8>, LeiError>(b),
{
    assert(lei_classes_ok(b));
    assert forall|i: int| 0 <= i < b.len() implies (48 <= #[trigger] b[i] <= 57 || 65 <= b[i]
        <= 90) by {
        assert(lei_class_ok(i, b[i]));
    }
    lemma_alnum_text(b);
}

proof fn lemma_fold_below_97(b: Seq<u8>)
    ensures
        lei_fold(0, b) < 97,
    decreases b.len(),
{
    if b.len() > 0 {
        lemma_fold_below_97(b.drop_last());
    }
}

proof fn lemma_digit_step(r: u32, c: u8)
    requires
        r < 97,
        is_digit_byte(c),
    ensures
        lei_fold_step(r, c) as int == ((r as int) * 10 + (c - 48)) % 97,
{
}

proof fn lemma_two_digit_steps(f: int, t: int, o: int)
    requires
        0 <= f < 97,
        0 <= t <= 9,
        0 <= o <= 9,
    ensures
        (((f * 10 + t) % 97) * 10 + o) % 97 == (f * 100 + t * 10 + o) % 97,
{
    let x = f * 10 + t;
    vstd::arithmetic::div_mod::lemma_mul_mod_noop_left(x, 10, 97);
    vstd::arithmetic::div_mod::lemma_add_mod_noop((x % 97) * 10, o, 97);
    vstd::arithmetic::div_mod::lemma_add_mod_noop(x * 10, o, 97);
    assert(x * 10 == f * 100 + t * 10) by (nonlinear_arith)
        requires
            x == f * 10 + t,
    ;
}

/// The MOD 97-10 residue of twenty well-formed characters: the base's
/// residue shifted two places, plus the number the check digits spell.
#[verifier::spinoff_prover]
#[verifier::rlimit(40)]
proof fn lemma_residue_of_candidate(b: Seq<u8>)
    requires
        b.len() == 20,
        lei_classes_ok(b),
    ensures
        lei_fold(0, b) as int == ((lei_fold(0, b.subrange(0, 18)) as int) * 100
            + lei_digit_pair(b[18], b[19])) % 97,
{
    let base = b.subrange(0, 18);
    assert(b.drop_last().drop_last() =~= base);
    assert(lei_class_ok(18, b[18]));
    assert(lei_class_ok(19, b[19]));
    let f = lei_fold(0, base);
    lemma_fold_below_97(base);
    lemma_fold_below_97(b.drop_last());
    assert(lei_fold(0, b.drop_last()) == lei_fold_step(f, b[18]));
    assert(lei_fold(0, b) == lei_fold_step(lei_fold(0, b.drop_last()), b[19]));
    lemma_digit_step(f, b[18]);
    lemma_digit_step(lei_fold(0, b.drop_last()), b[19]);
    lemma_two_digit_steps(f as int, (b[18] - 48) as int, (b[19] - 48) as int);
}

/// ISO 17442 validity is the MOD 97-10 check: a well-formed LEI is valid
/// exactly when the residue of all twenty characters is 1 and its check
/// digits lie in `02..=98` (the residue alone also admits `00`, `01` and
/// `99`, which the standard never issues).
#[verifier::spinoff_prover]
#[verifier::rlimit(40)]
pub proof fn law_lei_valid_iff_residue_one(b: Seq<u8>)
    requires
        b.len() == 20,
        lei_classes_ok(b),
    ensures
        lei_valid(b) <==> (lei_fold(0, b) == 1 && 2 <= lei_digit_pair(b[18], b[19]) <= 98),
{
    let base = b.subrange(0, 18);
    let f = lei_fold(0, base) as int;
    lemma_fold_below_97(base);
    lemma_residue_of_candidate(b);
    assert(lei_class_ok(18, b[18]));
    assert(lei_class_ok(19, b[19]));
    let cd = lei_digit_pair(b[18], b[19]) as int;
    assert(cd == (b[18] - 48) * 10 + (b[19] - 48));
    let m = (f * 100) % 97;
    vstd::arithmetic::div_mod::lemma_fundamental_div_mod(f * 100, 97);
    let q = (f * 100) / 97;
    assert(f * 100 == 97 * q + m);
    assert(0 <= m < 97);
    vstd::arithmetic::div_mod::lemma_mod_multiples_vanish(q, m + cd, 97);
    assert((f * 100 + cd) % 97 == (m + cd) % 97);
    assert(lei_check_digits(base) == 98 - m);
    if m + cd == 98 {
        assert((m + cd) % 97 == 1);
    }
    if (m + cd) % 97 == 1 && 2 <= cd <= 98 {
        assert(m + cd == 98);
    }
}

/// Appending the computed check digits, as two decimal digits, to a
/// well-formed eighteen-character base makes a valid LEI.
#[verifier::spinoff_prover]
#[verifier::rlimit(40)]
pub proof fn law_lei_check_digits_complete(base: Seq<u8>)
    requires
        base.len() == 18,
        forall|i: int| 0 <= i < 18 ==> is_alnum_byte(#[trigger] base[i]),
    ensures
        lei_valid(base.push((48 + lei_check_digits(base) / 10) as u8).push(
            (48 + lei_check_digits(base) % 10) as u8,
        )),
{
    let cd = lei_check_digits(base);
    let b = base.push((48 + cd / 10) as u8).push((48 + cd % 10) as u8);
    lemma_fold_below_97(base);
    assert(2 <= cd <= 98);
    assert(b.subrange(0, 18) =~= base);
    assert forall|i: int| 0 <= i < 20 implies lei_class_ok(i, #[trigger] b[i]) by {
        if i < 18 {
            assert(b[i] == base[i]);
        }
    }
    assert(lei_digit_pair(b[18], b[19]) == cd);
}

} // verus!
