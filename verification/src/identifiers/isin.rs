//! ISO 6166 International Securities Identification Number.
use vstd::prelude::*;
use crate::text::{
    bytes_eq_str, debug_tuple, debug_tuple_string, decimal, message_with_number, push_decimal,
    all_ascii_chars, ascii_str, bytes_as_chars, find_non_ascii, first_non_ascii, trimmed,
    trimmed_chars, upper_ascii_array, upper_bytes, all_alnum_upper, lemma_alnum_text,
};
use super::country_code::{CountryCode, country_valid};
use super::common::{
    CharacterClass, alnum_value, byte_is_digit, byte_is_upper, is_alnum_byte, is_digit_byte,
    is_upper_byte,
};

verus! {

/// Length of the part of an ISIN that the check digit is computed over.
pub const BASE_LEN: usize = 11;

/// A validated ISIN: two-letter country prefix, nine alphanumeric NSIN
/// characters and a Luhn check digit, stored as uppercase ASCII.
#[derive(Clone, Copy, PartialEq, Eq, PartialOrd, Ord, Hash, Debug)]
pub struct Isin {
    bytes: [u8; 12],
}

#[derive(Debug, PartialEq, Eq, Structural)]
#[allow(inconsistent_fields)]
pub enum IsinError {
    Empty,
    InvalidLength { found: usize },
    InvalidCharacter { character: char, position: u8, expected: CharacterClass },
    InvalidCheckDigit { expected: u8, found: u8 },
}

// ---------------------------------------------------------------- model

/// Which class ISO 6166 expects at a position: 2 letters of country code,
/// 9 alphanumeric NSIN characters, then the check digit.
pub open spec fn isin_expected_class(i: int) -> CharacterClass {
    if i < 2 {
        CharacterClass::Letter
    } else if i < 11 {
        CharacterClass::Alphanumeric
    } else {
        CharacterClass::Digit
    }
}

pub open spec fn isin_class_ok(i: int, b: u8) -> bool {
    if i < 2 {
        is_upper_byte(b)
    } else if i < 11 {
        is_alnum_byte(b)
    } else {
        is_digit_byte(b)
    }
}

pub open spec fn isin_classes_ok(b: Seq<u8>) -> bool {
    forall|i: int| 0 <= i < 12 ==> isin_class_ok(i, #[trigger] b[i])
}

/// `i` is the first position whose byte is outside its expected class.
pub open spec fn isin_first_bad(b: Seq<u8>, i: int) -> bool {
    &&& 0 <= i < 12
    &&& !isin_class_ok(i, b[i])
    &&& forall|j: int| 0 <= j < i ==> isin_class_ok(j, #[trigger] b[j])
}

pub open spec fn isin_check_classes(b: Seq<u8>) -> Result<(), IsinError> {
    if isin_classes_ok(b) {
        Ok(())
    } else {
        let i = choose|i: int| isin_first_bad(b, i);
        Err(
            IsinError::InvalidCharacter {
                character: b[i] as char,
                position: (i + 1) as u8,
                expected: isin_expected_class(i),
            },
        )
    }
}

/// The decimal digits a base character stands for in the Luhn string:
/// a digit for itself, any other character for its value (`A = 10 .. Z = 35`)
/// written as two digits.
pub open spec fn luhn_char_digits(c: u8) -> Seq<int> {
    if is_digit_byte(c) {
        seq![c - 48]
    } else {
        seq![alnum_value(c) / 10, alnum_value(c) % 10]
    }
}

/// The Luhn digit string of a base.
pub open spec fn luhn_expand(b: Seq<u8>) -> Seq<int>
    decreases b.len(),
{
    if b.len() == 0 {
        seq![]
    } else {
        luhn_expand(b.drop_last()) + luhn_char_digits(b.last())
    }
}

/// One Luhn term: a doubled digit has its two digits summed.
pub open spec fn luhn_term(v: int, double: bool) -> int {
    if double {
        if 2 * v > 9 {
            2 * v - 9
        } else {
            2 * v
        }
    } else {
        v
    }
}

/// Luhn sum of a digit string, read from the right; the rightmost digit is
/// doubled when `double` holds and doubling alternates leftwards.
pub open spec fn luhn_sum(ds: Seq<int>, double: bool) -> int
    decreases ds.len(),
{
    if ds.len() == 0 {
        0
    } else {
        luhn_term(ds.last(), double) + luhn_sum(ds.drop_last(), !double)
    }
}

/// The check digit that, appended to `base`, makes its Luhn sum a multiple of 10.
pub open spec fn isin_check_digit(base: Seq<u8>) -> int {
    (10 - luhn_sum(luhn_expand(base), true) % 10) % 10
}

pub open spec fn isin_check_digit_of(b: Seq<u8>) -> Result<(), IsinError> {
    let expected = isin_check_digit(b.subrange(0, 11));
    let found = ((b[11] - 48) % 256) as u8;
    if expected == found {
        Ok(())
    } else {
        Err(IsinError::InvalidCheckDigit { expected: expected as u8, found })
    }
}

/// The outcome of validating twelve bytes as an ISIN.
pub open spec fn isin_validate(b: Seq<u8>) -> Result<(), IsinError> {
    match isin_check_classes(b) {
        Err(e) => Err(e),
        Ok(_) => isin_check_digit_of(b),
    }
}

pub open spec fn isin_valid(b: Seq<u8>) -> bool {
    b.len() == 12 && isin_validate(b) is Ok
}

/// The outcome of normalizing user input: trim, require twelve ASCII
/// characters, uppercase.
pub open spec fn isin_normalize(s: Seq<char>) -> Result<Seq<u8>, IsinError> {
    if s.len() == 0 {
        Err(IsinError::Empty)
    } else {
        let t = trimmed(s);
        if t.len() != 12 {
            Err(IsinError::InvalidLength { found: t.len() as usize })
        } else if !all_ascii_chars(t) {
            let i = first_non_ascii(t);
            Err(
                IsinError::InvalidCharacter {
                    character: t[i],
                    position: (i + 1) as u8,
                    expected: isin_expected_class(i),
                },
            )
        } else {
            Ok(upper_bytes(t))
        }
    }
}

/// The outcome of parsing user input: the bytes of the ISIN, or the error.
pub open spec fn isin_parse(s: Seq<char>) -> Result<Seq<u8>, IsinError> {
    match isin_normalize(s) {
        Err(e) => Err(e),
        Ok(b) => match isin_validate(b) {
            Err(e) => Err(e),
            Ok(_) => Ok(b),
        },
    }
}

// ---------------------------------------------------------------- proofs

proof fn lemma_first_bad_unique(b: Seq<u8>, i: int)
    requires
        isin_first_bad(b, i),
    ensures
        (choose|k: int| isin_first_bad(b, k)) == i,
{
    let k = choose|k: int| isin_first_bad(b, k);
    assert(isin_first_bad(b, k));
    if k < i {
        assert(isin_class_ok(k, b[k]));
    } else if k > i {
        assert(isin_class_ok(i, b[i]));
    }
}

proof fn lemma_expand_push(b: Seq<u8>, i: int)
    requires
        0 < i <= b.len(),
    ensures
        luhn_expand(b.subrange(0, i)) == luhn_expand(b.subrange(0, i - 1)) + luhn_char_digits(
            b[i - 1],
        ),
{
    assert(b.subrange(0, i).drop_last() =~= b.subrange(0, i - 1));
}

proof fn lemma_sum_push1(xs: Seq<int>, d: int, double: bool)
    ensures
        luhn_sum(xs + seq![d], double) == luhn_term(d, double) + luhn_sum(xs, !double),
{
    assert((xs + seq![d]).drop_last() =~= xs);
}

proof fn lemma_sum_push2(xs: Seq<int>, t: int, u: int, double: bool)
    ensures
        luhn_sum(xs + seq![t, u], double) == luhn_term(u, double) + luhn_term(t, !double)
            + luhn_sum(xs, double),
{
    assert((xs + seq![t, u]).drop_last() =~= xs + seq![t]);
    lemma_sum_push1(xs, t, !double);
}

// ---------------------------------------------------------------- code

/// One Luhn term.
pub fn luhn_step(value: u32, double: bool) -> (r: u32)
    requires
        value <= 100,
    ensures
        r == luhn_term(value as int, double),
{
    if double {
        let doubled = value * 2;
        if doubled > 9 {
            doubled - 9
        } else {
            doubled
        }
    } else {
        value
    }
}

/// The ISO 6166 check digit of an eleven-character base.
pub fn compute_check_digit(base: &[u8; 11]) -> (r: u8)
    ensures
        r == isin_check_digit(base@),
{
    let mut sum: u32 = 0;
    let mut double = true;
    let mut i: usize = 11;
    assert(base@.subrange(0, 11) =~= base@);
    while i > 0
        invariant
            i <= 11,
            sum <= 50 * (11 - i),
            sum + luhn_sum(luhn_expand(base@.subrange(0, i as int)), double) == luhn_sum(
                luhn_expand(base@),
                true,
            ),
        decreases i,
    {
        let c = base[i - 1];
        proof {
            lemma_expand_push(base@, i as int);
        }
        let ghost xs = luhn_expand(base@.subrange(0, i - 1));
        if byte_is_digit(c) {
            let digit = (c - 48) as u32;
            proof {
                lemma_sum_push1(xs, digit as int, double);
            }
            sum = sum + luhn_step(digit, double);
            double = !double;
        } else {
            let value = (c.wrapping_sub(65).wrapping_add(10)) as u32;
            assert(value == (c + 201) % 256) by (bit_vector)
                requires
                    value == (c.wrapping_sub(65).wrapping_add(10)) as u32,
            ;
            assert(value == alnum_value(c));
            let tens = value / 10;
            let units = value % 10;
            proof {
                lemma_sum_push2(xs, tens as int, units as int, double);
            }
            sum = sum + luhn_step(units, double);
            double = !double;
            sum = sum + luhn_step(tens, double);
            double = !double;
        }
        i = i - 1;
    }
    assert(base@.subrange(0, 0) =~= Seq::<u8>::empty());
    let remainder = sum % 10;
    ((10 - remainder) % 10) as u8
}

/// Which class ISO 6166 expects at a (0-based) position.
pub fn expected_class(position_index: usize) -> (r: CharacterClass)
    ensures
        r == isin_expected_class(position_index as int),
{
    if position_index < 2 {
        CharacterClass::Letter
    } else if position_index < BASE_LEN {
        CharacterClass::Alphanumeric
    } else {
        CharacterClass::Digit
    }
}

pub fn validate_character_classes(candidate: &[u8; 12]) -> (r: Result<(), IsinError>)
    ensures
        r == isin_check_classes(candidate@),
{
    let mut i: usize = 0;
    while i < 12
        invariant
            i <= 12,
            forall|j: int| 0 <= j < i ==> isin_class_ok(j, #[trigger] candidate@[j]),
        decreases 12 - i,
    {
        let byte = candidate[i];
        let is_valid = if i < 2 {
            byte_is_upper(byte)
        } else if i < BASE_LEN {
            byte_is_digit(byte) || byte_is_upper(byte)
        } else {
            byte_is_digit(byte)
        };
        if !is_valid {
            proof {
                lemma_first_bad_unique(candidate@, i as int);
            }
            return Err(
                IsinError::InvalidCharacter {
                    character: byte as char,
                    position: (i + 1) as u8,
                    expected: expected_class(i),
                },
            );
        }
        i = i + 1;
    }
    Ok(())
}

pub fn validate_check_digit(candidate: &[u8; 12]) -> (r: Result<(), IsinError>)
    ensures
        r == isin_check_digit_of(candidate@),
{
    let base: [u8; 11] = [
        candidate[0],
        candidate[1],
        candidate[2],
        candidate[3],
        candidate[4],
        candidate[5],
        candidate[6],
        candidate[7],
        candidate[8],
        candidate[9],
        candidate[10],
    ];
    assert(base@ =~= candidate@.subrange(0, 11));
    let expected = compute_check_digit(&base);
    let last = candidate[11];
    let found = last.wrapping_sub(48);
    assert(found == ((last - 48) % 256) as u8) by (bit_vector)
        requires
            found == last.wrapping_sub(48),
    ;
    if expected == found {
        Ok(())
    } else {
        Err(IsinError::InvalidCheckDigit { expected, found })
    }
}

/// Validates twelve bytes as an ISIN: character classes first, then the
/// check digit.
pub fn validate(candidate: &[u8; 12]) -> (r: Result<(), IsinError>)
    ensures
        r == isin_validate(candidate@),
{
    match validate_character_classes(candidate) {
        Err(e) => Err(e),
        Ok(()) => validate_check_digit(candidate),
    }
}

/// Trims the input and checks that twelve ASCII characters remain; returns
/// them uppercased.
pub fn normalize(input: &str) -> (r: Result<[u8; 12], IsinError>)
    ensures
        match isin_normalize(input@) {
            Ok(b) => r matches Ok(a) && a@ == b,
            Err(e) => r == Err::<[u8; 12], IsinError>(e),
        },
{
    if input.unicode_len() == 0 {
        return Err(IsinError::Empty);
    }
    let t = trimmed_chars(input);
    let found = t.len();
    if found != 12 {
        return Err(IsinError::InvalidLength { found });
    }
    match find_non_ascii(&t) {
        Some(i) => Err(
            IsinError::InvalidCharacter {
                character: t[i],
                position: (i + 1) as u8,
                expected: expected_class(i),
            },
        ),
        None => Ok(upper_ascii_array::<12>(&t)),
    }
}

impl Isin {
    #[verifier::type_invariant]
    spec fn well_formed(self) -> bool {
        isin_valid(self.bytes@)
    }

    /// The twelve bytes, e.g. `US0378331005`.
    pub closed spec fn view(self) -> Seq<u8> {
        self.bytes@
    }

    /// Parses user input: surrounding whitespace is trimmed and letters are
    /// uppercased before validation.
    pub fn parse(input: &str) -> (r: Result<Self, IsinError>)
        ensures
            match isin_parse(input@) {
                Ok(b) => r matches Ok(x) && x.view() == b,
                Err(e) => r == Err::<Isin, IsinError>(e),
            },
    {
        match normalize(input) {
            Err(e) => Err(e),
            Ok(candidate) => Self::from_bytes(candidate),
        }
    }

    /// Alias for [`Isin::parse`].
    pub fn new(input: &str) -> (r: Result<Self, IsinError>)
        ensures
            match isin_parse(input@) {
                Ok(b) => r matches Ok(x) && x.view() == b,
                Err(e) => r == Err::<Isin, IsinError>(e),
            },
    {
        Self::parse(input)
    }

    /// Validates bytes that are already normalized.
    pub fn from_bytes(bytes: [u8; 12]) -> (r: Result<Self, IsinError>)
        ensures
            match isin_validate(bytes@) {
                Ok(_) => r matches Ok(x) && x.view() == bytes@,
                Err(e) => r == Err::<Isin, IsinError>(e),
            },
    {
        match validate(&bytes) {
            Err(e) => Err(e),
            Ok(()) => Ok(Isin { bytes }),
        }
    }

    pub fn as_bytes(&self) -> (r: &[u8; 12])
        ensures
            r@ == self.view(),
            isin_valid(r@),
    {
        proof {
            use_type_invariant(self);
        }
        &self.bytes
    }

    pub fn as_str(&self) -> (r: &str)
        ensures
            r@ == bytes_as_chars(self.view()),
    {
        proof {
            use_type_invariant(self);
            assert forall|i: int| 0 <= i < 12 implies self.bytes@[i] < 128 by {
                assert(isin_class_ok(i, self.bytes@[i]));
            }
        }
        ascii_str(self.bytes.as_slice())
    }

    /// The two-letter country prefix.
    pub fn country_code(&self) -> (r: &str)
        ensures
            r@ == bytes_as_chars(self.view().subrange(0, 2)),
    {
        let s = self.as_str();
        proof {
            use_type_invariant(self);
            assert forall|i: int| 0 <= i < s@.len() implies '\0' <= #[trigger] s@[i] <= '\u{7f}' by {
                assert(isin_class_ok(i, self.bytes@[i]));
            }
        }
        let r = s.substring_ascii(0, 2);
        assert(r@ =~= bytes_as_chars(self.view().subrange(0, 2)));
        r
    }

    /// The country the prefix names, when ISO 3166-1 assigns it.
    pub fn country(&self) -> (r: Option<CountryCode>)
        ensures
            country_valid(self.view().subrange(0, 2)) <==> r is Some,
            r matches Some(c) ==> c.view() == self.view().subrange(0, 2),
    {
        let pair: [u8; 2] = [self.bytes[0], self.bytes[1]];
        assert(pair@ =~= self.view().subrange(0, 2));
        match CountryCode::from_bytes(pair) {
            Ok(c) => Some(c),
            Err(_) => None,
        }
    }

    /// The nine-character National Securities Identifying Number.
    pub fn nsin(&self) -> (r: &str)
        ensures
            r@ == bytes_as_chars(self.view().subrange(2, 11)),
    {
        let s = self.as_str();
        proof {
            use_type_invariant(self);
            assert forall|i: int| 0 <= i < s@.len() implies '\0' <= #[trigger] s@[i] <= '\u{7f}' by {
                assert(isin_class_ok(i, self.bytes@[i]));
            }
        }
        let r = s.substring_ascii(2, BASE_LEN);
        assert(r@ =~= bytes_as_chars(self.view().subrange(2, 11)));
        r
    }

    /// The value of the final (check) digit.
    pub fn check_digit(&self) -> (r: u8)
        ensures
            r == self.view()[11] - 48,
    {
        proof {
            use_type_invariant(self);
            assert(isin_class_ok(11, self.bytes@[11]));
        }
        self.bytes[11] - 48
    }

    /// The check digit recomputed from the first eleven characters.
    pub fn computed_check_digit(&self) -> (r: u8)
        ensures
            r == isin_check_digit(self.view().subrange(0, 11)),
    {
        let b = &self.bytes;
        let base: [u8; 11] = [b[0], b[1], b[2], b[3], b[4], b[5], b[6], b[7], b[8], b[9], b[10]];
        assert(base@ =~= b@.subrange(0, 11));
        compute_check_digit(&base)
    }
}

impl Isin {
    /// The canonical twelve-character form, as `Display` prints it.
    pub fn to_string(&self) -> (s: String)
        ensures
            s@ == bytes_as_chars(self.view()),
    {
        String::from_str(self.as_str())
    }

    /// `Isin("…")`, as `Debug` prints it.
    pub fn debug_string(&self) -> (s: String)
        ensures
            s@ == debug_tuple("Isin"@, bytes_as_chars(self.view())),
    {
        debug_tuple_string("Isin", self.as_str())
    }
}

/// The text of an ISIN error.
pub open spec fn isin_error_message(e: IsinError) -> Seq<char> {
    match e {
        IsinError::Empty => "ISIN code cannot be empty"@,
        IsinError::InvalidLength { .. } => "ISIN code must contain exactly 12 characters"@,
        IsinError::InvalidCharacter { position, .. } => "ISIN code contains an invalid character at position "@
            + decimal(position as nat),
        IsinError::InvalidCheckDigit { expected, found } => "ISIN code has an invalid check digit; expected "@
            + decimal(expected as nat) + ", found "@ + decimal(found as nat),
    }
}

impl IsinError {
    /// The human-readable text of the error, as `Display` prints it.
    pub fn to_string(&self) -> (msg: String)
        ensures
            msg@ == isin_error_message(*self),
    {
        match self {
            IsinError::Empty => String::from_str("ISIN code cannot be empty"),
            IsinError::InvalidLength { .. } => String::from_str(
                "ISIN code must contain exactly 12 characters",
            ),
            IsinError::InvalidCharacter { position, .. } => {
                let mut s = String::from_str("ISIN code contains an invalid character at position ");
                push_decimal(&mut s, *position as u64);
                s
            },
            IsinError::InvalidCheckDigit { expected, found } => {
                let mut s = message_with_number(
                    "ISIN code has an invalid check digit; expected ",
                    *expected as u64,
                    ", found ",
                );
                push_decimal(&mut s, *found as u64);
                s
            },
        }
    }
}

impl core::str::FromStr for Isin {
    type Err = IsinError;

    fn from_str(s: &str) -> (r: Result<Self, Self::Err>)
        ensures
            match isin_parse(s@) {
                Ok(b) => (r matches Ok(x) && x.view() == b),
                Err(e) => r == Err::<Isin, IsinError>(e),
            },
    {
        Self::parse(s)
    }
}

impl Isin {
    /// The value `try_from` on input text gives.
    pub closed spec fn parsed(s: Seq<char>) -> Result<Isin, IsinError> {
        match isin_parse(s) {
            Ok(b) => Ok(Isin { bytes: choose|a: [u8; 12]| #[trigger] a@ == b }),
            Err(e) => Err(e),
        }
    }

    /// The value `try_from` on twelve bytes gives.
    pub closed spec fn checked(v: [u8; 12]) -> Result<Isin, IsinError> {
        match isin_validate(v@) {
            Ok(_) => Ok(Isin { bytes: v }),
            Err(e) => Err(e),
        }
    }
}

impl<'a> TryFrom<&'a str> for Isin {
    type Error = IsinError;

    fn try_from(value: &'a str) -> (r: Result<Self, Self::Error>) {
        let r = Self::parse(value);
        proof {
            if let Ok(b) = isin_parse(value@) {
                let x = r->Ok_0;
                assert(x.bytes@ == b);
                let a = choose|a: [u8; 12]| #[trigger] a@ == b;
                assert(a@ == b);
                assert(a =~= x.bytes);
            }
        }
        r
    }
}

impl<'a> vstd::std_specs::convert::TryFromSpecImpl<&'a str> for Isin {
    open spec fn obeys_try_from_spec() -> bool {
        true
    }

    open spec fn try_from_spec(v: &'a str) -> Result<Self, Self::Error> {
        Isin::parsed(v@)
    }
}

impl TryFrom<[u8; 12]> for Isin {
    type Error = IsinError;

    fn try_from(value: [u8; 12]) -> (r: Result<Self, Self::Error>) {
        let r = Self::from_bytes(value);
        proof {
            if let Ok(x) = r {
                assert(x.bytes =~= value);
            }
        }
        r
    }
}

impl vstd::std_specs::convert::TryFromSpecImpl<[u8; 12]> for Isin {
    open spec fn obeys_try_from_spec() -> bool {
        true
    }

    open spec fn try_from_spec(v: [u8; 12]) -> Result<Self, Self::Error> {
        Isin::checked(v)
    }
}

impl<'a> TryFrom<&'a [u8]> for Isin {
    type Error = IsinError;

    fn try_from(value: &'a [u8]) -> (r: Result<Self, Self::Error>) {
        if value.len() != 12 {
            return Err(IsinError::InvalidLength { found: value.len() });
        }
        let bytes: [u8; 12] = [
            value[0],
            value[1],
            value[2],
            value[3],
            value[4],
            value[5],
            value[6],
            value[7],
            value[8],
            value[9],
            value[10],
            value[11],
        ];
        assert(bytes@ =~= value@);
        let r = Self::from_bytes(bytes);
        proof {
            if let Ok(x) = r {
                let a = choose|a: [u8; 12]| #[trigger] a@ == value@;
                assert(a@ == x.bytes@);
                assert(a =~= x.bytes);
            }
        }
        r
    }
}

impl<'a> vstd::std_specs::convert::TryFromSpecImpl<&'a [u8]> for Isin {
    open spec fn obeys_try_from_spec() -> bool {
        true
    }

    open spec fn try_from_spec(v: &'a [u8]) -> Result<Self, Self::Error> {
        Isin::checked_slice(v@)
    }
}

impl Isin {
    /// The value `try_from` on a byte slice gives.
    pub closed spec fn checked_slice(v: Seq<u8>) -> Result<Isin, IsinError> {
        if v.len() != 12 {
            Err(IsinError::InvalidLength { found: v.len() as usize })
        } else {
            match isin_validate(v) {
                Ok(_) => Ok(Isin { bytes: choose|a: [u8; 12]| #[trigger] a@ == v }),
                Err(e) => Err(e),
            }
        }
    }
}

impl PartialEq<str> for Isin {
    fn eq(&self, other: &str) -> (r: bool) {
        bytes_eq_str(self.as_bytes().as_slice(), other)
    }
}

impl vstd::std_specs::cmp::PartialEqSpecImpl<str> for Isin {
    open spec fn obeys_eq_spec() -> bool {
        true
    }

    open spec fn eq_spec(&self, other: &str) -> bool {
        bytes_as_chars(self.view()) == other@
    }
}

impl<'a> PartialEq<&'a str> for Isin {
    fn eq(&self, other: &&'a str) -> (r: bool) {
        bytes_eq_str(self.as_bytes().as_slice(), *other)
    }
}

impl<'a> vstd::std_specs::cmp::PartialEqSpecImpl<&'a str> for Isin {
    open spec fn obeys_eq_spec() -> bool {
        true
    }

    open spec fn eq_spec(&self, other: &&'a str) -> bool {
        bytes_as_chars(self.view()) == other@
    }
}

impl PartialEq<Isin> for str {
    fn eq(&self, other: &Isin) -> (r: bool) {
        bytes_eq_str(other.as_bytes().as_slice(), self)
    }
}

impl vstd::std_specs::cmp::PartialEqSpecImpl<Isin> for str {
    open spec fn obeys_eq_spec() -> bool {
        true
    }

    open spec fn eq_spec(&self, other: &Isin) -> bool {
        bytes_as_chars(other.view()) == self@
    }
}

impl<'a> PartialEq<Isin> for &'a str {
    fn eq(&self, other: &Isin) -> (r: bool) {
        bytes_eq_str(other.as_bytes().as_slice(), *self)
    }
}

impl<'a> vstd::std_specs::cmp::PartialEqSpecImpl<Isin> for &'a str {
    open spec fn obeys_eq_spec() -> bool {
        true
    }

    open spec fn eq_spec(&self, other: &Isin) -> bool {
        bytes_as_chars(other.view()) == self@
    }
}

impl AsRef<[u8]> for Isin {
    fn as_ref(&self) -> (r: &[u8])
        ensures
            ({
                let b: &[u8] = r;
                b@ == self.view()
            }),
    {
        self.as_bytes().as_slice()
    }
}

impl AsRef<str> for Isin {
    fn as_ref(&self) -> (r: &str)
        ensures
            ({
                let t: &str = r;
                t@ == bytes_as_chars(self.view())
            }),
    {
        self.as_str()
    }
}


// ---------------------------------------------------------------- laws

/// The text of a valid ISIN parses back to it: for an `Isin` `x`,
/// `Isin::parse(x.as_str())` gives `x` again.
pub proof fn law_isin_text_round_trip(b: Seq<u8>)
    requires
        isin_valid(b),
    ensures
        isin_parse(bytes_as_chars(b)) == Ok::<Seq<u8>, IsinError>(b),
{
    assert(isin_classes_ok(b));
    assert forall|i: int| 0 <= i < b.len() implies (48 <= #[trigger] b[i] <= 57 || 65 <= b[i]
        <= 90) by {
        assert(isin_class_ok(i, b[i]));
    }
    lemma_alnum_text(b);
}

/// Appending the computed check digit to a well-formed eleven-character
/// base makes a valid ISIN.
pub proof fn law_isin_check_digit_completes(base: Seq<u8>)
    requires
        base.len() == 11,
        forall|i: int| 0 <= i < 11 ==> isin_class_ok(i, #[trigger] base[i]),
    ensures
        isin_valid(base.push((48 + isin_check_digit(base)) as u8)),
{
    let d = isin_check_digit(base);
    let b = base.push((48 + d) as u8);
    assert(0 <= d < 10);
    assert(b.subrange(0, 11) =~= base);
    assert forall|i: int| 0 <= i < 12 implies isin_class_ok(i, #[trigger] b[i]) by {
        if i < 11 {
            assert(b[i] == base[i]);
        }
    }
    assert(isin_classes_ok(b));
}

} // verus!
