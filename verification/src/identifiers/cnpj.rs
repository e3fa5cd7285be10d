//! Brazilian company registry number (CNPJ), in the alphanumeric format
//! introduced by the Receita Federal.
use vstd::prelude::*;
use crate::text::{
    all_ascii_chars, ascii_str, ascii_upper, bytes_as_chars, bytes_eq_str, char_is_white_space,
    debug_tuple, debug_tuple_string, decimal, find_non_ascii, first_non_ascii, is_white_space,
    push_decimal, upper_ascii_array, upper_bytes, all_alnum_upper, lemma_alnum_text,
    lemma_filter_all, lemma_filter_concat, lemma_filter_none, upper_all, first_non_ascii_at,
    lemma_first_non_ascii_unique, lemma_first_non_ascii_exists, is_ascii_char,
};
use super::common::{
    CharacterClass, byte_is_digit, byte_is_upper, is_alnum_byte, is_digit_byte,
};

verus! {

/// Length of the part of a CNPJ that the check digits are computed over.
pub const BASE_LEN: usize = 12;

/// Length of the punctuated form `XX.XXX.XXX/XXXX-DD`.
pub const FORMATTED_LEN: usize = 18;

/// A validated CNPJ: twelve alphanumeric characters (an eight-character
/// root and a four-character branch) followed by two check digits.
#[derive(Clone, Copy, PartialEq, Eq, PartialOrd, Ord, Hash, Debug)]
pub struct Cnpj {
    bytes: [u8; 14],
}

#[derive(Debug, PartialEq, Eq, Structural)]
#[allow(inconsistent_fields)]
pub enum CnpjError {
    Empty,
    InvalidLength { found: usize },
    InvalidCharacter { character: char, position: u8, expected: CharacterClass },
    InvalidCheckDigits { position: u8, expected: u8, found: u8 },
    RepeatedDigits,
}

// ---------------------------------------------------------------- model

pub open spec fn cnpj_expected_class(i: int) -> CharacterClass {
    if i < 12 {
        CharacterClass::Alphanumeric
    } else {
        CharacterClass::Digit
    }
}

pub open spec fn cnpj_class_ok(i: int, b: u8) -> bool {
    if i < 12 {
        is_alnum_byte(b)
    } else {
        is_digit_byte(b)
    }
}

pub open spec fn cnpj_classes_ok(b: Seq<u8>) -> bool {
    forall|i: int| 0 <= i < 14 ==> cnpj_class_ok(i, #[trigger] b[i])
}

pub open spec fn cnpj_first_bad(b: Seq<u8>, i: int) -> bool {
    &&& 0 <= i < 14
    &&& !cnpj_class_ok(i, b[i])
    &&& forall|j: int| 0 <= j < i ==> cnpj_class_ok(j, #[trigger] b[j])
}

pub open spec fn cnpj_check_classes(b: Seq<u8>) -> Result<(), CnpjError> {
    if cnpj_classes_ok(b) {
        Ok(())
    } else {
        let i = choose|i: int| cnpj_first_bad(b, i);
        Err(
            CnpjError::InvalidCharacter {
                character: b[i] as char,
                position: (i + 1) as u8,
                expected: cnpj_expected_class(i),
            },
        )
    }
}

/// All fourteen characters are the same one.
pub open spec fn cnpj_repeated(b: Seq<u8>) -> bool {
    forall|i: int| 0 <= i < 14 ==> #[trigger] b[i] == b[0]
}

/// The value of a character in the check-digit sums: its code minus the
/// code of `'0'` (so `'0'..'9'` count 0..9 and `'A'..'Z'` count 17..42).
pub open spec fn cnpj_char_value(b: u8) -> int {
    if b >= 48 {
        b - 48
    } else {
        0
    }
}

pub open spec fn cnpj_weight_dv1(i: int) -> int {
    if i < 4 {
        5 - i
    } else {
        13 - i
    }
}

pub open spec fn cnpj_weight_dv2(i: int) -> int {
    if i < 5 {
        6 - i
    } else {
        14 - i
    }
}

/// `sum_{i < n} value(b[i]) * w(i)`, with the first weight table.
pub open spec fn cnpj_sum_dv1(b: Seq<u8>, n: int) -> int
    decreases n,
{
    if n <= 0 {
        0
    } else {
        cnpj_sum_dv1(b, n - 1) + cnpj_char_value(b[n - 1]) * cnpj_weight_dv1(n - 1)
    }
}

/// `sum_{i < n} value(b[i]) * w(i)`, with the second weight table.
pub open spec fn cnpj_sum_dv2(b: Seq<u8>, n: int) -> int
    decreases n,
{
    if n <= 0 {
        0
    } else {
        cnpj_sum_dv2(b, n - 1) + cnpj_char_value(b[n - 1]) * cnpj_weight_dv2(n - 1)
    }
}

/// The modulo-11 digit of a weighted sum.
pub open spec fn cnpj_digit_of_sum(sum: int) -> int {
    if sum % 11 < 2 {
        0
    } else {
        11 - sum % 11
    }
}

/// The first check digit of a twelve-character base.
pub open spec fn cnpj_dv1(base: Seq<u8>) -> int {
    cnpj_digit_of_sum(cnpj_sum_dv1(base, 12))
}

/// The second check digit: the base followed by the first check digit.
pub open spec fn cnpj_dv2(base: Seq<u8>) -> int {
    cnpj_digit_of_sum(cnpj_sum_dv2(base, 12) + cnpj_dv1(base) * 2)
}

pub open spec fn cnpj_check_digits_of(b: Seq<u8>) -> Result<(), CnpjError> {
    let base = b.subrange(0, 12);
    if cnpj_dv1(base) != cnpj_char_value(b[12]) {
        Err(
            CnpjError::InvalidCheckDigits {
                position: 13,
                expected: cnpj_dv1(base) as u8,
                found: cnpj_char_value(b[12]) as u8,
            },
        )
    } else if cnpj_dv2(base) != cnpj_char_value(b[13]) {
        Err(
            CnpjError::InvalidCheckDigits {
                position: 14,
                expected: cnpj_dv2(base) as u8,
                found: cnpj_char_value(b[13]) as u8,
            },
        )
    } else {
        Ok(())
    }
}

/// The outcome of validating fourteen bytes as a CNPJ: character classes,
/// then the all-repeated rule, then the two check digits.
pub open spec fn cnpj_validate(b: Seq<u8>) -> Result<(), CnpjError> {
    match cnpj_check_classes(b) {
        Err(e) => Err(e),
        Ok(_) => if cnpj_repeated(b) {
            Err(CnpjError::RepeatedDigits)
        } else {
            cnpj_check_digits_of(b)
        },
    }
}

pub open spec fn cnpj_valid(b: Seq<u8>) -> bool {
    b.len() == 14 && cnpj_validate(b) is Ok
}

/// The punctuation that may appear in a written CNPJ and carries no meaning.
pub open spec fn cnpj_formatting_char(c: char) -> bool {
    c == '.' || c == '/' || c == '-' || is_white_space(c)
}

/// The characters of the input that count: all but punctuation and whitespace.
pub open spec fn cnpj_meaningful(s: Seq<char>) -> Seq<char> {
    s.filter(|c: char| !cnpj_formatting_char(c))
}

/// The outcome of normalizing user input.
pub open spec fn cnpj_normalize(s: Seq<char>) -> Result<Seq<u8>, CnpjError> {
    if s.len() == 0 {
        Err(CnpjError::Empty)
    } else {
        let t = cnpj_meaningful(s);
        if t.len() != 14 {
            Err(CnpjError::InvalidLength { found: t.len() as usize })
        } else if !all_ascii_chars(t) {
            let i = first_non_ascii(t);
            Err(
                CnpjError::InvalidCharacter {
                    character: t[i],
                    position: (i + 1) as u8,
                    expected: CharacterClass::Alphanumeric,
                },
            )
        } else {
            Ok(upper_bytes(t))
        }
    }
}

/// The outcome of parsing user input: the bytes of the CNPJ, or the error.
pub open spec fn cnpj_parse(s: Seq<char>) -> Result<Seq<u8>, CnpjError> {
    match cnpj_normalize(s) {
        Err(e) => Err(e),
        Ok(b) => match cnpj_validate(b) {
            Err(e) => Err(e),
            Ok(_) => Ok(b),
        },
    }
}

/// The punctuated form `XX.XXX.XXX/XXXX-DD` of fourteen bytes.
pub open spec fn cnpj_layout(d: Seq<u8>) -> Seq<u8> {
    seq![
        d[0], d[1], 46, d[2], d[3], d[4], 46, d[5], d[6], d[7], 47, d[8], d[9], d[10], d[11], 45,
        d[12], d[13],
    ]
}

// ---------------------------------------------------------------- proofs

proof fn lemma_first_bad_unique(b: Seq<u8>, i: int)
    requires
        cnpj_first_bad(b, i),
    ensures
        (choose|k: int| cnpj_first_bad(b, k)) == i,
{
    let k = choose|k: int| cnpj_first_bad(b, k);
    assert(cnpj_first_bad(b, k));
    if k < i {
        assert(cnpj_class_ok(k, b[k]));
    } else if k > i {
        assert(cnpj_class_ok(i, b[i]));
    }
}

// ---------------------------------------------------------------- code

/// The value of a character in the check-digit sums.
pub fn char_value(byte: u8) -> (r: u32)
    ensures
        r == cnpj_char_value(byte),
{
    byte.saturating_sub(48) as u32
}

pub fn validate_character_classes(candidate: &[u8; 14]) -> (r: Result<(), CnpjError>)
    ensures
        r == cnpj_check_classes(candidate@),
{
    let mut i: usize = 0;
    while i < 14
        invariant
            i <= 14,
            forall|j: int| 0 <= j < i ==> cnpj_class_ok(j, #[trigger] candidate@[j]),
        decreases 14 - i,
    {
        let byte = candidate[i];
        let is_valid = if i < BASE_LEN {
            byte_is_digit(byte) || byte_is_upper(byte)
        } else {
            byte_is_digit(byte)
        };
        if !is_valid {
            let expected = if i < BASE_LEN {
                CharacterClass::Alphanumeric
            } else {
                CharacterClass::Digit
            };
            proof {
                lemma_first_bad_unique(candidate@, i as int);
            }
            return Err(
                CnpjError::InvalidCharacter { character: byte as char, position: (i + 1) as u8, expected },
            );
        }
        i = i + 1;
    }
    Ok(())
}

/// Rejects a CNPJ whose fourteen characters are all the same.
pub fn validate_not_repeated(candidate: &[u8; 14]) -> (r: Result<(), CnpjError>)
    ensures
        cnpj_repeated(candidate@) ==> r == Err::<(), CnpjError>(CnpjError::RepeatedDigits),
        !cnpj_repeated(candidate@) ==> r is Ok,
{
    let first = candidate[0];
    let mut i: usize = 0;
    while i < 14
        invariant
            i <= 14,
            first == candidate@[0],
            forall|j: int| 0 <= j < i ==> #[trigger] candidate@[j] == candidate@[0],
        decreases 14 - i,
    {
        if candidate[i] != first {
            return Ok(());
        }
        i = i + 1;
    }
    Err(CnpjError::RepeatedDigits)
}

/// The modulo-11 digit of a weighted sum.
pub fn digit_of_sum(sum: u32) -> (r: u8)
    ensures
        r == cnpj_digit_of_sum(sum as int),
{
    let remainder = sum % 11;
    if remainder < 2 {
        0
    } else {
        (11 - remainder) as u8
    }
}

/// The two check digits of a twelve-character base.
pub fn compute_valid_check_digits(base: &[u8; 12]) -> (r: (u8, u8))
    ensures
        r.0 == cnpj_dv1(base@),
        r.1 == cnpj_dv2(base@),
{
    let weights1: [u32; 12] = [5, 4, 3, 2, 9, 8, 7, 6, 5, 4, 3, 2];
    let weights2: [u32; 12] = [6, 5, 4, 3, 2, 9, 8, 7, 6, 5, 4, 3];
    let mut sum1: u32 = 0;
    let mut sum2: u32 = 0;
    let mut i: usize = 0;
    while i < 12
        invariant
            i <= 12,
            weights1@ == seq![5u32, 4, 3, 2, 9, 8, 7, 6, 5, 4, 3, 2],
            weights2@ == seq![6u32, 5, 4, 3, 2, 9, 8, 7, 6, 5, 4, 3],
            sum1 == cnpj_sum_dv1(base@, i as int),
            sum2 == cnpj_sum_dv2(base@, i as int),
            sum1 <= 2295 * i,
            sum2 <= 2295 * i,
        decreases 12 - i,
    {
        let v = char_value(base[i]);
        let w1 = weights1[i];
        let w2 = weights2[i];
        assert(w1 == cnpj_weight_dv1(i as int));
        assert(w2 == cnpj_weight_dv2(i as int));
        assert(v * w1 <= 255 * 9) by (nonlinear_arith)
            requires
                v <= 255,
                w1 <= 9,
        ;
        assert(v * w2 <= 255 * 9) by (nonlinear_arith)
            requires
                v <= 255,
                w2 <= 9,
        ;
        sum1 = sum1 + v * w1;
        sum2 = sum2 + v * w2;
        i = i + 1;
    }
    let dv1 = digit_of_sum(sum1);
    let dv2 = digit_of_sum(sum2 + (dv1 as u32) * 2);
    (dv1, dv2)
}

pub fn validate_check_digits(candidate: &[u8; 14]) -> (r: Result<(), CnpjError>)
    ensures
        r == cnpj_check_digits_of(candidate@),
{
    let c = candidate;
    let base: [u8; 12] = [c[0], c[1], c[2], c[3], c[4], c[5], c[6], c[7], c[8], c[9], c[10], c[11]];
    assert(base@ =~= candidate@.subrange(0, 12));
    let (expected_dv1, expected_dv2) = compute_valid_check_digits(&base);
    let found_dv1 = char_value(c[12]) as u8;
    if expected_dv1 != found_dv1 {
        return Err(
            CnpjError::InvalidCheckDigits { position: 13, expected: expected_dv1, found: found_dv1 },
        );
    }
    let found_dv2 = char_value(c[13]) as u8;
    if expected_dv2 != found_dv2 {
        return Err(
            CnpjError::InvalidCheckDigits { position: 14, expected: expected_dv2, found: found_dv2 },
        );
    }
    Ok(())
}

/// Validates fourteen bytes as a CNPJ.
pub fn validate(candidate: &[u8; 14]) -> (r: Result<(), CnpjError>)
    ensures
        r == cnpj_validate(candidate@),
{
    validate_character_classes(candidate)?;
    validate_not_repeated(candidate)?;
    validate_check_digits(candidate)?;
    Ok(())
}

/// Punctuation and whitespace, which carry no meaning in a written CNPJ.
pub fn is_formatting_char(c: char) -> (r: bool)
    ensures
        r == cnpj_formatting_char(c),
{
    c == '.' || c == '/' || c == '-' || char_is_white_space(c)
}

/// The characters of the input that count.
pub fn meaningful_chars(input: &str) -> (v: Vec<char>)
    ensures
        v@ == cnpj_meaningful(input@),
{
    let n = input.unicode_len();
    let mut v: Vec<char> = Vec::new();
    let mut i: usize = 0;
    assert(input@.subrange(0, 0) =~= Seq::<char>::empty());
    while i < n
        invariant
            n == input@.len(),
            i <= n,
            v@ == cnpj_meaningful(input@.subrange(0, i as int)),
        decreases n - i,
    {
        let c = input.get_char(i);
        proof {
            let pre = input@.subrange(0, i + 1);
            assert(pre.drop_last() =~= input@.subrange(0, i as int));
            assert(pre.last() == c);
            reveal_with_fuel(Seq::filter, 1);
        }
        if !is_formatting_char(c) {
            v.push(c);
        }
        i = i + 1;
    }
    assert(input@.subrange(0, n as int) =~= input@);
    v
}

/// Drops punctuation and whitespace and checks that fourteen ASCII
/// characters remain; returns them uppercased.
pub fn normalize(input: &str) -> (r: Result<[u8; 14], CnpjError>)
    ensures
        match cnpj_normalize(input@) {
            Ok(b) => r matches Ok(a) && a@ == b,
            Err(e) => r == Err::<[u8; 14], CnpjError>(e),
        },
{
    if input.unicode_len() == 0 {
        return Err(CnpjError::Empty);
    }
    let t = meaningful_chars(input);
    let found = t.len();
    if found != 14 {
        return Err(CnpjError::InvalidLength { found });
    }
    match find_non_ascii(&t) {
        Some(i) => Err(
            CnpjError::InvalidCharacter {
                character: t[i],
                position: (i + 1) as u8,
                expected: CharacterClass::Alphanumeric,
            },
        ),
        None => Ok(upper_ascii_array::<14>(&t)),
    }
}

impl Cnpj {
    #[verifier::type_invariant]
    spec fn well_formed(self) -> bool {
        cnpj_valid(self.bytes@)
    }

    /// The fourteen bytes, without punctuation.
    pub closed spec fn view(self) -> Seq<u8> {
        self.bytes@
    }

    /// Parses user input: punctuation and whitespace anywhere are dropped and
    /// letters are uppercased before validation.
    pub fn parse(input: &str) -> (r: Result<Self, CnpjError>)
        ensures
            match cnpj_parse(input@) {
                Ok(b) => r matches Ok(x) && x.view() == b,
                Err(e) => r == Err::<Cnpj, CnpjError>(e),
            },
    {
        match normalize(input) {
            Err(e) => Err(e),
            Ok(candidate) => Self::from_bytes(candidate),
        }
    }

    /// Alias for [`Cnpj::parse`].
    pub fn new(input: &str) -> (r: Result<Self, CnpjError>)
        ensures
            match cnpj_parse(input@) {
                Ok(b) => r matches Ok(x) && x.view() == b,
                Err(e) => r == Err::<Cnpj, CnpjError>(e),
            },
    {
        Self::parse(input)
    }

    /// Validates bytes that are already normalized.
    pub fn from_bytes(bytes: [u8; 14]) -> (r: Result<Self, CnpjError>)
        ensures
            match cnpj_validate(bytes@) {
                Ok(_) => r matches Ok(x) && x.view() == bytes@,
                Err(e) => r == Err::<Cnpj, CnpjError>(e),
            },
    {
        match validate(&bytes) {
            Err(e) => Err(e),
            Ok(()) => Ok(Cnpj { bytes }),
        }
    }

    pub fn as_bytes(&self) -> (r: &[u8; 14])
        ensures
            r@ == self.view(),
            cnpj_valid(r@),
    {
        proof {
            use_type_invariant(self);
        }
        &self.bytes
    }

    pub fn as_str(&self) -> (r: &str)
        ensures
            r@ == bytes_as_chars(self.view()),
    {
        proof {
            use_type_invariant(self);
            assert forall|i: int| 0 <= i < 14 implies self.bytes@[i] < 128 by {
                assert(cnpj_class_ok(i, self.bytes@[i]));
            }
        }
        ascii_str(self.bytes.as_slice())
    }

    /// The punctuated form `XX.XXX.XXX/XXXX-DD`.
    pub fn formatted(&self) -> (r: FormattedCnpj)
        ensures
            r.view() == cnpj_layout(self.view()),
    {
        FormattedCnpj::new(self)
    }

    /// The eight-character root that identifies the company.
    pub fn root(&self) -> (r: &str)
        ensures
            r@ == bytes_as_chars(self.view().subrange(0, 8)),
    {
        let s = self.as_str();
        proof {
            use_type_invariant(self);
            assert forall|i: int| 0 <= i < s@.len() implies '\0' <= #[trigger] s@[i] <= '\u{7f}' by {
                assert(cnpj_class_ok(i, self.bytes@[i]));
            }
        }
        let r = s.substring_ascii(0, 8);
        assert(r@ =~= bytes_as_chars(self.view().subrange(0, 8)));
        r
    }

    /// The four-character branch (establishment) code.
    pub fn branch_code(&self) -> (r: &str)
        ensures
            r@ == bytes_as_chars(self.view().subrange(8, 12)),
    {
        let s = self.as_str();
        proof {
            use_type_invariant(self);
            assert forall|i: int| 0 <= i < s@.len() implies '\0' <= #[trigger] s@[i] <= '\u{7f}' by {
                assert(cnpj_class_ok(i, self.bytes@[i]));
            }
        }
        let r = s.substring_ascii(8, 12);
        assert(r@ =~= bytes_as_chars(self.view().subrange(8, 12)));
        r
    }

    /// Whether this is the head office, branch `0001`.
    pub fn is_root(&self) -> (r: bool)
        ensures
            r == (self.view().subrange(8, 12) == seq![48u8, 48, 48, 49]),
    {
        let r = self.bytes[8] == 48 && self.bytes[9] == 48 && self.bytes[10] == 48 && self.bytes[11]
            == 49;
        proof {
            if !r {
                let b = self.view().subrange(8, 12);
                assert(b[0] != 48 || b[1] != 48 || b[2] != 48 || b[3] != 49);
            } else {
                assert(self.view().subrange(8, 12) =~= seq![48u8, 48, 48, 49]);
            }
        }
        r
    }

    /// The branch code read as a number, when it is made of digits only.
    pub fn branch_number(&self) -> (r: Option<u16>)
        ensures
            ({
                let b = self.view();
                if is_digit_byte(b[8]) && is_digit_byte(b[9]) && is_digit_byte(b[10]) && is_digit_byte(b[11]) {
                    r == Some(((b[8] - 48) * 1000 + (b[9] - 48) * 100 + (b[10] - 48) * 10 + (b[11] - 48)) as u16)
                } else {
                    r is None
                }
            }),
    {
        let b = &self.bytes;
        if byte_is_digit(b[8]) && byte_is_digit(b[9]) && byte_is_digit(b[10]) && byte_is_digit(b[11]) {
            let v = (b[8] - 48) as u16 * 1000 + (b[9] - 48) as u16 * 100 + (b[10] - 48) as u16 * 10
                + (b[11] - 48) as u16;
            Some(v)
        } else {
            None
        }
    }

    /// The two check digits.
    pub fn check_digits(&self) -> (r: (u8, u8))
        ensures
            r.0 == cnpj_char_value(self.view()[12]),
            r.1 == cnpj_char_value(self.view()[13]),
    {
        (self.bytes[12].saturating_sub(48), self.bytes[13].saturating_sub(48))
    }

    /// The punctuated form, as `Display` prints it.
    pub fn to_string(&self) -> (s: String)
        ensures
            s@ == bytes_as_chars(cnpj_layout(self.view())),
    {
        let f = self.formatted();
        String::from_str(f.as_str())
    }

    /// `Cnpj("XX.XXX.XXX/XXXX-DD")`, as `Debug` prints it.
    pub fn debug_string(&self) -> (s: String)
        ensures
            s@ == debug_tuple("Cnpj"@, bytes_as_chars(cnpj_layout(self.view()))),
    {
        let f = self.formatted();
        debug_tuple_string("Cnpj", f.as_str())
    }
}

/// A CNPJ in its punctuated form `XX.XXX.XXX/XXXX-DD`.
#[derive(Clone, Copy, PartialEq, Eq, Hash, Debug)]
pub struct FormattedCnpj {
    bytes: [u8; 18],
}

impl FormattedCnpj {
    #[verifier::type_invariant]
    spec fn well_formed(self) -> bool {
        forall|i: int| 0 <= i < 18 ==> #[trigger] self.bytes@[i] < 128
    }

    pub closed spec fn view(self) -> Seq<u8> {
        self.bytes@
    }

    pub fn new(cnpj: &Cnpj) -> (r: Self)
        ensures
            r.view() == cnpj_layout(cnpj.view()),
    {
        let d = cnpj.as_bytes();
        proof {
            assert forall|i: int| 0 <= i < 14 implies d@[i] < 128 by {
                assert(cnpj_class_ok(i, d@[i]));
            }
        }
        let out: [u8; 18] = [
            d[0], d[1], 46, d[2], d[3], d[4], 46, d[5], d[6], d[7], 47, d[8], d[9], d[10], d[11],
            45, d[12], d[13],
        ];
        assert(out@ =~= cnpj_layout(d@));
        FormattedCnpj { bytes: out }
    }

    pub fn as_str(&self) -> (r: &str)
        ensures
            r@ == bytes_as_chars(self.view()),
    {
        proof {
            use_type_invariant(self);
        }
        ascii_str(self.bytes.as_slice())
    }

    /// The punctuated text, as `Display` prints it.
    pub fn to_string(&self) -> (s: String)
        ensures
            s@ == bytes_as_chars(self.view()),
    {
        String::from_str(self.as_str())
    }

    /// `FormattedCnpj("…")`, as `Debug` prints it.
    pub fn debug_string(&self) -> (s: String)
        ensures
            s@ == debug_tuple("FormattedCnpj"@, bytes_as_chars(self.view())),
    {
        debug_tuple_string("FormattedCnpj", self.as_str())
    }
}

impl AsRef<str> for FormattedCnpj {
    fn as_ref(&self) -> (r: &str)
        ensures
            ({
                let t: &str = r;
                t@ == bytes_as_chars(self.view())
            }),
    {
        self.as_str()
    }
}

impl core::ops::Deref for FormattedCnpj {
    type Target = str;

    fn deref(&self) -> (r: &str)
        ensures
            r@ == bytes_as_chars(self.view()),
    {
        self.as_str()
    }
}

/// The text of a CNPJ error.
pub open spec fn cnpj_error_message(e: CnpjError) -> Seq<char> {
    match e {
        CnpjError::Empty => "CNPJ input is empty"@,
        CnpjError::InvalidLength { found } => "CNPJ must have exactly 14 meaningful characters, found "@
            + decimal(found as nat),
        CnpjError::InvalidCharacter { character, position, .. } => "CNPJ must contain only digits, found '"@
            + seq![character] + "' at position "@ + decimal(position as nat),
        CnpjError::InvalidCheckDigits { position, expected, found } => "CNPJ verification digit at position "@
            + decimal(position as nat) + " is invalid, expected "@ + decimal(expected as nat)
            + " but found "@ + decimal(found as nat),
        CnpjError::RepeatedDigits => "A CNPJ cannot contain only repeated digits"@,
    }
}

impl CnpjError {
    /// The human-readable text of the error, as `Display` prints it.
    pub fn to_string(&self) -> (msg: String)
        ensures
            msg@ == cnpj_error_message(*self),
    {
        match self {
            CnpjError::Empty => String::from_str("CNPJ input is empty"),
            CnpjError::InvalidLength { found } => {
                let mut s = String::from_str("CNPJ must have exactly 14 meaningful characters, found ");
                push_decimal(&mut s, *found as u64);
                s
            },
            CnpjError::InvalidCharacter { character, position, .. } => {
                let mut s = String::from_str("CNPJ must contain only digits, found '");
                crate::text::push_char(&mut s, *character);
                s.append("' at position ");
                push_decimal(&mut s, *position as u64);
                s
            },
            CnpjError::InvalidCheckDigits { position, expected, found } => {
                let mut s = String::from_str("CNPJ verification digit at position ");
                push_decimal(&mut s, *position as u64);
                s.append(" is invalid, expected ");
                push_decimal(&mut s, *expected as u64);
                s.append(" but found ");
                push_decimal(&mut s, *found as u64);
                s
            },
            CnpjError::RepeatedDigits => String::from_str("A CNPJ cannot contain only repeated digits"),
        }
    }
}

impl core::str::FromStr for Cnpj {
    type Err = CnpjError;

    fn from_str(s: &str) -> (r: Result<Self, Self::Err>)
        ensures
            match cnpj_parse(s@) {
                Ok(b) => (r matches Ok(x) && x.view() == b),
                Err(e) => r == Err::<Cnpj, CnpjError>(e),
            },
    {
        Self::parse(s)
    }
}

impl Cnpj {
    /// The value `try_from` on input text gives.
    pub closed spec fn parsed(s: Seq<char>) -> Result<Cnpj, CnpjError> {
        match cnpj_parse(s) {
            Ok(b) => Ok(Cnpj { bytes: choose|a: [u8; 14]| #[trigger] a@ == b }),
            Err(e) => Err(e),
        }
    }

    /// The value `try_from` on 14 bytes gives.
    pub closed spec fn checked(v: [u8; 14]) -> Result<Cnpj, CnpjError> {
        match cnpj_validate(v@) {
            Ok(_) => Ok(Cnpj { bytes: v }),
            Err(e) => Err(e),
        }
    }

    /// The value `try_from` on a byte slice gives.
    pub closed spec fn checked_slice(v: Seq<u8>) -> Result<Cnpj, CnpjError> {
        if v.len() != 14 {
            Err(CnpjError::InvalidLength { found: v.len() as usize })
        } else {
            match cnpj_validate(v) {
                Ok(_) => Ok(Cnpj { bytes: choose|a: [u8; 14]| #[trigger] a@ == v }),
                Err(e) => Err(e),
            }
        }
    }
}

impl<'a> TryFrom<&'a str> for Cnpj {
    type Error = CnpjError;

    fn try_from(value: &'a str) -> (r: Result<Self, Self::Error>) {
        let r = Self::parse(value);
        proof {
            if let Ok(b) = cnpj_parse(value@) {
                let x = r->Ok_0;
                assert(x.bytes@ == b);
                let a = choose|a: [u8; 14]| #[trigger] a@ == b;
                assert(a@ == b);
                assert(a =~= x.bytes);
            }
        }
        r
    }
}

impl<'a> vstd::std_specs::convert::TryFromSpecImpl<&'a str> for Cnpj {
    open spec fn obeys_try_from_spec() -> bool {
        true
    }

    open spec fn try_from_spec(v: &'a str) -> Result<Self, Self::Error> {
        Cnpj::parsed(v@)
    }
}

impl TryFrom<[u8; 14]> for Cnpj {
    type Error = CnpjError;

    fn try_from(value: [u8; 14]) -> (r: Result<Self, Self::Error>) {
        let r = Self::from_bytes(value);
        proof {
            if let Ok(x) = r {
                assert(x.bytes =~= value);
            }
        }
        r
    }
}

impl vstd::std_specs::convert::TryFromSpecImpl<[u8; 14]> for Cnpj {
    open spec fn obeys_try_from_spec() -> bool {
        true
    }

    open spec fn try_from_spec(v: [u8; 14]) -> Result<Self, Self::Error> {
        Cnpj::checked(v)
    }
}

impl<'a> TryFrom<&'a [u8]> for Cnpj {
    type Error = CnpjError;

    fn try_from(value: &'a [u8]) -> (r: Result<Self, Self::Error>) {
        if value.len() != 14 {
            return Err(CnpjError::InvalidLength { found: value.len() });
        }
        let bytes: [u8; 14] = [
            value[0],
            value[1],
            value[2],
            value[3],
            value[4],
            value[5],
            value[6],
            value[7],
            value[8],
            value[9],
            value[10],
            value[11],
            value[12],
            value[13],
        ];
        assert(bytes@ =~= value@);
        let r = Self::from_bytes(bytes);
        proof {
            if let Ok(x) = r {
                let a = choose|a: [u8; 14]| #[trigger] a@ == value@;
                assert(a@ == x.bytes@);
                assert(a =~= x.bytes);
            }
        }
        r
    }
}

impl<'a> vstd::std_specs::convert::TryFromSpecImpl<&'a [u8]> for Cnpj {
    open spec fn obeys_try_from_spec() -> bool {
        true
    }

    open spec fn try_from_spec(v: &'a [u8]) -> Result<Self, Self::Error> {
        Cnpj::checked_slice(v@)
    }
}

impl PartialEq<str> for Cnpj {
    fn eq(&self, other: &str) -> (r: bool) {
        bytes_eq_str(self.as_bytes().as_slice(), other)
    }
}

impl vstd::std_specs::cmp::PartialEqSpecImpl<str> for Cnpj {
    open spec fn obeys_eq_spec() -> bool {
        true
    }

    open spec fn eq_spec(&self, other: &str) -> bool {
        bytes_as_chars(self.view()) == other@
    }
}

impl<'a> PartialEq<&'a str> for Cnpj {
    fn eq(&self, other: &&'a str) -> (r: bool) {
        bytes_eq_str(self.as_bytes().as_slice(), *other)
    }
}

impl<'a> vstd::std_specs::cmp::PartialEqSpecImpl<&'a str> for Cnpj {
    open spec fn obeys_eq_spec() -> bool {
        true
    }

    open spec fn eq_spec(&self, other: &&'a str) -> bool {
        bytes_as_chars(self.view()) == other@
    }
}

impl PartialEq<Cnpj> for str {
    fn eq(&self, other: &Cnpj) -> (r: bool) {
        bytes_eq_str(other.as_bytes().as_slice(), self)
    }
}

impl vstd::std_specs::cmp::PartialEqSpecImpl<Cnpj> for str {
    open spec fn obeys_eq_spec() -> bool {
        true
    }

    open spec fn eq_spec(&self, other: &Cnpj) -> bool {
        bytes_as_chars(other.view()) == self@
    }
}

impl<'a> PartialEq<Cnpj> for &'a str {
    fn eq(&self, other: &Cnpj) -> (r: bool) {
        bytes_eq_str(other.as_bytes().as_slice(), *self)
    }
}

impl<'a> vstd::std_specs::cmp::PartialEqSpecImpl<Cnpj> for &'a str {
    open spec fn obeys_eq_spec() -> bool {
        true
    }

    open spec fn eq_spec(&self, other: &Cnpj) -> bool {
        bytes_as_chars(other.view()) == self@
    }
}

impl AsRef<[u8]> for Cnpj {
    fn as_ref(&self) -> (r: &[u8])
        ensures
            ({
                let b: &[u8] = r;
                b@ == self.view()
            }),
    {
        self.as_bytes().as_slice()
    }
}

impl AsRef<str> for Cnpj {
    fn as_ref(&self) -> (r: &str)
        ensures
            ({
                let t: &str = r;
                t@ == bytes_as_chars(self.view())
            }),
    {
        self.as_str()
    }
}


// ---------------------------------------------------------------- laws

proof fn lemma_valid_bytes_are_alnum(b: Seq<u8>)
    requires
        cnpj_valid(b),
    ensures
        all_alnum_upper(b),
{
    assert(cnpj_classes_ok(b));
    assert forall|i: int| 0 <= i < b.len() implies (48 <= #[trigger] b[i] <= 57 || 65 <= b[i]
        <= 90) by {
        assert(cnpj_class_ok(i, b[i]));
    }
}

/// The compact text of a valid CNPJ parses back to it: for a `Cnpj` `x`,
/// `Cnpj::parse(x.as_str())` gives `x` again.
pub proof fn law_cnpj_text_round_trip(b: Seq<u8>)
    requires
        cnpj_valid(b),
    ensures
        cnpj_parse(bytes_as_chars(b)) == Ok::<Seq<u8>, CnpjError>(b),
{
    lemma_valid_bytes_are_alnum(b);
    lemma_alnum_text(b);
    let s = bytes_as_chars(b);
    assert forall|i: int| 0 <= i < s.len() implies !cnpj_formatting_char(#[trigger] s[i]) by {
        assert(s[i] == b[i] as char);
    }
    lemma_filter_all(s, |c: char| !cnpj_formatting_char(c));
}

/// The punctuated text of a valid CNPJ, which `Display` prints, parses back
/// to it: `Cnpj::parse(&x.to_string())` gives `x` again.
pub proof fn law_cnpj_formatted_round_trip(b: Seq<u8>)
    requires
        cnpj_valid(b),
    ensures
        cnpj_parse(bytes_as_chars(cnpj_layout(b))) == Ok::<Seq<u8>, CnpjError>(b),
{
    lemma_valid_bytes_are_alnum(b);
    lemma_alnum_text(b);
    let p = |c: char| !cnpj_formatting_char(c);
    let s = bytes_as_chars(b);
    let dot = seq!['.'];
    let slash = seq!['/'];
    let dash = seq!['-'];
    let parts = s.subrange(0, 2) + dot + s.subrange(2, 5) + dot + s.subrange(5, 8) + slash
        + s.subrange(8, 12) + dash + s.subrange(12, 14);
    assert(bytes_as_chars(cnpj_layout(b)) =~= parts);
    assert forall|i: int| 0 <= i < s.len() implies p(#[trigger] s[i]) by {
        assert(s[i] == b[i] as char);
    }
    lemma_filter_all(s.subrange(0, 2), p);
    lemma_filter_all(s.subrange(2, 5), p);
    lemma_filter_all(s.subrange(5, 8), p);
    lemma_filter_all(s.subrange(8, 12), p);
    lemma_filter_all(s.subrange(12, 14), p);
    lemma_filter_none(dot, p);
    lemma_filter_none(slash, p);
    lemma_filter_none(dash, p);
    let a1 = s.subrange(0, 2) + dot;
    let a2 = a1 + s.subrange(2, 5);
    let a3 = a2 + dot;
    let a4 = a3 + s.subrange(5, 8);
    let a5 = a4 + slash;
    let a6 = a5 + s.subrange(8, 12);
    let a7 = a6 + dash;
    lemma_filter_concat(s.subrange(0, 2), dot, p);
    lemma_filter_concat(a1, s.subrange(2, 5), p);
    lemma_filter_concat(a2, dot, p);
    lemma_filter_concat(a3, s.subrange(5, 8), p);
    lemma_filter_concat(a4, slash, p);
    lemma_filter_concat(a5, s.subrange(8, 12), p);
    lemma_filter_concat(a6, dash, p);
    lemma_filter_concat(a7, s.subrange(12, 14), p);
    assert(cnpj_meaningful(bytes_as_chars(cnpj_layout(b))) =~= s);
}

/// Appending the two computed check digits to a well-formed twelve-character
/// base makes a valid CNPJ, unless all fourteen characters come out the
/// same (which the repeated-digit rule refuses).
pub proof fn law_cnpj_check_digits_complete(base: Seq<u8>)
    requires
        base.len() == 12,
        forall|i: int| 0 <= i < 12 ==> is_alnum_byte(#[trigger] base[i]),
        !cnpj_repeated(base.push((48 + cnpj_dv1(base)) as u8).push((48 + cnpj_dv2(base)) as u8)),
    ensures
        cnpj_valid(base.push((48 + cnpj_dv1(base)) as u8).push((48 + cnpj_dv2(base)) as u8)),
{
    let b = base.push((48 + cnpj_dv1(base)) as u8).push((48 + cnpj_dv2(base)) as u8);
    assert(0 <= cnpj_dv1(base) <= 9);
    assert(0 <= cnpj_dv2(base) <= 9);
    assert(b.subrange(0, 12) =~= base);
    assert forall|i: int| 0 <= i < 14 implies cnpj_class_ok(i, #[trigger] b[i]) by {
        if i < 12 {
            assert(b[i] == base[i]);
        }
    }
    assert(cnpj_classes_ok(b));
}

/// Parsing ignores punctuation, whitespace and ASCII letter case: two
/// non-empty inputs whose meaningful characters agree once uppercased parse
/// to the same result, and a parsed CNPJ reads as the uppercased meaningful
/// characters of its input.
pub proof fn law_cnpj_parse_ignores_formatting(s: Seq<char>, t: Seq<char>)
    requires
        s.len() > 0,
        t.len() > 0,
        upper_all(cnpj_meaningful(s)) == upper_all(cnpj_meaningful(t)),
    ensures
        cnpj_parse(s) == cnpj_parse(t),
        cnpj_parse(s) matches Ok(b) ==> bytes_as_chars(b) == upper_all(cnpj_meaningful(s)),
{
    let ms = cnpj_meaningful(s);
    let mt = cnpj_meaningful(t);
    assert(ms.len() == upper_all(ms).len());
    assert(mt.len() == upper_all(mt).len());
    assert forall|i: int| 0 <= i < ms.len() implies is_ascii_char(#[trigger] ms[i])
        == is_ascii_char(mt[i]) && (!is_ascii_char(ms[i]) ==> ms[i] == mt[i]) by {
        assert(upper_all(ms)[i] == upper_all(mt)[i]);
    }
    if ms.len() == 14 {
        if !all_ascii_chars(ms) {
            let i = first_non_ascii(ms);
            assert(!all_ascii_chars(mt));
            let j = first_non_ascii(mt);
            lemma_first_non_ascii_exists(ms);
            lemma_first_non_ascii_exists(mt);
            assert(first_non_ascii_at(ms, j));
            lemma_first_non_ascii_unique(ms, j);
        } else {
            assert forall|j: int| 0 <= j < mt.len() implies is_ascii_char(#[trigger] mt[j]) by {
                assert(is_ascii_char(ms[j]));
            }
            assert forall|i: int| 0 <= i < 14 implies #[trigger] upper_bytes(ms)[i]
                == upper_bytes(mt)[i] by {
                assert(upper_all(ms)[i] == upper_all(mt)[i]);
            }
            assert(upper_bytes(ms) =~= upper_bytes(mt));
            assert forall|i: int| 0 <= i < 14 implies #[trigger] bytes_as_chars(upper_bytes(ms))[i]
                == upper_all(ms)[i] by {
                assert(is_ascii_char(ms[i]));
                let c = ascii_upper(ms[i]);
                assert((c as u32) < 128);
                assert(((c as u8) as char) == c);
            }
            assert(bytes_as_chars(upper_bytes(ms)) =~= upper_all(ms));
        }
    }
}

} // verus!
