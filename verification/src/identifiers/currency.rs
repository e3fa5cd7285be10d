//! ISO 4217 alphabetic currency codes, validated by format only (length and
//! character class, after trimming and ASCII case normalization).
use vstd::prelude::*;
use crate::text::{
    ascii_str, ascii_upper, bytes_as_chars, is_lower_char, is_upper_char, trimmed, trimmed_chars,
    upper_ascii_array, upper_bytes,
};

verus! {

pub const CURRENCY_CODE_LEN: usize = 3;

#[derive(Debug, PartialEq, Eq, Structural)]
pub enum CurrencyCodeError {
    Empty,
    InvalidLength,
    InvalidCharacter,
}

/// ISO 4217 alphabetic currency code, e.g. `BRL` or `USD`, stored as
/// uppercase ASCII.
#[derive(Copy, Clone, Eq, PartialEq, Hash, PartialOrd, Ord, Debug)]
pub struct CurrencyCode {
    bytes: [u8; 3],
}

/// `char::is_ascii_alphabetic`.
pub open spec fn is_ascii_letter(c: char) -> bool {
    is_upper_char(c) || is_lower_char(c)
}

/// The outcome of parsing a currency code: the uppercased letters, or the
/// error.
pub open spec fn currency_parse(s: Seq<char>) -> Result<Seq<u8>, CurrencyCodeError> {
    let t = trimmed(s);
    if t.len() == 0 {
        Err(CurrencyCodeError::Empty)
    } else if t.len() != 3 {
        Err(CurrencyCodeError::InvalidLength)
    } else if !(forall|i: int| 0 <= i < 3 ==> is_ascii_letter(#[trigger] t[i])) {
        Err(CurrencyCodeError::InvalidCharacter)
    } else {
        Ok(upper_bytes(t))
    }
}

fn char_is_ascii_letter(c: char) -> (r: bool)
    ensures
        r == is_ascii_letter(c),
{
    ('A' <= c && c <= 'Z') || ('a' <= c && c <= 'z')
}

impl CurrencyCode {
    #[verifier::type_invariant]
    spec fn well_formed(self) -> bool {
        forall|i: int| 0 <= i < 3 ==> 65 <= #[trigger] self.bytes@[i] <= 90
    }

    /// The three uppercase letters.
    pub closed spec fn view(self) -> Seq<u8> {
        self.bytes@
    }

    /// Parses a currency code, trimming surrounding whitespace and
    /// normalizing to uppercase ASCII.
    pub fn parse(input: &str) -> (r: Result<Self, CurrencyCodeError>)
        ensures
            match currency_parse(input@) {
                Ok(b) => r matches Ok(c) && c.view() == b,
                Err(e) => r == Err::<CurrencyCode, CurrencyCodeError>(e),
            },
    {
        let t = trimmed_chars(input);
        if t.len() == 0 {
            return Err(CurrencyCodeError::Empty);
        }
        if t.len() != CURRENCY_CODE_LEN {
            return Err(CurrencyCodeError::InvalidLength);
        }
        let mut i: usize = 0;
        while i < 3
            invariant
                t@.len() == 3,
                t@ == trimmed(input@),
                i <= 3,
                forall|j: int| 0 <= j < i ==> is_ascii_letter(#[trigger] t@[j]),
            decreases 3 - i,
        {
            if !char_is_ascii_letter(t[i]) {
                assert(!is_ascii_letter(t@[i as int]));
                return Err(CurrencyCodeError::InvalidCharacter);
            }
            i = i + 1;
        }
        let bytes = upper_ascii_array::<3>(&t);
        assert forall|i: int| 0 <= i < 3 implies 65 <= #[trigger] bytes@[i] <= 90 by {
            assert(is_ascii_letter(t@[i]));
        }
        Ok(CurrencyCode { bytes })
    }

    /// Alias for [`CurrencyCode::parse`].
    pub fn new(input: &str) -> (r: Result<Self, CurrencyCodeError>)
        ensures
            match currency_parse(input@) {
                Ok(b) => r matches Ok(c) && c.view() == b,
                Err(e) => r == Err::<CurrencyCode, CurrencyCodeError>(e),
            },
    {
        Self::parse(input)
    }

    pub fn as_str(&self) -> (r: &str)
        ensures
            r@ == bytes_as_chars(self.view()),
    {
        proof {
            use_type_invariant(self);
        }
        ascii_str(self.bytes.as_slice())
    }

    pub fn as_bytes(&self) -> (r: &[u8; 3])
        ensures
            r@ == self.view(),
    {
        &self.bytes
    }

    /// The code, as `Display` prints it.
    pub fn to_string(&self) -> (s: String)
        ensures
            s@ == bytes_as_chars(self.view()),
    {
        String::from_str(self.as_str())
    }
}

impl core::str::FromStr for CurrencyCode {
    type Err = CurrencyCodeError;

    fn from_str(s: &str) -> (r: Result<Self, Self::Err>)
        ensures
            match currency_parse(s@) {
                Ok(b) => (r matches Ok(x) && x.view() == b),
                Err(e) => r == Err::<CurrencyCode, CurrencyCodeError>(e),
            },
    {
        Self::parse(s)
    }
}


// ---------------------------------------------------------------- laws

/// The text of a currency code parses back to it: for a `CurrencyCode`
/// `x`, `CurrencyCode::parse(x.as_str())` gives `x` again.
pub proof fn law_currency_text_round_trip(b: Seq<u8>)
    requires
        b.len() == 3,
        forall|i: int| 0 <= i < 3 ==> 65 <= #[trigger] b[i] <= 90,
    ensures
        currency_parse(bytes_as_chars(b)) == Ok::<Seq<u8>, CurrencyCodeError>(b),
{
    crate::text::lemma_alnum_text(b);
    let t = bytes_as_chars(b);
    assert forall|i: int| 0 <= i < 3 implies is_ascii_letter(#[trigger] t[i]) by {
        assert(t[i] == b[i] as char);
    }
}

} // verus!
