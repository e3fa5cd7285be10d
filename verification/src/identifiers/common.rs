use vstd::prelude::*;

verus! {

/// The class of characters an identifier expects at a position.
#[derive(Debug, Clone, Copy, PartialEq, Eq, Hash, Structural)]
pub enum CharacterClass {
    Digit,
    Letter,
    Alphanumeric,
}

impl CharacterClass {
    /// The human-readable name of the class, as error messages print it.
    pub fn describe(&self) -> (s: &'static str)
        ensures
            s@ == match self {
                CharacterClass::Digit => "a digit (0-9)"@,
                CharacterClass::Letter => "an uppercase letter (A-Z)"@,
                CharacterClass::Alphanumeric => "a digit (0-9) or an uppercase letter (A-Z)"@,
            },
    {
        match self {
            CharacterClass::Digit => "a digit (0-9)",
            CharacterClass::Letter => "an uppercase letter (A-Z)",
            CharacterClass::Alphanumeric => "a digit (0-9) or an uppercase letter (A-Z)",
        }
    }

    /// Same text as [`CharacterClass::describe`], owned.
    pub fn to_string(&self) -> (s: String)
        ensures
            s@ == self.describe_spec(),
    {
        String::from_str(self.describe())
    }

    pub open spec fn describe_spec(&self) -> Seq<char> {
        match self {
            CharacterClass::Digit => "a digit (0-9)"@,
            CharacterClass::Letter => "an uppercase letter (A-Z)"@,
            CharacterClass::Alphanumeric => "a digit (0-9) or an uppercase letter (A-Z)"@,
        }
    }
}

/// `u8::is_ascii_digit`.
pub open spec fn is_digit_byte(b: u8) -> bool {
    48 <= b <= 57
}

/// `u8::is_ascii_uppercase`.
pub open spec fn is_upper_byte(b: u8) -> bool {
    65 <= b <= 90
}

/// The value of a character in the digit strings that the ISO 17442 and
/// ISO 6166 checks work on: a digit its own value, a letter `A = 10 .. Z = 35`.
/// Any other byte, which validation refuses before the check, takes the value
/// that the byte arithmetic `c - 'A' + 10` (modulo 256) gives it.
pub open spec fn alnum_value(c: u8) -> int {
    if is_digit_byte(c) {
        c - 48
    } else if is_upper_byte(c) {
        c - 55
    } else {
        (c + 201) % 256
    }
}

pub open spec fn is_alnum_byte(b: u8) -> bool {
    is_digit_byte(b) || is_upper_byte(b)
}

pub fn byte_is_digit(b: u8) -> (r: bool)
    ensures
        r == is_digit_byte(b),
{
    48 <= b && b <= 57
}

pub fn byte_is_upper(b: u8) -> (r: bool)
    ensures
        r == is_upper_byte(b),
{
    65 <= b && b <= 90
}

} // verus!
