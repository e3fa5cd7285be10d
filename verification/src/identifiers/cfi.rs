//! ISO 10962 Classification of Financial Instruments (CFI) codes.
use vstd::prelude::*;
use crate::text::{
    all_ascii_chars, ascii_str, bytes_as_chars, bytes_eq_str, debug_tuple, debug_tuple_string,
    decimal, find_non_ascii, first_non_ascii, push_char, push_decimal, trimmed, trimmed_chars,
    upper_ascii_array, upper_bytes, lemma_alnum_text,
};
use super::common::{byte_is_upper, is_upper_byte};

verus! {

/// A validated CFI code: category, group and four attribute letters that
/// the ISO 10962 taxonomy allows together.
#[derive(Clone, Copy, PartialEq, Eq, PartialOrd, Ord, Hash, Debug)]
pub struct Cfi {
    bytes: [u8; 6],
}

#[derive(Debug, PartialEq, Eq, Structural)]
#[allow(inconsistent_fields)]
pub enum CfiError {
    Empty,
    InvalidLength { found: usize },
    InvalidCharacter { character: char, position: u8 },
    UnknownCategory { code: char },
    UnknownGroup { category: char, code: char },
    InvalidAttribute { category: char, group: char, index: u8, code: char },
}

// ---------------------------------------------------------------- taxonomy

/// Whether the taxonomy defines the category letter.
pub open spec fn cfi_category_known(category: u8) -> bool {
    match category {
        67 | 68 | 69 | 70 | 72 | 73 | 74 | 75 | 76 | 77 | 79 | 82 | 83 | 84 => true,
        _ => false,
    }
}

/// For each group of the taxonomy, the four attribute masks: bit `k` of
/// mask `i` is set when letter `'A' + k` is allowed as attribute `i + 1`.
pub open spec fn cfi_group_masks(category: u8, group: u8) -> Option<[u32; 4]> {
    match category {
        67 => match group {
            66 => Some([16388, 832, 2235454, 18153472]),
            69 => Some([16388, 832, 2235454, 18153472]),
            70 => Some([37266, 8916992, 8388608, 8388608]),
            72 => Some([401433, 8394891, 8395808, 8916992]),
            73 => Some([16388, 832, 2235454, 18153472]),
            77 => Some([8388608, 8388608, 8388608, 266242]),
            80 => Some([16388, 832, 2235454, 18153472]),
            83 => Some([16388, 832, 2235454, 18153472]),
            _ => None,
        },
        68 => match group {
            65 => Some([35652644, 1958476, 755839, 143362]),
            66 => Some([35652644, 1958476, 755839, 143362]),
            67 => Some([35652644, 1958476, 755839, 143362]),
            68 => Some([35652644, 1958476, 755839, 143362]),
            69 => Some([5119, 18878504, 921604, 790798]),
            71 => Some([35652644, 1958476, 755839, 143362]),
            77 => Some([36866, 1958476, 8388608, 143362]),
            78 => Some([35652644, 1958476, 755839, 143362]),
            83 => Some([7935, 18878504, 2627630, 790798]),
            84 => Some([35652644, 1958476, 755839, 143362]),
            87 => Some([35652644, 1958476, 755839, 143362]),
            89 => Some([44041248, 10347084, 9144447, 143362]),
            _ => None,
        },
        69 => match group {
            67 => Some([2236432, 1572864, 49184, 143362]),
            68 => Some([301092, 8527882, 1155117, 143362]),
            70 => Some([2236432, 663637, 1155117, 143362]),
            76 => Some([2236432, 1572864, 49184, 143362]),
            77 => Some([8388608, 8388608, 8388608, 143362]),
            80 => Some([2236432, 663637, 1155117, 143362]),
            83 => Some([2236432, 1572864, 49184, 143362]),
            89 => Some([4127, 16781320, 2101296, 790798]),
            _ => None,
        },
        70 => match group {
            67 => Some([307601, 40964, 270336, 8388608]),
            70 => Some([6582574, 40964, 270336, 8388608]),
            _ => None,
        },
        72 => match group {
            67 => Some([266498, 67108863, 10498049, 8421396]),
            69 => Some([266498, 67108863, 10498049, 8421396]),
            70 => Some([266498, 67108863, 10498049, 8421396]),
            77 => Some([36864, 67108863, 10498049, 8421396]),
            82 => Some([151789, 67108863, 10498049, 8421396]),
            84 => Some([32227327, 67108863, 10498049, 8421396]),
            _ => None,
        },
        73 => match group {
            70 => Some([8388608, 8388608, 8388608, 40980]),
            84 => Some([8388608, 8388608, 8388608, 40980]),
            _ => None,
        },
        74 => match group {
            67 => Some([67108863, 36, 8388608, 32788]),
            69 => Some([282882, 36, 8388608, 32788]),
            70 => Some([528384, 8388644, 8388608, 32788]),
            82 => Some([20736, 36, 8388608, 32788]),
            84 => Some([67108863, 36, 8388608, 32788]),
            _ => None,
        },
        75 => match group {
            67 => Some([8388608, 8388608, 8388608, 8388608]),
            69 => Some([8388608, 8388608, 8388608, 8388608]),
            70 => Some([8388608, 8388608, 8388608, 8388608]),
            77 => Some([8388608, 8388608, 8388608, 8388608]),
            82 => Some([8388608, 8388608, 8388608, 8388608]),
            84 => Some([8388608, 8388608, 8388608, 8388608]),
            _ => None,
        },
        76 => match group {
            76 => Some([67108863, 8388608, 8388608, 8388608]),
            82 => Some([67108863, 8388608, 8388608, 8388608]),
            83 => Some([67108863, 8388608, 8388608, 8388608]),
            _ => None,
        },
        77 => match group {
            67 => Some([5509251, 1572864, 8388608, 143362]),
            77 => Some([962832, 8388608, 8388608, 8388608]),
            _ => None,
        },
        79 => match group {
            67 => Some([19, 5009710, 40980, 270336]),
            77 => Some([8388608, 8388608, 8388608, 8388608]),
            80 => Some([19, 5009710, 40980, 270336]),
            _ => None,
        },
        82 => match group {
            65 => Some([8388608, 1572864, 663584, 143362]),
            68 => Some([4493313, 8388608, 8388608, 143362]),
            70 => Some([5009710, 532484, 32774, 4115]),
            77 => Some([8388608, 8388608, 8388608, 143362]),
            80 => Some([299302, 8388608, 8388608, 143362]),
            83 => Some([299302, 8388608, 8388608, 143362]),
            87 => Some([5009710, 532484, 32774, 4115]),
            _ => None,
        },
        83 => match group {
            67 => Some([3150082, 528388, 266244, 32773]),
            69 => Some([266498, 2660360, 266244, 32788]),
            70 => Some([4127, 16781344, 266244, 32788]),
            77 => Some([36864, 8388608, 8388608, 8388608]),
            82 => Some([33558733, 16781580, 266244, 32772]),
            84 => Some([4485422, 593952, 266244, 32788]),
            _ => None,
        },
        84 => match group {
            66 => Some([4412, 8388608, 8388608, 8388608]),
            67 => Some([8402948, 8388608, 8388608, 8388608]),
            68 => Some([302116, 8388608, 8388608, 8388608]),
            73 => Some([659516, 36916, 8388608, 8388608]),
            77 => Some([8388608, 8388608, 8388608, 8388608]),
            82 => Some([2240544, 4534281, 8388608, 8388608]),
            84 => Some([833041, 8388608, 8388608, 8388608]),
            _ => None,
        },
        _ => None,
    }
}

/// The category letter is defined by the taxonomy.
pub fn find_category(category: u8) -> (r: bool)
    ensures
        r == cfi_category_known(category),
{
    match category {
        67 | 68 | 69 | 70 | 72 | 73 | 74 | 75 | 76 | 77 | 79 | 82 | 83 | 84 => true,
        _ => false,
    }
}

/// The attribute masks of a group of a category, if the taxonomy defines it.
pub fn find_group(category: u8, group: u8) -> (r: Option<[u32; 4]>)
    ensures
        r == cfi_group_masks(category, group),
{
    match category {
        67 => match group {
            66 => Some([16388, 832, 2235454, 18153472]),
            69 => Some([16388, 832, 2235454, 18153472]),
            70 => Some([37266, 8916992, 8388608, 8388608]),
            72 => Some([401433, 8394891, 8395808, 8916992]),
            73 => Some([16388, 832, 2235454, 18153472]),
            77 => Some([8388608, 8388608, 8388608, 266242]),
            80 => Some([16388, 832, 2235454, 18153472]),
            83 => Some([16388, 832, 2235454, 18153472]),
            _ => None,
        },
        68 => match group {
            65 => Some([35652644, 1958476, 755839, 143362]),
            66 => Some([35652644, 1958476, 755839, 143362]),
            67 => Some([35652644, 1958476, 755839, 143362]),
            68 => Some([35652644, 1958476, 755839, 143362]),
            69 => Some([5119, 18878504, 921604, 790798]),
            71 => Some([35652644, 1958476, 755839, 143362]),
            77 => Some([36866, 1958476, 8388608, 143362]),
            78 => Some([35652644, 1958476, 755839, 143362]),
            83 => Some([7935, 18878504, 2627630, 790798]),
            84 => Some([35652644, 1958476, 755839, 143362]),
            87 => Some([35652644, 1958476, 755839, 143362]),
            89 => Some([44041248, 10347084, 9144447, 143362]),
            _ => None,
        },
        69 => match group {
            67 => Some([2236432, 1572864, 49184, 143362]),
            68 => Some([301092, 8527882, 1155117, 143362]),
            70 => Some([2236432, 663637, 1155117, 143362]),
            76 => Some([2236432, 1572864, 49184, 143362]),
            77 => Some([8388608, 8388608, 8388608, 143362]),
            80 => Some([2236432, 663637, 1155117, 143362]),
            83 => Some([2236432, 1572864, 49184, 143362]),
            89 => Some([4127, 16781320, 2101296, 790798]),
            _ => None,
        },
        70 => match group {
            67 => Some([307601, 40964, 270336, 8388608]),
            70 => Some([6582574, 40964, 270336, 8388608]),
            _ => None,
        },
        72 => match group {
            67 => Some([266498, 67108863, 10498049, 8421396]),
            69 => Some([266498, 67108863, 10498049, 8421396]),
            70 => Some([266498, 67108863, 10498049, 8421396]),
            77 => Some([36864, 67108863, 10498049, 8421396]),
            82 => Some([151789, 67108863, 10498049, 8421396]),
            84 => Some([32227327, 67108863, 10498049, 8421396]),
            _ => None,
        },
        73 => match group {
            70 => Some([8388608, 8388608, 8388608, 40980]),
            84 => Some([8388608, 8388608, 8388608, 40980]),
            _ => None,
        },
        74 => match group {
            67 => Some([67108863, 36, 8388608, 32788]),
            69 => Some([282882, 36, 8388608, 32788]),
            70 => Some([528384, 8388644, 8388608, 32788]),
            82 => Some([20736, 36, 8388608, 32788]),
            84 => Some([67108863, 36, 8388608, 32788]),
            _ => None,
        },
        75 => match group {
            67 => Some([8388608, 8388608, 8388608, 8388608]),
            69 => Some([8388608, 8388608, 8388608, 8388608]),
            70 => Some([8388608, 8388608, 8388608, 8388608]),
            77 => Some([8388608, 8388608, 8388608, 8388608]),
            82 => Some([8388608, 8388608, 8388608, 8388608]),
            84 => Some([8388608, 8388608, 8388608, 8388608]),
            _ => None,
        },
        76 => match group {
            76 => Some([67108863, 8388608, 8388608, 8388608]),
            82 => Some([67108863, 8388608, 8388608, 8388608]),
            83 => Some([67108863, 8388608, 8388608, 8388608]),
            _ => None,
        },
        77 => match group {
            67 => Some([5509251, 1572864, 8388608, 143362]),
            77 => Some([962832, 8388608, 8388608, 8388608]),
            _ => None,
        },
        79 => match group {
            67 => Some([19, 5009710, 40980, 270336]),
            77 => Some([8388608, 8388608, 8388608, 8388608]),
            80 => Some([19, 5009710, 40980, 270336]),
            _ => None,
        },
        82 => match group {
            65 => Some([8388608, 1572864, 663584, 143362]),
            68 => Some([4493313, 8388608, 8388608, 143362]),
            70 => Some([5009710, 532484, 32774, 4115]),
            77 => Some([8388608, 8388608, 8388608, 143362]),
            80 => Some([299302, 8388608, 8388608, 143362]),
            83 => Some([299302, 8388608, 8388608, 143362]),
            87 => Some([5009710, 532484, 32774, 4115]),
            _ => None,
        },
        83 => match group {
            67 => Some([3150082, 528388, 266244, 32773]),
            69 => Some([266498, 2660360, 266244, 32788]),
            70 => Some([4127, 16781344, 266244, 32788]),
            77 => Some([36864, 8388608, 8388608, 8388608]),
            82 => Some([33558733, 16781580, 266244, 32772]),
            84 => Some([4485422, 593952, 266244, 32788]),
            _ => None,
        },
        84 => match group {
            66 => Some([4412, 8388608, 8388608, 8388608]),
            67 => Some([8402948, 8388608, 8388608, 8388608]),
            68 => Some([302116, 8388608, 8388608, 8388608]),
            73 => Some([659516, 36916, 8388608, 8388608]),
            77 => Some([8388608, 8388608, 8388608, 8388608]),
            82 => Some([2240544, 4534281, 8388608, 8388608]),
            84 => Some([833041, 8388608, 8388608, 8388608]),
            _ => None,
        },
        _ => None,
    }
}

// ---------------------------------------------------------------- model

/// Whether `mask` lets the letter `code` stand as an attribute.
pub open spec fn cfi_attr_allows(mask: u32, code: u8) -> bool {
    let shift = if code >= 65 { code - 65 } else { 0 };
    shift < 32 && (mask >> (shift as u32)) & 1 == 1
}

pub open spec fn cfi_classes_ok(b: Seq<u8>) -> bool {
    forall|i: int| 0 <= i < 6 ==> is_upper_byte(#[trigger] b[i])
}

pub open spec fn cfi_first_bad(b: Seq<u8>, i: int) -> bool {
    &&& 0 <= i < 6
    &&& !is_upper_byte(b[i])
    &&& forall|j: int| 0 <= j < i ==> is_upper_byte(#[trigger] b[j])
}

pub open spec fn cfi_check_classes(b: Seq<u8>) -> Result<(), CfiError> {
    if cfi_classes_ok(b) {
        Ok(())
    } else {
        let i = choose|i: int| cfi_first_bad(b, i);
        Err(CfiError::InvalidCharacter { character: b[i] as char, position: (i + 1) as u8 })
    }
}

/// `i` is the first attribute (0-based) that the group's masks reject.
pub open spec fn cfi_first_bad_attr(b: Seq<u8>, masks: [u32; 4], i: int) -> bool {
    &&& 0 <= i < 4
    &&& !cfi_attr_allows(masks[i], b[i + 2])
    &&& forall|j: int| 0 <= j < i ==> cfi_attr_allows(#[trigger] masks[j], b[j + 2])
}

/// The outcome of checking six uppercase letters against the taxonomy.
pub open spec fn cfi_check_taxonomy(b: Seq<u8>) -> Result<(), CfiError> {
    if !cfi_category_known(b[0]) {
        Err(CfiError::UnknownCategory { code: b[0] as char })
    } else {
        match cfi_group_masks(b[0], b[1]) {
            None => Err(CfiError::UnknownGroup { category: b[0] as char, code: b[1] as char }),
            Some(masks) => if forall|j: int| 0 <= j < 4 ==> cfi_attr_allows(#[trigger] masks[j], b[j + 2]) {
                Ok(())
            } else {
                let i = choose|i: int| cfi_first_bad_attr(b, masks, i);
                Err(
                    CfiError::InvalidAttribute {
                        category: b[0] as char,
                        group: b[1] as char,
                        index: (i + 1) as u8,
                        code: b[i + 2] as char,
                    },
                )
            },
        }
    }
}

/// The outcome of validating six bytes as a CFI code.
pub open spec fn cfi_validate(b: Seq<u8>) -> Result<(), CfiError> {
    match cfi_check_classes(b) {
        Err(e) => Err(e),
        Ok(_) => cfi_check_taxonomy(b),
    }
}

pub open spec fn cfi_valid(b: Seq<u8>) -> bool {
    b.len() == 6 && cfi_validate(b) is Ok
}

/// The outcome of normalizing user input: trim, require six ASCII
/// characters, uppercase.
pub open spec fn cfi_normalize(s: Seq<char>) -> Result<Seq<u8>, CfiError> {
    if s.len() == 0 {
        Err(CfiError::Empty)
    } else {
        let t = trimmed(s);
        if t.len() != 6 {
            Err(CfiError::InvalidLength { found: t.len() as usize })
        } else if !all_ascii_chars(t) {
            let i = first_non_ascii(t);
            Err(CfiError::InvalidCharacter { character: t[i], position: (i + 1) as u8 })
        } else {
            Ok(upper_bytes(t))
        }
    }
}

pub open spec fn cfi_parse(s: Seq<char>) -> Result<Seq<u8>, CfiError> {
    match cfi_normalize(s) {
        Err(e) => Err(e),
        Ok(b) => match cfi_validate(b) {
            Err(e) => Err(e),
            Ok(_) => Ok(b),
        },
    }
}

// ---------------------------------------------------------------- proofs

proof fn lemma_first_bad_unique(b: Seq<u8>, i: int)
    requires
        cfi_first_bad(b, i),
    ensures
        (choose|k: int| cfi_first_bad(b, k)) == i,
{
    let k = choose|k: int| cfi_first_bad(b, k);
    assert(cfi_first_bad(b, k));
    if k < i {
        assert(is_upper_byte(b[k]));
    } else if k > i {
        assert(is_upper_byte(b[i]));
    }
}

proof fn lemma_first_bad_attr_unique(b: Seq<u8>, masks: [u32; 4], i: int)
    requires
        cfi_first_bad_attr(b, masks, i),
    ensures
        (choose|k: int| cfi_first_bad_attr(b, masks, k)) == i,
{
    let k = choose|k: int| cfi_first_bad_attr(b, masks, k);
    assert(cfi_first_bad_attr(b, masks, k));
    if k < i {
        assert(cfi_attr_allows(masks[k], b[k + 2]));
    } else if k > i {
        assert(cfi_attr_allows(masks[i], b[i + 2]));
    }
}

// ---------------------------------------------------------------- code

/// Whether `mask` lets the letter `code` stand as an attribute.
pub fn attr_allows(mask: u32, code: u8) -> (r: bool)
    ensures
        r == cfi_attr_allows(mask, code),
{
    let shift = code.saturating_sub(65) as u32;
    if shift >= 32 {
        false
    } else {
        (mask >> shift) & 1 == 1
    }
}

pub fn validate_character_classes(candidate: [u8; 6]) -> (r: Result<(), CfiError>)
    ensures
        r == cfi_check_classes(candidate@),
{
    let mut i: usize = 0;
    while i < 6
        invariant
            i <= 6,
            forall|j: int| 0 <= j < i ==> is_upper_byte(#[trigger] candidate@[j]),
        decreases 6 - i,
    {
        let byte = candidate[i];
        if !byte_is_upper(byte) {
            proof {
                lemma_first_bad_unique(candidate@, i as int);
            }
            return Err(CfiError::InvalidCharacter { character: byte as char, position: (i + 1) as u8 });
        }
        i = i + 1;
    }
    Ok(())
}

pub fn validate_taxonomy(candidate: [u8; 6]) -> (r: Result<(), CfiError>)
    ensures
        r == cfi_check_taxonomy(candidate@),
{
    let c_cat = candidate[0];
    let c_grp = candidate[1];
    if !find_category(c_cat) {
        return Err(CfiError::UnknownCategory { code: c_cat as char });
    }
    let masks = match find_group(c_cat, c_grp) {
        None => {
            return Err(CfiError::UnknownGroup { category: c_cat as char, code: c_grp as char });
        },
        Some(m) => m,
    };
    let mut i: usize = 0;
    while i < 4
        invariant
            i <= 4,
            candidate@[0] == c_cat,
            candidate@[1] == c_grp,
            cfi_category_known(c_cat),
            cfi_group_masks(c_cat, c_grp) == Some(masks),
            forall|j: int| 0 <= j < i ==> cfi_attr_allows(#[trigger] masks[j], candidate@[j + 2]),
        decreases 4 - i,
    {
        let code = candidate[i + 2];
        if !attr_allows(masks[i], code) {
            proof {
                assert(!cfi_attr_allows(masks[i as int], candidate@[i + 2]));
                lemma_first_bad_attr_unique(candidate@, masks, i as int);
            }
            return Err(
                CfiError::InvalidAttribute {
                    category: c_cat as char,
                    group: c_grp as char,
                    index: (i + 1) as u8,
                    code: code as char,
                },
            );
        }
        i = i + 1;
    }
    Ok(())
}

/// Validates six bytes as a CFI code: character classes first, then the
/// taxonomy.
pub fn validate(candidate: [u8; 6]) -> (r: Result<(), CfiError>)
    ensures
        r == cfi_validate(candidate@),
{
    validate_character_classes(candidate)?;
    validate_taxonomy(candidate)?;
    Ok(())
}

/// Trims the input and checks that six ASCII characters remain; returns
/// them uppercased.
pub fn normalize(input: &str) -> (r: Result<[u8; 6], CfiError>)
    ensures
        match cfi_normalize(input@) {
            Ok(b) => r matches Ok(a) && a@ == b,
            Err(e) => r == Err::<[u8; 6], CfiError>(e),
        },
{
    if input.unicode_len() == 0 {
        return Err(CfiError::Empty);
    }
    let t = trimmed_chars(input);
    let found = t.len();
    if found != 6 {
        return Err(CfiError::InvalidLength { found });
    }
    match find_non_ascii(&t) {
        Some(i) => Err(CfiError::InvalidCharacter { character: t[i], position: (i + 1) as u8 }),
        None => Ok(upper_ascii_array::<6>(&t)),
    }
}

impl Cfi {
    #[verifier::type_invariant]
    spec fn well_formed(self) -> bool {
        cfi_valid(self.bytes@)
    }

    /// The six letters of the code.
    pub closed spec fn view(self) -> Seq<u8> {
        self.bytes@
    }

    /// Parses user input: surrounding whitespace is trimmed and letters are
    /// uppercased before validation.
    pub fn parse(input: &str) -> (r: Result<Self, CfiError>)
        ensures
            match cfi_parse(input@) {
                Ok(b) => r matches Ok(x) && x.view() == b,
                Err(e) => r == Err::<Cfi, CfiError>(e),
            },
    {
        match normalize(input) {
            Err(e) => Err(e),
            Ok(candidate) => Self::from_bytes(candidate),
        }
    }

    /// Validates bytes that are already normalized.
    pub fn from_bytes(bytes: [u8; 6]) -> (r: Result<Self, CfiError>)
        ensures
            match cfi_validate(bytes@) {
                Ok(_) => r matches Ok(x) && x.view() == bytes@,
                Err(e) => r == Err::<Cfi, CfiError>(e),
            },
    {
        match validate(bytes) {
            Err(e) => Err(e),
            Ok(()) => Ok(Cfi { bytes }),
        }
    }

    pub fn as_bytes(&self) -> (r: &[u8; 6])
        ensures
            r@ == self.view(),
            cfi_valid(r@),
    {
        proof {
            use_type_invariant(self);
        }
        &self.bytes
    }

    pub fn as_str(&self) -> (r: &str)
        ensures
            r@ == bytes_as_chars(self.view()),
    {
        proof {
            use_type_invariant(self);
            assert forall|i: int| 0 <= i < 6 implies self.bytes@[i] < 128 by {
                assert(is_upper_byte(self.bytes@[i]));
            }
        }
        ascii_str(self.bytes.as_slice())
    }

    /// The category letter (position 1).
    pub fn category(&self) -> (r: char)
        ensures
            r == self.view()[0] as char,
    {
        self.bytes[0] as char
    }

    /// The group letter (position 2).
    pub fn group(&self) -> (r: char)
        ensures
            r == self.view()[1] as char,
    {
        self.bytes[1] as char
    }

    /// The four attribute letters (positions 3 to 6).
    pub fn attributes(&self) -> (r: [char; 4])
        ensures
            r@ == bytes_as_chars(self.view().subrange(2, 6)),
    {
        let r = [
            self.bytes[2] as char,
            self.bytes[3] as char,
            self.bytes[4] as char,
            self.bytes[5] as char,
        ];
        assert(r@ =~= bytes_as_chars(self.view().subrange(2, 6)));
        r
    }
}

/// The text of a CFI error.
pub open spec fn cfi_error_message(e: CfiError) -> Seq<char> {
    match e {
        CfiError::Empty => "empty CFI"@,
        CfiError::InvalidLength { found } => "CFI must contain exactly 6 characters, found "@ + decimal(found as nat),
        CfiError::InvalidCharacter { character, position } => "invalid character '"@ + seq![character]
            + "' at position "@ + decimal(position as nat)
            + " of 6: expected an uppercase letter (A-Z) ASCII character"@,
        CfiError::UnknownCategory { code } => "unknown CFI category '"@ + seq![code] + "' at position 1"@,
        CfiError::UnknownGroup { code, .. } => "unknown CFI group '"@ + seq![code] + "' at position 2"@,
        CfiError::InvalidAttribute { index, code, .. } => "invalid attribute '"@ + seq![code]
            + "' at position "@ + decimal(index as nat) + " of 6"@,
    }
}

impl CfiError {
    /// The human-readable text of the error, as `Display` prints it.
    pub fn to_string(&self) -> (msg: String)
        ensures
            msg@ == cfi_error_message(*self),
    {
        match self {
            CfiError::Empty => String::from_str("empty CFI"),
            CfiError::InvalidLength { found } => {
                let mut s = String::from_str("CFI must contain exactly 6 characters, found ");
                push_decimal(&mut s, *found as u64);
                s
            },
            CfiError::InvalidCharacter { character, position } => {
                let mut s = String::from_str("invalid character '");
                push_char(&mut s, *character);
                s.append("' at position ");
                push_decimal(&mut s, *position as u64);
                s.append(" of 6: expected an uppercase letter (A-Z) ASCII character");
                s
            },
            CfiError::UnknownCategory { code } => {
                let mut s = String::from_str("unknown CFI category '");
                push_char(&mut s, *code);
                s.append("' at position 1");
                s
            },
            CfiError::UnknownGroup { code, .. } => {
                let mut s = String::from_str("unknown CFI group '");
                push_char(&mut s, *code);
                s.append("' at position 2");
                s
            },
            CfiError::InvalidAttribute { index, code, .. } => {
                let mut s = String::from_str("invalid attribute '");
                push_char(&mut s, *code);
                s.append("' at position ");
                push_decimal(&mut s, *index as u64);
                s.append(" of 6");
                s
            },
        }
    }
}

impl Cfi {
    /// The canonical form, as `Display` prints it.
    pub fn to_string(&self) -> (s: String)
        ensures
            s@ == bytes_as_chars(self.view()),
    {
        String::from_str(self.as_str())
    }

    /// `Cfi("…")`, as `Debug` prints it.
    pub fn debug_string(&self) -> (s: String)
        ensures
            s@ == debug_tuple("Cfi"@, bytes_as_chars(self.view())),
    {
        debug_tuple_string("Cfi", self.as_str())
    }
}

impl core::str::FromStr for Cfi {
    type Err = CfiError;

    fn from_str(s: &str) -> (r: Result<Self, Self::Err>)
        ensures
            match cfi_parse(s@) {
                Ok(b) => (r matches Ok(x) && x.view() == b),
                Err(e) => r == Err::<Cfi, CfiError>(e),
            },
    {
        Self::parse(s)
    }
}

impl Cfi {
    /// The value `try_from` on input text gives.
    pub closed spec fn parsed(s: Seq<char>) -> Result<Cfi, CfiError> {
        match cfi_parse(s) {
            Ok(b) => Ok(Cfi { bytes: choose|a: [u8; 6]| #[trigger] a@ == b }),
            Err(e) => Err(e),
        }
    }

    /// The value `try_from` on 6 bytes gives.
    pub closed spec fn checked(v: [u8; 6]) -> Result<Cfi, CfiError> {
        match cfi_validate(v@) {
            Ok(_) => Ok(Cfi { bytes: v }),
            Err(e) => Err(e),
        }
    }

    /// The value `try_from` on a byte slice gives.
    pub closed spec fn checked_slice(v: Seq<u8>) -> Result<Cfi, CfiError> {
        if v.len() != 6 {
            Err(CfiError::InvalidLength { found: v.len() as usize })
        } else {
            match cfi_validate(v) {
                Ok(_) => Ok(Cfi { bytes: choose|a: [u8; 6]| #[trigger] a@ == v }),
                Err(e) => Err(e),
            }
        }
    }
}

impl<'a> TryFrom<&'a str> for Cfi {
    type Error = CfiError;

    fn try_from(value: &'a str) -> (r: Result<Self, Self::Error>) {
        let r = Self::parse(value);
        proof {
            if let Ok(b) = cfi_parse(value@) {
                let x = r->Ok_0;
                assert(x.bytes@ == b);
                let a = choose|a: [u8; 6]| #[trigger] a@ == b;
                assert(a@ == b);
                assert(a =~= x.bytes);
            }
        }
        r
    }
}

impl<'a> vstd::std_specs::convert::TryFromSpecImpl<&'a str> for Cfi {
    open spec fn obeys_try_from_spec() -> bool {
        true
    }

    open spec fn try_from_spec(v: &'a str) -> Result<Self, Self::Error> {
        Cfi::parsed(v@)
    }
}

impl TryFrom<[u8; 6]> for Cfi {
    type Error = CfiError;

    fn try_from(value: [u8; 6]) -> (r: Result<Self, Self::Error>) {
        let r = Self::from_bytes(value);
        proof {
            if let Ok(x) = r {
                assert(x.bytes =~= value);
            }
        }
        r
    }
}

impl vstd::std_specs::convert::TryFromSpecImpl<[u8; 6]> for Cfi {
    open spec fn obeys_try_from_spec() -> bool {
        true
    }

    open spec fn try_from_spec(v: [u8; 6]) -> Result<Self, Self::Error> {
        Cfi::checked(v)
    }
}

impl<'a> TryFrom<&'a [u8]> for Cfi {
    type Error = CfiError;

    fn try_from(value: &'a [u8]) -> (r: Result<Self, Self::Error>) {
        if value.len() != 6 {
            return Err(CfiError::InvalidLength { found: value.len() });
        }
        let bytes: [u8; 6] = [
            value[0],
            value[1],
            value[2],
            value[3],
            value[4],
            value[5],
        ];
        assert(bytes@ =~= value@);
        let r = Self::from_bytes(bytes);
        proof {
            if let Ok(x) = r {
                let a = choose|a: [u8; 6]| #[trigger] a@ == value@;
                assert(a@ == x.bytes@);
                assert(a =~= x.bytes);
            }
        }
        r
    }
}

impl<'a> vstd::std_specs::convert::TryFromSpecImpl<&'a [u8]> for Cfi {
    open spec fn obeys_try_from_spec() -> bool {
        true
    }

    open spec fn try_from_spec(v: &'a [u8]) -> Result<Self, Self::Error> {
        Cfi::checked_slice(v@)
    }
}

impl PartialEq<str> for Cfi {
    fn eq(&self, other: &str) -> (r: bool) {
        bytes_eq_str(self.as_bytes().as_slice(), other)
    }
}

impl vstd::std_specs::cmp::PartialEqSpecImpl<str> for Cfi {
    open spec fn obeys_eq_spec() -> bool {
        true
    }

    open spec fn eq_spec(&self, other: &str) -> bool {
        bytes_as_chars(self.view()) == other@
    }
}

impl<'a> PartialEq<&'a str> for Cfi {
    fn eq(&self, other: &&'a str) -> (r: bool) {
        bytes_eq_str(self.as_bytes().as_slice(), *other)
    }
}

impl<'a> vstd::std_specs::cmp::PartialEqSpecImpl<&'a str> for Cfi {
    open spec fn obeys_eq_spec() -> bool {
        true
    }

    open spec fn eq_spec(&self, other: &&'a str) -> bool {
        bytes_as_chars(self.view()) == other@
    }
}

impl PartialEq<Cfi> for str {
    fn eq(&self, other: &Cfi) -> (r: bool) {
        bytes_eq_str(other.as_bytes().as_slice(), self)
    }
}

impl vstd::std_specs::cmp::PartialEqSpecImpl<Cfi> for str {
    open spec fn obeys_eq_spec() -> bool {
        true
    }

    open spec fn eq_spec(&self, other: &Cfi) -> bool {
        bytes_as_chars(other.view()) == self@
    }
}

impl<'a> PartialEq<Cfi> for &'a str {
    fn eq(&self, other: &Cfi) -> (r: bool) {
        bytes_eq_str(other.as_bytes().as_slice(), *self)
    }
}

impl<'a> vstd::std_specs::cmp::PartialEqSpecImpl<Cfi> for &'a str {
    open spec fn obeys_eq_spec() -> bool {
        true
    }

    open spec fn eq_spec(&self, other: &Cfi) -> bool {
        bytes_as_chars(other.view()) == self@
    }
}

impl AsRef<[u8]> for Cfi {
    fn as_ref(&self) -> (r: &[u8])
        ensures
            ({
                let b: &[u8] = r;
                b@ == self.view()
            }),
    {
        self.as_bytes().as_slice()
    }
}

impl AsRef<str> for Cfi {
    fn as_ref(&self) -> (r: &str)
        ensures
            ({
                let t: &str = r;
                t@ == bytes_as_chars(self.view())
            }),
    {
        self.as_str()
    }
}


// ---------------------------------------------------------------- the standard

/// The categories that ISO 10962 defines, by their letters.
pub open spec fn iso10962_has_category(category: char) -> bool {
    category == 'C' || category == 'D' || category == 'E' || category == 'F' || category == 'H'
    || category == 'I' || category == 'J' || category == 'K' || category == 'L'
    || category == 'M' || category == 'O' || category == 'R' || category == 'S'
    || category == 'T'
}

/// The groups that ISO 10962 defines, by the letters of their category and
/// group.
pub open spec fn iso10962_has_group(category: char, group: char) -> bool {
    match category {
        'C' => group == 'B' || group == 'E' || group == 'F' || group == 'H' || group == 'I'
            || group == 'M' || group == 'P' || group == 'S',
        'D' => group == 'A' || group == 'B' || group == 'C' || group == 'D' || group == 'E'
            || group == 'G' || group == 'M' || group == 'N' || group == 'S' || group == 'T'
            || group == 'W' || group == 'Y',
        'E' => group == 'C' || group == 'D' || group == 'F' || group == 'L' || group == 'M'
            || group == 'P' || group == 'S' || group == 'Y',
        'F' => group == 'C' || group == 'F',
        'H' => group == 'C' || group == 'E' || group == 'F' || group == 'M' || group == 'R'
            || group == 'T',
        'I' => group == 'F' || group == 'T',
        'J' => group == 'C' || group == 'E' || group == 'F' || group == 'R' || group == 'T',
        'K' => group == 'C' || group == 'E' || group == 'F' || group == 'M' || group == 'R'
            || group == 'T',
        'L' => group == 'L' || group == 'R' || group == 'S',
        'M' => group == 'C' || group == 'M',
        'O' => group == 'C' || group == 'M' || group == 'P',
        'R' => group == 'A' || group == 'D' || group == 'F' || group == 'M' || group == 'P'
            || group == 'S' || group == 'W',
        'S' => group == 'C' || group == 'E' || group == 'F' || group == 'M' || group == 'R'
            || group == 'T',
        'T' => group == 'B' || group == 'C' || group == 'D' || group == 'I' || group == 'M'
            || group == 'R' || group == 'T',
        _ => false,
    }
}

/// Whether ISO 10962 allows `letter` at attribute `position` (0 to 3) of a
/// group.
pub open spec fn iso10962_allows(category: char, group: char, position: int, letter: char) -> bool {
    match (category, group) {
        ('C', 'B') => if position == 0 {
            letter == 'C' || letter == 'O'
        } else if position == 1 {
            letter == 'G' || letter == 'I' || letter == 'J'
        } else if position == 2 {
            letter == 'B' || letter == 'C' || letter == 'D' || letter == 'E' || letter == 'F'
            || letter == 'K' || letter == 'L' || letter == 'M' || letter == 'R' || letter == 'V'
        } else {
            letter == 'Q' || letter == 'S' || letter == 'U' || letter == 'Y'
        },
        ('C', 'E') => if position == 0 {
            letter == 'C' || letter == 'O'
        } else if position == 1 {
            letter == 'G' || letter == 'I' || letter == 'J'
        } else if position == 2 {
            letter == 'B' || letter == 'C' || letter == 'D' || letter == 'E' || letter == 'F'
            || letter == 'K' || letter == 'L' || letter == 'M' || letter == 'R' || letter == 'V'
        } else {
            letter == 'Q' || letter == 'S' || letter == 'U' || letter == 'Y'
        },
        ('C', 'F') => if position == 0 {
            letter == 'B' || letter == 'E' || letter == 'H' || letter == 'I' || letter == 'M'
            || letter == 'P'
        } else if position == 1 {
            letter == 'M' || letter == 'T' || letter == 'X'
        } else if position == 2 {
            letter == 'X'
        } else {
            letter == 'X'
        },
        ('C', 'H') => if position == 0 {
            letter == 'A' || letter == 'D' || letter == 'E' || letter == 'N' || letter == 'R'
            || letter == 'S'
        } else if position == 1 {
            letter == 'A' || letter == 'B' || letter == 'D' || letter == 'H' || letter == 'L'
            || letter == 'M' || letter == 'X'
        } else if position == 2 {
            letter == 'F' || letter == 'K' || letter == 'L' || letter == 'M' || letter == 'X'
        } else {
            letter == 'M' || letter == 'T' || letter == 'X'
        },
        ('C', 'I') => if position == 0 {
            letter == 'C' || letter == 'O'
        } else if position == 1 {
            letter == 'G' || letter == 'I' || letter == 'J'
        } else if position == 2 {
            letter == 'B' || letter == 'C' || letter == 'D' || letter == 'E' || letter == 'F'
            || letter == 'K' || letter == 'L' || letter == 'M' || letter == 'R' || letter == 'V'
        } else {
            letter == 'Q' || letter == 'S' || letter == 'U' || letter == 'Y'
        },
        ('C', 'M') => if position == 0 {
            letter == 'X'
        } else if position == 1 {
            letter == 'X'
        } else if position == 2 {
            letter == 'X'
        } else {
            letter == 'B' || letter == 'M' || letter == 'S'
        },
        ('C', 'P') => if position == 0 {
            letter == 'C' || letter == 'O'
        } else if position == 1 {
            letter == 'G' || letter == 'I' || letter == 'J'
        } else if position == 2 {
            letter == 'B' || letter == 'C' || letter == 'D' || letter == 'E' || letter == 'F'
            || letter == 'K' || letter == 'L' || letter == 'M' || letter == 'R' || letter == 'V'
        } else {
            letter == 'Q' || letter == 'S' || letter == 'U' || letter == 'Y'
        },
        ('C', 'S') => if position == 0 {
            letter == 'C' || letter == 'O'
        } else if position == 1 {
            letter == 'G' || letter == 'I' || letter == 'J'
        } else if position == 2 {
            letter == 'B' || letter == 'C' || letter == 'D' || letter == 'E' || letter == 'F'
            || letter == 'K' || letter == 'L' || letter == 'M' || letter == 'R' || letter == 'V'
        } else {
            letter == 'Q' || letter == 'S' || letter == 'U' || letter == 'Y'
        },
        ('D', 'A') => if position == 0 {
            letter == 'C' || letter == 'F' || letter == 'K' || letter == 'V' || letter == 'Z'
        } else if position == 1 {
            letter == 'C' || letter == 'D' || letter == 'G' || letter == 'J' || letter == 'N'
            || letter == 'O' || letter == 'P' || letter == 'Q' || letter == 'S' || letter == 'T'
            || letter == 'U'
        } else if position == 2 {
            letter == 'A' || letter == 'B' || letter == 'C' || letter == 'D' || letter == 'E'
            || letter == 'F' || letter == 'G' || letter == 'L' || letter == 'P' || letter == 'Q'
            || letter == 'R' || letter == 'T'
        } else {
            letter == 'B' || letter == 'M' || letter == 'N' || letter == 'R'
        },
        ('D', 'B') => if position == 0 {
            letter == 'C' || letter == 'F' || letter == 'K' || letter == 'V' || letter == 'Z'
        } else if position == 1 {
            letter == 'C' || letter == 'D' || letter == 'G' || letter == 'J' || letter == 'N'
            || letter == 'O' || letter == 'P' || letter == 'Q' || letter == 'S' || letter == 'T'
            || letter == 'U'
        } else if position == 2 {
            letter == 'A' || letter == 'B' || letter == 'C' || letter == 'D' || letter == 'E'
            || letter == 'F' || letter == 'G' || letter == 'L' || letter == 'P' || letter == 'Q'
            || letter == 'R' || letter == 'T'
        } else {
            letter == 'B' || letter == 'M' || letter == 'N' || letter == 'R'
        },
        ('D', 'C') => if position == 0 {
            letter == 'C' || letter == 'F' || letter == 'K' || letter == 'V' || letter == 'Z'
        } else if position == 1 {
            letter == 'C' || letter == 'D' || letter == 'G' || letter == 'J' || letter == 'N'
            || letter == 'O' || letter == 'P' || letter == 'Q' || letter == 'S' || letter == 'T'
            || letter == 'U'
        } else if position == 2 {
            letter == 'A' || letter == 'B' || letter == 'C' || letter == 'D' || letter == 'E'
            || letter == 'F' || letter == 'G' || letter == 'L' || letter == 'P' || letter == 'Q'
            || letter == 'R' || letter == 'T'
        } else {
            letter == 'B' || letter == 'M' || letter == 'N' || letter == 'R'
        },
        ('D', 'D') => if position == 0 {
            letter == 'C' || letter == 'F' || letter == 'K' || letter == 'V' || letter == 'Z'
        } else if position == 1 {
            letter == 'C' || letter == 'D' || letter == 'G' || letter == 'J' || letter == 'N'
            || letter == 'O' || letter == 'P' || letter == 'Q' || letter == 'S' || letter == 'T'
            || letter == 'U'
        } else if position == 2 {
            letter == 'A' || letter == 'B' || letter == 'C' || letter == 'D' || letter == 'E'
            || letter == 'F' || letter == 'G' || letter == 'L' || letter == 'P' || letter == 'Q'
            || letter == 'R' || letter == 'T'
        } else {
            letter == 'B' || letter == 'M' || letter == 'N' || letter == 'R'
        },
        ('D', 'E') => if position == 0 {
            letter == 'A' || letter == 'B' || letter == 'C' || letter == 'D' || letter == 'E'
            || letter == 'F' || letter == 'G' || letter == 'H' || letter == 'I' || letter == 'J'
            || letter == 'M'
        } else if position == 1 {
            letter == 'D' || letter == 'F' || letter == 'M' || letter == 'V' || letter == 'Y'
        } else if position == 2 {
            letter == 'C' || letter == 'M' || letter == 'R' || letter == 'S' || letter == 'T'
        } else {
            letter == 'B' || letter == 'C' || letter == 'D' || letter == 'I' || letter == 'M'
            || letter == 'S' || letter == 'T'
        },
        ('D', 'G') => if position == 0 {
            letter == 'C' || letter == 'F' || letter == 'K' || letter == 'V' || letter == 'Z'
        } else if position == 1 {
            letter == 'C' || letter == 'D' || letter == 'G' || letter == 'J' || letter == 'N'
            || letter == 'O' || letter == 'P' || letter == 'Q' || letter == 'S' || letter == 'T'
            || letter == 'U'
        } else if position == 2 {
            letter == 'A' || letter == 'B' || letter == 'C' || letter == 'D' || letter == 'E'
            || letter == 'F' || letter == 'G' || letter == 'L' || letter == 'P' || letter == 'Q'
            || letter == 'R' || letter == 'T'
        } else {
            letter == 'B' || letter == 'M' || letter == 'N' || letter == 'R'
        },
        ('D', 'M') => if position == 0 {
            letter == 'B' || letter == 'M' || letter == 'P'
        } else if position == 1 {
            letter == 'C' || letter == 'D' || letter == 'G' || letter == 'J' || letter == 'N'
            || letter == 'O' || letter == 'P' || letter == 'Q' || letter == 'S' || letter == 'T'
            || letter == 'U'
        } else if position == 2 {
            letter == 'X'
        } else {
            letter == 'B' || letter == 'M' || letter == 'N' || letter == 'R'
        },
        ('D', 'N') => if position == 0 {
            letter == 'C' || letter == 'F' || letter == 'K' || letter == 'V' || letter == 'Z'
        } else if position == 1 {
            letter == 'C' || letter == 'D' || letter == 'G' || letter == 'J' || letter == 'N'
            || letter == 'O' || letter == 'P' || letter == 'Q' || letter == 'S' || letter == 'T'
            || letter == 'U'
        } else if position == 2 {
            letter == 'A' || letter == 'B' || letter == 'C' || letter == 'D' || letter == 'E'
            || letter == 'F' || letter == 'G' || letter == 'L' || letter == 'P' || letter == 'Q'
            || letter == 'R' || letter == 'T'
        } else {
            letter == 'B' || letter == 'M' || letter == 'N' || letter == 'R'
        },
        ('D', 'S') => if position == 0 {
            letter == 'A' || letter == 'B' || letter == 'C' || letter == 'D' || letter == 'E'
            || letter == 'F' || letter == 'G' || letter == 'H' || letter == 'J' || letter == 'K'
            || letter == 'L' || letter == 'M'
        } else if position == 1 {
            letter == 'D' || letter == 'F' || letter == 'M' || letter == 'V' || letter == 'Y'
        } else if position == 2 {
            letter == 'B' || letter == 'C' || letter == 'D' || letter == 'F' || letter == 'L'
            || letter == 'M' || letter == 'T' || letter == 'V'
        } else {
            letter == 'B' || letter == 'C' || letter == 'D' || letter == 'I' || letter == 'M'
            || letter == 'S' || letter == 'T'
        },
        ('D', 'T') => if position == 0 {
            letter == 'C' || letter == 'F' || letter == 'K' || letter == 'V' || letter == 'Z'
        } else if position == 1 {
            letter == 'C' || letter == 'D' || letter == 'G' || letter == 'J' || letter == 'N'
            || letter == 'O' || letter == 'P' || letter == 'Q' || letter == 'S' || letter == 'T'
            || letter == 'U'
        } else if position == 2 {
            letter == 'A' || letter == 'B' || letter == 'C' || letter == 'D' || letter == 'E'
            || letter == 'F' || letter == 'G' || letter == 'L' || letter == 'P' || letter == 'Q'
            || letter == 'R' || letter == 'T'
        } else {
            letter == 'B' || letter == 'M' || letter == 'N' || letter == 'R'
        },
        ('D', 'W') => if position == 0 {
            letter == 'C' || letter == 'F' || letter == 'K' || letter == 'V' || letter == 'Z'
        } else if position == 1 {
            letter == 'C' || letter == 'D' || letter == 'G' || letter == 'J' || letter == 'N'
            || letter == 'O' || letter == 'P' || letter == 'Q' || letter == 'S' || letter == 'T'
            || letter == 'U'
        } else if position == 2 {
            letter == 'A' || letter == 'B' || letter == 'C' || letter == 'D' || letter == 'E'
            || letter == 'F' || letter == 'G' || letter == 'L' || letter == 'P' || letter == 'Q'
            || letter == 'R' || letter == 'T'
        } else {
            letter == 'B' || letter == 'M' || letter == 'N' || letter == 'R'
        },
        ('D', 'Y') => if position == 0 {
            letter == 'F' || letter == 'K' || letter == 'V' || letter == 'X' || letter == 'Z'
        } else if position == 1 {
            letter == 'C' || letter == 'D' || letter == 'G' || letter == 'J' || letter == 'N'
            || letter == 'O' || letter == 'P' || letter == 'Q' || letter == 'S' || letter == 'T'
            || letter == 'U' || letter == 'X'
        } else if position == 2 {
            letter == 'A' || letter == 'B' || letter == 'C' || letter == 'D' || letter == 'E'
            || letter == 'F' || letter == 'G' || letter == 'L' || letter == 'P' || letter == 'Q'
            || letter == 'R' || letter == 'T' || letter == 'X'
        } else {
            letter == 'B' || letter == 'M' || letter == 'N' || letter == 'R'
        },
        ('E', 'C') => if position == 0 {
            letter == 'E' || letter == 'N' || letter == 'R' || letter == 'V'
        } else if position == 1 {
            letter == 'T' || letter == 'U'
        } else if position == 2 {
            letter == 'F' || letter == 'O' || letter == 'P'
        } else {
            letter == 'B' || letter == 'M' || letter == 'N' || letter == 'R'
        },
        ('E', 'D') => if position == 0 {
            letter == 'C' || letter == 'F' || letter == 'L' || letter == 'M' || letter == 'P'
            || letter == 'S'
        } else if position == 1 {
            letter == 'B' || letter == 'D' || letter == 'N' || letter == 'R' || letter == 'X'
        } else if position == 2 {
            letter == 'A' || letter == 'C' || letter == 'D' || letter == 'F' || letter == 'N'
            || letter == 'P' || letter == 'Q' || letter == 'U'
        } else {
            letter == 'B' || letter == 'M' || letter == 'N' || letter == 'R'
        },
        ('E', 'F') => if position == 0 {
            letter == 'E' || letter == 'N' || letter == 'R' || letter == 'V'
        } else if position == 1 {
            letter == 'A' || letter == 'C' || letter == 'E' || letter == 'G' || letter == 'N'
            || letter == 'R' || letter == 'T'
        } else if position == 2 {
            letter == 'A' || letter == 'C' || letter == 'D' || letter == 'F' || letter == 'N'
            || letter == 'P' || letter == 'Q' || letter == 'U'
        } else {
            letter == 'B' || letter == 'M' || letter == 'N' || letter == 'R'
        },
        ('E', 'L') => if position == 0 {
            letter == 'E' || letter == 'N' || letter == 'R' || letter == 'V'
        } else if position == 1 {
            letter == 'T' || letter == 'U'
        } else if position == 2 {
            letter == 'F' || letter == 'O' || letter == 'P'
        } else {
            letter == 'B' || letter == 'M' || letter == 'N' || letter == 'R'
        },
        ('E', 'M') => if position == 0 {
            letter == 'X'
        } else if position == 1 {
            letter == 'X'
        } else if position == 2 {
            letter == 'X'
        } else {
            letter == 'B' || letter == 'M' || letter == 'N' || letter == 'R'
        },
        ('E', 'P') => if position == 0 {
            letter == 'E' || letter == 'N' || letter == 'R' || letter == 'V'
        } else if position == 1 {
            letter == 'A' || letter == 'C' || letter == 'E' || letter == 'G' || letter == 'N'
            || letter == 'R' || letter == 'T'
        } else if position == 2 {
            letter == 'A' || letter == 'C' || letter == 'D' || letter == 'F' || letter == 'N'
            || letter == 'P' || letter == 'Q' || letter == 'U'
        } else {
            letter == 'B' || letter == 'M' || letter == 'N' || letter == 'R'
        },
        ('E', 'S') => if position == 0 {
            letter == 'E' || letter == 'N' || letter == 'R' || letter == 'V'
        } else if position == 1 {
            letter == 'T' || letter == 'U'
        } else if position == 2 {
            letter == 'F' || letter == 'O' || letter == 'P'
        } else {
            letter == 'B' || letter == 'M' || letter == 'N' || letter == 'R'
        },
        ('E', 'Y') => if position == 0 {
            letter == 'A' || letter == 'B' || letter == 'C' || letter == 'D' || letter == 'E'
            || letter == 'M'
        } else if position == 1 {
            letter == 'D' || letter == 'M' || letter == 'Y'
        } else if position == 2 {
            letter == 'E' || letter == 'F' || letter == 'M' || letter == 'V'
        } else {
            letter == 'B' || letter == 'C' || letter == 'D' || letter == 'I' || letter == 'M'
            || letter == 'S' || letter == 'T'
        },
        ('F', 'C') => if position == 0 {
            letter == 'A' || letter == 'E' || letter == 'H' || letter == 'I' || letter == 'M'
            || letter == 'N' || letter == 'P' || letter == 'S'
        } else if position == 1 {
            letter == 'C' || letter == 'N' || letter == 'P'
        } else if position == 2 {
            letter == 'N' || letter == 'S'
        } else {
            letter == 'X'
        },
        ('F', 'F') => if position == 0 {
            letter == 'B' || letter == 'C' || letter == 'D' || letter == 'F' || letter == 'I'
            || letter == 'M' || letter == 'N' || letter == 'O' || letter == 'S' || letter == 'V'
            || letter == 'W'
        } else if position == 1 {
            letter == 'C' || letter == 'N' || letter == 'P'
        } else if position == 2 {
            letter == 'N' || letter == 'S'
        } else {
            letter == 'X'
        },
        ('H', 'C') => if position == 0 {
            letter == 'B' || letter == 'I' || letter == 'M' || letter == 'S'
        } else if position == 1 {
            'A' <= letter <= 'Z'
        } else if position == 2 {
            letter == 'A' || letter == 'M' || letter == 'N' || letter == 'V' || letter == 'X'
        } else {
            letter == 'C' || letter == 'E' || letter == 'P' || letter == 'X'
        },
        ('H', 'E') => if position == 0 {
            letter == 'B' || letter == 'I' || letter == 'M' || letter == 'S'
        } else if position == 1 {
            'A' <= letter <= 'Z'
        } else if position == 2 {
            letter == 'A' || letter == 'M' || letter == 'N' || letter == 'V' || letter == 'X'
        } else {
            letter == 'C' || letter == 'E' || letter == 'P' || letter == 'X'
        },
        ('H', 'F') => if position == 0 {
            letter == 'B' || letter == 'I' || letter == 'M' || letter == 'S'
        } else if position == 1 {
            'A' <= letter <= 'Z'
        } else if position == 2 {
            letter == 'A' || letter == 'M' || letter == 'N' || letter == 'V' || letter == 'X'
        } else {
            letter == 'C' || letter == 'E' || letter == 'P' || letter == 'X'
        },
        ('H', 'M') => if position == 0 {
            letter == 'M' || letter == 'P'
        } else if position == 1 {
            'A' <= letter <= 'Z'
        } else if position == 2 {
            letter == 'A' || letter == 'M' || letter == 'N' || letter == 'V' || letter == 'X'
        } else {
            letter == 'C' || letter == 'E' || letter == 'P' || letter == 'X'
        },
        ('H', 'R') => if position == 0 {
            letter == 'A' || letter == 'C' || letter == 'D' || letter == 'F' || letter == 'G'
            || letter == 'H' || letter == 'M' || letter == 'O' || letter == 'R'
        } else if position == 1 {
            'A' <= letter <= 'Z'
        } else if position == 2 {
            letter == 'A' || letter == 'M' || letter == 'N' || letter == 'V' || letter == 'X'
        } else {
            letter == 'C' || letter == 'E' || letter == 'P' || letter == 'X'
        },
        ('H', 'T') => if position == 0 {
            letter == 'A' || letter == 'B' || letter == 'C' || letter == 'D' || letter == 'E'
            || letter == 'F' || letter == 'G' || letter == 'H' || letter == 'I' || letter == 'J'
            || letter == 'K' || letter == 'L' || letter == 'M' || letter == 'N' || letter == 'P'
            || letter == 'Q' || letter == 'R' || letter == 'T' || letter == 'V' || letter == 'W'
            || letter == 'X' || letter == 'Y'
        } else if position == 1 {
            'A' <= letter <= 'Z'
        } else if position == 2 {
            letter == 'A' || letter == 'M' || letter == 'N' || letter == 'V' || letter == 'X'
        } else {
            letter == 'C' || letter == 'E' || letter == 'P' || letter == 'X'
        },
        ('I', 'F') => if position == 0 {
            letter == 'X'
        } else if position == 1 {
            letter == 'X'
        } else if position == 2 {
            letter == 'X'
        } else {
            letter == 'C' || letter == 'E' || letter == 'N' || letter == 'P'
        },
        ('I', 'T') => if position == 0 {
            letter == 'X'
        } else if position == 1 {
            letter == 'X'
        } else if position == 2 {
            letter == 'X'
        } else {
            letter == 'C' || letter == 'E' || letter == 'N' || letter == 'P'
        },
        ('J', 'C') => if position == 0 {
            'A' <= letter <= 'Z'
        } else if position == 1 {
            letter == 'C' || letter == 'F'
        } else if position == 2 {
            letter == 'X'
        } else {
            letter == 'C' || letter == 'E' || letter == 'P'
        },
        ('J', 'E') => if position == 0 {
            letter == 'B' || letter == 'I' || letter == 'M' || letter == 'O' || letter == 'S'
        } else if position == 1 {
            letter == 'C' || letter == 'F'
        } else if position == 2 {
            letter == 'X'
        } else {
            letter == 'C' || letter == 'E' || letter == 'P'
        },
        ('J', 'F') => if position == 0 {
            letter == 'M' || letter == 'T'
        } else if position == 1 {
            letter == 'C' || letter == 'F' || letter == 'X'
        } else if position == 2 {
            letter == 'X'
        } else {
            letter == 'C' || letter == 'E' || letter == 'P'
        },
        ('J', 'R') => if position == 0 {
            letter == 'I' || letter == 'M' || letter == 'O'
        } else if position == 1 {
            letter == 'C' || letter == 'F'
        } else if position == 2 {
            letter == 'X'
        } else {
            letter == 'C' || letter == 'E' || letter == 'P'
        },
        ('J', 'T') => if position == 0 {
            'A' <= letter <= 'Z'
        } else if position == 1 {
            letter == 'C' || letter == 'F'
        } else if position == 2 {
            letter == 'X'
        } else {
            letter == 'C' || letter == 'E' || letter == 'P'
        },
        ('K', 'C') => if position == 0 {
            letter == 'X'
        } else if position == 1 {
            letter == 'X'
        } else if position == 2 {
            letter == 'X'
        } else {
            letter == 'X'
        },
        ('K', 'E') => if position == 0 {
            letter == 'X'
        } else if position == 1 {
            letter == 'X'
        } else if position == 2 {
            letter == 'X'
        } else {
            letter == 'X'
        },
        ('K', 'F') => if position == 0 {
            letter == 'X'
        } else if position == 1 {
            letter == 'X'
        } else if position == 2 {
            letter == 'X'
        } else {
            letter == 'X'
        },
        ('K', 'M') => if position == 0 {
            letter == 'X'
        } else if position == 1 {
            letter == 'X'
        } else if position == 2 {
            letter == 'X'
        } else {
            letter == 'X'
        },
        ('K', 'R') => if position == 0 {
            letter == 'X'
        } else if position == 1 {
            letter == 'X'
        } else if position == 2 {
            letter == 'X'
        } else {
            letter == 'X'
        },
        ('K', 'T') => if position == 0 {
            letter == 'X'
        } else if position == 1 {
            letter == 'X'
        } else if position == 2 {
            letter == 'X'
        } else {
            letter == 'X'
        },
        ('L', 'L') => if position == 0 {
            'A' <= letter <= 'Z'
        } else if position == 1 {
            letter == 'X'
        } else if position == 2 {
            letter == 'X'
        } else {
            letter == 'X'
        },
        ('L', 'R') => if position == 0 {
            'A' <= letter <= 'Z'
        } else if position == 1 {
            letter == 'X'
        } else if position == 2 {
            letter == 'X'
        } else {
            letter == 'X'
        },
        ('L', 'S') => if position == 0 {
            'A' <= letter <= 'Z'
        } else if position == 1 {
            letter == 'X'
        } else if position == 2 {
            letter == 'X'
        } else {
            letter == 'X'
        },
        ('M', 'C') => if position == 0 {
            letter == 'A' || letter == 'B' || letter == 'H' || letter == 'M' || letter == 'S'
            || letter == 'U' || letter == 'W'
        } else if position == 1 {
            letter == 'T' || letter == 'U'
        } else if position == 2 {
            letter == 'X'
        } else {
            letter == 'B' || letter == 'M' || letter == 'N' || letter == 'R'
        },
        ('M', 'M') => if position == 0 {
            letter == 'E' || letter == 'I' || letter == 'M' || letter == 'N' || letter == 'P'
            || letter == 'R' || letter == 'S' || letter == 'T'
        } else if position == 1 {
            letter == 'X'
        } else if position == 2 {
            letter == 'X'
        } else {
            letter == 'X'
        },
        ('O', 'C') => if position == 0 {
            letter == 'A' || letter == 'B' || letter == 'E'
        } else if position == 1 {
            letter == 'B' || letter == 'C' || letter == 'D' || letter == 'F' || letter == 'I'
            || letter == 'M' || letter == 'N' || letter == 'O' || letter == 'S' || letter == 'T'
            || letter == 'W'
        } else if position == 2 {
            letter == 'C' || letter == 'E' || letter == 'N' || letter == 'P'
        } else {
            letter == 'N' || letter == 'S'
        },
        ('O', 'M') => if position == 0 {
            letter == 'X'
        } else if position == 1 {
            letter == 'X'
        } else if position == 2 {
            letter == 'X'
        } else {
            letter == 'X'
        },
        ('O', 'P') => if position == 0 {
            letter == 'A' || letter == 'B' || letter == 'E'
        } else if position == 1 {
            letter == 'B' || letter == 'C' || letter == 'D' || letter == 'F' || letter == 'I'
            || letter == 'M' || letter == 'N' || letter == 'O' || letter == 'S' || letter == 'T'
            || letter == 'W'
        } else if position == 2 {
            letter == 'C' || letter == 'E' || letter == 'N' || letter == 'P'
        } else {
            letter == 'N' || letter == 'S'
        },
        ('R', 'A') => if position == 0 {
            letter == 'X'
        } else if position == 1 {
            letter == 'T' || letter == 'U'
        } else if position == 2 {
            letter == 'F' || letter == 'N' || letter == 'R' || letter == 'T'
        } else {
            letter == 'B' || letter == 'M' || letter == 'N' || letter == 'R'
        },
        ('R', 'D') => if position == 0 {
            letter == 'A' || letter == 'M' || letter == 'P' || letter == 'S' || letter == 'W'
        } else if position == 1 {
            letter == 'X'
        } else if position == 2 {
            letter == 'X'
        } else {
            letter == 'B' || letter == 'M' || letter == 'N' || letter == 'R'
        },
        ('R', 'F') => if position == 0 {
            letter == 'B' || letter == 'C' || letter == 'D' || letter == 'F' || letter == 'I'
            || letter == 'M' || letter == 'N' || letter == 'O' || letter == 'S' || letter == 'T'
            || letter == 'W'
        } else if position == 1 {
            letter == 'C' || letter == 'N' || letter == 'T'
        } else if position == 2 {
            letter == 'B' || letter == 'C' || letter == 'P'
        } else {
            letter == 'A' || letter == 'B' || letter == 'E' || letter == 'M'
        },
        ('R', 'M') => if position == 0 {
            letter == 'X'
        } else if position == 1 {
            letter == 'X'
        } else if position == 2 {
            letter == 'X'
        } else {
            letter == 'B' || letter == 'M' || letter == 'N' || letter == 'R'
        },
        ('R', 'P') => if position == 0 {
            letter == 'B' || letter == 'C' || letter == 'F' || letter == 'I' || letter == 'M'
            || letter == 'P' || letter == 'S'
        } else if position == 1 {
            letter == 'X'
        } else if position == 2 {
            letter == 'X'
        } else {
            letter == 'B' || letter == 'M' || letter == 'N' || letter == 'R'
        },
        ('R', 'S') => if position == 0 {
            letter == 'B' || letter == 'C' || letter == 'F' || letter == 'I' || letter == 'M'
            || letter == 'P' || letter == 'S'
        } else if position == 1 {
            letter == 'X'
        } else if position == 2 {
            letter == 'X'
        } else {
            letter == 'B' || letter == 'M' || letter == 'N' || letter == 'R'
        },
        ('R', 'W') => if position == 0 {
            letter == 'B' || letter == 'C' || letter == 'D' || letter == 'F' || letter == 'I'
            || letter == 'M' || letter == 'N' || letter == 'O' || letter == 'S' || letter == 'T'
            || letter == 'W'
        } else if position == 1 {
            letter == 'C' || letter == 'N' || letter == 'T'
        } else if position == 2 {
            letter == 'B' || letter == 'C' || letter == 'P'
        } else {
            letter == 'A' || letter == 'B' || letter == 'E' || letter == 'M'
        },
        ('S', 'C') => if position == 0 {
            letter == 'B' || letter == 'I' || letter == 'M' || letter == 'U' || letter == 'V'
        } else if position == 1 {
            letter == 'C' || letter == 'M' || letter == 'T'
        } else if position == 2 {
            letter == 'C' || letter == 'M' || letter == 'S'
        } else {
            letter == 'A' || letter == 'C' || letter == 'P'
        },
        ('S', 'E') => if position == 0 {
            letter == 'B' || letter == 'I' || letter == 'M' || letter == 'S'
        } else if position == 1 {
            letter == 'D' || letter == 'L' || letter == 'M' || letter == 'P' || letter == 'T'
            || letter == 'V'
        } else if position == 2 {
            letter == 'C' || letter == 'M' || letter == 'S'
        } else {
            letter == 'C' || letter == 'E' || letter == 'P'
        },
        ('S', 'F') => if position == 0 {
            letter == 'A' || letter == 'B' || letter == 'C' || letter == 'D' || letter == 'E'
            || letter == 'M'
        } else if position == 1 {
            letter == 'F' || letter == 'M' || letter == 'Y'
        } else if position == 2 {
            letter == 'C' || letter == 'M' || letter == 'S'
        } else {
            letter == 'C' || letter == 'E' || letter == 'P'
        },
        ('S', 'M') => if position == 0 {
            letter == 'M' || letter == 'P'
        } else if position == 1 {
            letter == 'X'
        } else if position == 2 {
            letter == 'X'
        } else {
            letter == 'X'
        },
        ('S', 'R') => if position == 0 {
            letter == 'A' || letter == 'C' || letter == 'D' || letter == 'G' || letter == 'H'
            || letter == 'M' || letter == 'Z'
        } else if position == 1 {
            letter == 'C' || letter == 'D' || letter == 'I' || letter == 'M' || letter == 'Y'
        } else if position == 2 {
            letter == 'C' || letter == 'M' || letter == 'S'
        } else {
            letter == 'C' || letter == 'P'
        },
        ('S', 'T') => if position == 0 {
            letter == 'B' || letter == 'C' || letter == 'D' || letter == 'F' || letter == 'I'
            || letter == 'M' || letter == 'N' || letter == 'O' || letter == 'S' || letter == 'W'
        } else if position == 1 {
            letter == 'F' || letter == 'M' || letter == 'Q' || letter == 'T'
        } else if position == 2 {
            letter == 'C' || letter == 'M' || letter == 'S'
        } else {
            letter == 'C' || letter == 'E' || letter == 'P'
        },
        ('T', 'B') => if position == 0 {
            letter == 'C' || letter == 'D' || letter == 'E' || letter == 'F' || letter == 'I'
            || letter == 'M'
        } else if position == 1 {
            letter == 'X'
        } else if position == 2 {
            letter == 'X'
        } else {
            letter == 'X'
        },
        ('T', 'C') => if position == 0 {
            letter == 'C' || letter == 'L' || letter == 'M' || letter == 'N' || letter == 'X'
        } else if position == 1 {
            letter == 'X'
        } else if position == 2 {
            letter == 'X'
        } else {
            letter == 'X'
        },
        ('T', 'D') => if position == 0 {
            letter == 'C' || letter == 'F' || letter == 'K' || letter == 'L' || letter == 'M'
            || letter == 'P' || letter == 'S'
        } else if position == 1 {
            letter == 'X'
        } else if position == 2 {
            letter == 'X'
        } else {
            letter == 'X'
        },
        ('T', 'I') => if position == 0 {
            letter == 'C' || letter == 'D' || letter == 'E' || letter == 'F' || letter == 'M'
            || letter == 'R' || letter == 'T'
        } else if position == 1 {
            letter == 'C' || letter == 'E' || letter == 'F' || letter == 'M' || letter == 'P'
        } else if position == 2 {
            letter == 'X'
        } else {
            letter == 'X'
        },
        ('T', 'M') => if position == 0 {
            letter == 'X'
        } else if position == 1 {
            letter == 'X'
        } else if position == 2 {
            letter == 'X'
        } else {
            letter == 'X'
        },
        ('T', 'R') => if position == 0 {
            letter == 'F' || letter == 'M' || letter == 'N' || letter == 'R' || letter == 'V'
        } else if position == 1 {
            letter == 'A' || letter == 'D' || letter == 'M' || letter == 'N' || letter == 'Q'
            || letter == 'S' || letter == 'W'
        } else if position == 2 {
            letter == 'X'
        } else {
            letter == 'X'
        },
        ('T', 'T') => if position == 0 {
            letter == 'A' || letter == 'E' || letter == 'J' || letter == 'K' || letter == 'M'
            || letter == 'N' || letter == 'P' || letter == 'S' || letter == 'T'
        } else if position == 1 {
            letter == 'X'
        } else if position == 2 {
            letter == 'X'
        } else {
            letter == 'X'
        },
        _ => false,
    }
}

/// What the attribute masks of the taxonomy table allow, letter by letter.
proof fn lemma_masks_1()
    by (bit_vector)
    ensures
        forall|l: u8| 65 <= l <= 90 ==> (cfi_attr_allows(19, l) <==> (l == 65 || l == 66
            || l == 69)),
        forall|l: u8| 65 <= l <= 90 ==> (cfi_attr_allows(36, l) <==> (l == 67 || l == 70)),
        forall|l: u8| 65 <= l <= 90 ==> (cfi_attr_allows(832, l) <==> (l == 71 || l == 73
            || l == 74)),
        forall|l: u8| 65 <= l <= 90 ==> (cfi_attr_allows(4115, l) <==> (l == 65 || l == 66
            || l == 69 || l == 77)),
        forall|l: u8| 65 <= l <= 90 ==> (cfi_attr_allows(4127, l) <==> (l == 65 || l == 66
            || l == 67 || l == 68 || l == 69 || l == 77)),
        forall|l: u8| 65 <= l <= 90 ==> (cfi_attr_allows(4412, l) <==> (l == 67 || l == 68
            || l == 69 || l == 70 || l == 73 || l == 77)),
        forall|l: u8| 65 <= l <= 90 ==> (cfi_attr_allows(5119, l) <==> (l == 65 || l == 66
            || l == 67 || l == 68 || l == 69 || l == 70 || l == 71 || l == 72 || l == 73
            || l == 74 || l == 77)),
        forall|l: u8| 65 <= l <= 90 ==> (cfi_attr_allows(7935, l) <==> (l == 65 || l == 66
            || l == 67 || l == 68 || l == 69 || l == 70 || l == 71 || l == 72 || l == 74
            || l == 75 || l == 76 || l == 77)),
        forall|l: u8| 65 <= l <= 90 ==> (cfi_attr_allows(16388, l) <==> (l == 67 || l == 79)),
        forall|l: u8| 65 <= l <= 90 ==> (cfi_attr_allows(20736, l) <==> (l == 73 || l == 77
            || l == 79)),
        forall|l: u8| 65 <= l <= 90 ==> (cfi_attr_allows(32772, l) <==> (l == 67 || l == 80)),
        forall|l: u8| 65 <= l <= 90 ==> (cfi_attr_allows(32773, l) <==> (l == 65 || l == 67
            || l == 80)),
        forall|l: u8| 65 <= l <= 90 ==> (cfi_attr_allows(32774, l) <==> (l == 66 || l == 67
            || l == 80)),
        forall|l: u8| 65 <= l <= 90 ==> (cfi_attr_allows(32788, l) <==> (l == 67 || l == 69
            || l == 80)),
        forall|l: u8| 65 <= l <= 90 ==> (cfi_attr_allows(36864, l) <==> (l == 77 || l == 80)),
        forall|l: u8| 65 <= l <= 90 ==> (cfi_attr_allows(36866, l) <==> (l == 66 || l == 77
            || l == 80)),
        forall|l: u8| 65 <= l <= 90 ==> (cfi_attr_allows(36916, l) <==> (l == 67 || l == 69
            || l == 70 || l == 77 || l == 80)),
        forall|l: u8| 65 <= l <= 90 ==> (cfi_attr_allows(37266, l) <==> (l == 66 || l == 69
            || l == 72 || l == 73 || l == 77 || l == 80)),
        forall|l: u8| 65 <= l <= 90 ==> (cfi_attr_allows(40964, l) <==> (l == 67 || l == 78
            || l == 80)),
        forall|l: u8| 65 <= l <= 90 ==> (cfi_attr_allows(40980, l) <==> (l == 67 || l == 69
            || l == 78 || l == 80)),
{
}

/// What the attribute masks of the taxonomy table allow, letter by letter.
proof fn lemma_masks_2()
    by (bit_vector)
    ensures
        forall|l: u8| 65 <= l <= 90 ==> (cfi_attr_allows(49184, l) <==> (l == 70 || l == 79
            || l == 80)),
        forall|l: u8| 65 <= l <= 90 ==> (cfi_attr_allows(143362, l) <==> (l == 66 || l == 77
            || l == 78 || l == 82)),
        forall|l: u8| 65 <= l <= 90 ==> (cfi_attr_allows(151789, l) <==> (l == 65 || l == 67
            || l == 68 || l == 70 || l == 71 || l == 72 || l == 77 || l == 79 || l == 82)),
        forall|l: u8| 65 <= l <= 90 ==> (cfi_attr_allows(266242, l) <==> (l == 66 || l == 77
            || l == 83)),
        forall|l: u8| 65 <= l <= 90 ==> (cfi_attr_allows(266244, l) <==> (l == 67 || l == 77
            || l == 83)),
        forall|l: u8| 65 <= l <= 90 ==> (cfi_attr_allows(266498, l) <==> (l == 66 || l == 73
            || l == 77 || l == 83)),
        forall|l: u8| 65 <= l <= 90 ==> (cfi_attr_allows(270336, l) <==> (l == 78 || l == 83)),
        forall|l: u8| 65 <= l <= 90 ==> (cfi_attr_allows(282882, l) <==> (l == 66 || l == 73
            || l == 77 || l == 79 || l == 83)),
        forall|l: u8| 65 <= l <= 90 ==> (cfi_attr_allows(299302, l) <==> (l == 66 || l == 67
            || l == 70 || l == 73 || l == 77 || l == 80 || l == 83)),
        forall|l: u8| 65 <= l <= 90 ==> (cfi_attr_allows(301092, l) <==> (l == 67 || l == 70
            || l == 76 || l == 77 || l == 80 || l == 83)),
        forall|l: u8| 65 <= l <= 90 ==> (cfi_attr_allows(302116, l) <==> (l == 67 || l == 70
            || l == 75 || l == 76 || l == 77 || l == 80 || l == 83)),
        forall|l: u8| 65 <= l <= 90 ==> (cfi_attr_allows(307601, l) <==> (l == 65 || l == 69
            || l == 72 || l == 73 || l == 77 || l == 78 || l == 80 || l == 83)),
        forall|l: u8| 65 <= l <= 90 ==> (cfi_attr_allows(401433, l) <==> (l == 65 || l == 68
            || l == 69 || l == 78 || l == 82 || l == 83)),
        forall|l: u8| 65 <= l <= 90 ==> (cfi_attr_allows(528384, l) <==> (l == 77 || l == 84)),
        forall|l: u8| 65 <= l <= 90 ==> (cfi_attr_allows(528388, l) <==> (l == 67 || l == 77
            || l == 84)),
        forall|l: u8| 65 <= l <= 90 ==> (cfi_attr_allows(532484, l) <==> (l == 67 || l == 78
            || l == 84)),
        forall|l: u8| 65 <= l <= 90 ==> (cfi_attr_allows(593952, l) <==> (l == 70 || l == 77
            || l == 81 || l == 84)),
        forall|l: u8| 65 <= l <= 90 ==> (cfi_attr_allows(659516, l) <==> (l == 67 || l == 68
            || l == 69 || l == 70 || l == 77 || l == 82 || l == 84)),
        forall|l: u8| 65 <= l <= 90 ==> (cfi_attr_allows(663584, l) <==> (l == 70 || l == 78
            || l == 82 || l == 84)),
        forall|l: u8| 65 <= l <= 90 ==> (cfi_attr_allows(663637, l) <==> (l == 65 || l == 67
            || l == 69 || l == 71 || l == 78 || l == 82 || l == 84)),
{
}

/// What the attribute masks of the taxonomy table allow, letter by letter.
proof fn lemma_masks_3()
    by (bit_vector)
    ensures
        forall|l: u8| 65 <= l <= 90 ==> (cfi_attr_allows(755839, l) <==> (l == 65 || l == 66
            || l == 67 || l == 68 || l == 69 || l == 70 || l == 71 || l == 76 || l == 80
            || l == 81 || l == 82 || l == 84)),
        forall|l: u8| 65 <= l <= 90 ==> (cfi_attr_allows(790798, l) <==> (l == 66 || l == 67
            || l == 68 || l == 73 || l == 77 || l == 83 || l == 84)),
        forall|l: u8| 65 <= l <= 90 ==> (cfi_attr_allows(833041, l) <==> (l == 65 || l == 69
            || l == 74 || l == 75 || l == 77 || l == 78 || l == 80 || l == 83 || l == 84)),
        forall|l: u8| 65 <= l <= 90 ==> (cfi_attr_allows(921604, l) <==> (l == 67 || l == 77
            || l == 82 || l == 83 || l == 84)),
        forall|l: u8| 65 <= l <= 90 ==> (cfi_attr_allows(962832, l) <==> (l == 69 || l == 73
            || l == 77 || l == 78 || l == 80 || l == 82 || l == 83 || l == 84)),
        forall|l: u8| 65 <= l <= 90 ==> (cfi_attr_allows(1155117, l) <==> (l == 65 || l == 67
            || l == 68 || l == 70 || l == 78 || l == 80 || l == 81 || l == 85)),
        forall|l: u8| 65 <= l <= 90 ==> (cfi_attr_allows(1572864, l) <==> (l == 84 || l == 85)),
        forall|l: u8| 65 <= l <= 90 ==> (cfi_attr_allows(1958476, l) <==> (l == 67 || l == 68
            || l == 71 || l == 74 || l == 78 || l == 79 || l == 80 || l == 81 || l == 83
            || l == 84 || l == 85)),
        forall|l: u8| 65 <= l <= 90 ==> (cfi_attr_allows(2101296, l) <==> (l == 69 || l == 70
            || l == 77 || l == 86)),
        forall|l: u8| 65 <= l <= 90 ==> (cfi_attr_allows(2235454, l) <==> (l == 66 || l == 67
            || l == 68 || l == 69 || l == 70 || l == 75 || l == 76 || l == 77 || l == 82
            || l == 86)),
        forall|l: u8| 65 <= l <= 90 ==> (cfi_attr_allows(2236432, l) <==> (l == 69 || l == 78
            || l == 82 || l == 86)),
        forall|l: u8| 65 <= l <= 90 ==> (cfi_attr_allows(2240544, l) <==> (l == 70 || l == 77
            || l == 78 || l == 82 || l == 86)),
        forall|l: u8| 65 <= l <= 90 ==> (cfi_attr_allows(2627630, l) <==> (l == 66 || l == 67
            || l == 68 || l == 70 || l == 76 || l == 77 || l == 84 || l == 86)),
        forall|l: u8| 65 <= l <= 90 ==> (cfi_attr_allows(2660360, l) <==> (l == 68 || l == 76
            || l == 77 || l == 80 || l == 84 || l == 86)),
        forall|l: u8| 65 <= l <= 90 ==> (cfi_attr_allows(3150082, l) <==> (l == 66 || l == 73
            || l == 77 || l == 85 || l == 86)),
        forall|l: u8| 65 <= l <= 90 ==> (cfi_attr_allows(4485422, l) <==> (l == 66 || l == 67
            || l == 68 || l == 70 || l == 73 || l == 77 || l == 78 || l == 79 || l == 83
            || l == 87)),
        forall|l: u8| 65 <= l <= 90 ==> (cfi_attr_allows(4493313, l) <==> (l == 65 || l == 77
            || l == 80 || l == 83 || l == 87)),
        forall|l: u8| 65 <= l <= 90 ==> (cfi_attr_allows(4534281, l) <==> (l == 65 || l == 68
            || l == 77 || l == 78 || l == 81 || l == 83 || l == 87)),
        forall|l: u8| 65 <= l <= 90 ==> (cfi_attr_allows(5009710, l) <==> (l == 66 || l == 67
            || l == 68 || l == 70 || l == 73 || l == 77 || l == 78 || l == 79 || l == 83
            || l == 84 || l == 87)),
        forall|l: u8| 65 <= l <= 90 ==> (cfi_attr_allows(5509251, l) <==> (l == 65 || l == 66
            || l == 72 || l == 77 || l == 83 || l == 85 || l == 87)),
{
}

/// What the attribute masks of the taxonomy table allow, letter by letter.
proof fn lemma_masks_4()
    by (bit_vector)
    ensures
        forall|l: u8| 65 <= l <= 90 ==> (cfi_attr_allows(6582574, l) <==> (l == 66 || l == 67
            || l == 68 || l == 70 || l == 73 || l == 77 || l == 78 || l == 79 || l == 83
            || l == 86 || l == 87)),
        forall|l: u8| 65 <= l <= 90 ==> (cfi_attr_allows(8388608, l) <==> (l == 88)),
        forall|l: u8| 65 <= l <= 90 ==> (cfi_attr_allows(8388644, l) <==> (l == 67 || l == 70
            || l == 88)),
        forall|l: u8| 65 <= l <= 90 ==> (cfi_attr_allows(8394891, l) <==> (l == 65 || l == 66
            || l == 68 || l == 72 || l == 76 || l == 77 || l == 88)),
        forall|l: u8| 65 <= l <= 90 ==> (cfi_attr_allows(8395808, l) <==> (l == 70 || l == 75
            || l == 76 || l == 77 || l == 88)),
        forall|l: u8| 65 <= l <= 90 ==> (cfi_attr_allows(8402948, l) <==> (l == 67 || l == 76
            || l == 77 || l == 78 || l == 88)),
        forall|l: u8| 65 <= l <= 90 ==> (cfi_attr_allows(8421396, l) <==> (l == 67 || l == 69
            || l == 80 || l == 88)),
        forall|l: u8| 65 <= l <= 90 ==> (cfi_attr_allows(8527882, l) <==> (l == 66 || l == 68
            || l == 78 || l == 82 || l == 88)),
        forall|l: u8| 65 <= l <= 90 ==> (cfi_attr_allows(8916992, l) <==> (l == 77 || l == 84
            || l == 88)),
        forall|l: u8| 65 <= l <= 90 ==> (cfi_attr_allows(9144447, l) <==> (l == 65 || l == 66
            || l == 67 || l == 68 || l == 69 || l == 70 || l == 71 || l == 76 || l == 80
            || l == 81 || l == 82 || l == 84 || l == 88)),
        forall|l: u8| 65 <= l <= 90 ==> (cfi_attr_allows(10347084, l) <==> (l == 67 || l == 68
            || l == 71 || l == 74 || l == 78 || l == 79 || l == 80 || l == 81 || l == 83
            || l == 84 || l == 85 || l == 88)),
        forall|l: u8| 65 <= l <= 90 ==> (cfi_attr_allows(10498049, l) <==> (l == 65 || l == 77
            || l == 78 || l == 86 || l == 88)),
        forall|l: u8| 65 <= l <= 90 ==> (cfi_attr_allows(16781320, l) <==> (l == 68 || l == 77
            || l == 89)),
        forall|l: u8| 65 <= l <= 90 ==> (cfi_attr_allows(16781344, l) <==> (l == 70 || l == 77
            || l == 89)),
        forall|l: u8| 65 <= l <= 90 ==> (cfi_attr_allows(16781580, l) <==> (l == 67 || l == 68
            || l == 73 || l == 77 || l == 89)),
        forall|l: u8| 65 <= l <= 90 ==> (cfi_attr_allows(18153472, l) <==> (l == 81 || l == 83
            || l == 85 || l == 89)),
        forall|l: u8| 65 <= l <= 90 ==> (cfi_attr_allows(18878504, l) <==> (l == 68 || l == 70
            || l == 77 || l == 86 || l == 89)),
        forall|l: u8| 65 <= l <= 90 ==> (cfi_attr_allows(32227327, l) <==> (l == 65 || l == 66
            || l == 67 || l == 68 || l == 69 || l == 70 || l == 71 || l == 72 || l == 73
            || l == 74 || l == 75 || l == 76 || l == 77 || l == 78 || l == 80 || l == 81
            || l == 82 || l == 84 || l == 86 || l == 87 || l == 88 || l == 89)),
        forall|l: u8| 65 <= l <= 90 ==> (cfi_attr_allows(33558733, l) <==> (l == 65 || l == 67
            || l == 68 || l == 71 || l == 72 || l == 77 || l == 90)),
        forall|l: u8| 65 <= l <= 90 ==> (cfi_attr_allows(35652644, l) <==> (l == 67 || l == 70
            || l == 75 || l == 86 || l == 90)),
{
}

/// What the attribute masks of the taxonomy table allow, letter by letter.
proof fn lemma_masks_5()
    by (bit_vector)
    ensures
        forall|l: u8| 65 <= l <= 90 ==> (cfi_attr_allows(44041248, l) <==> (l == 70 || l == 75
            || l == 86 || l == 88 || l == 90)),
        forall|l: u8| 65 <= l <= 90 ==> cfi_attr_allows(67108863, l),
{
}

// ---------------------------------------------------------------- laws

/// The text of a valid CFI code parses back to it: for a `Cfi` `x`,
/// `Cfi::parse(x.as_str())` gives `x` again.
pub proof fn law_cfi_text_round_trip(b: Seq<u8>)
    requires
        cfi_valid(b),
    ensures
        cfi_parse(bytes_as_chars(b)) == Ok::<Seq<u8>, CfiError>(b),
{
    assert(cfi_classes_ok(b));
    assert forall|i: int| 0 <= i < b.len() implies (48 <= #[trigger] b[i] <= 57 || 65 <= b[i]
        <= 90) by {
        assert(is_upper_byte(b[i]));
    }
    lemma_alnum_text(b);
}

/// The taxonomy knows a category letter exactly when ISO 10962 defines the
/// category.
pub proof fn law_cfi_categories_are_the_standards(category: u8)
    ensures
        cfi_category_known(category) <==> iso10962_has_category(category as char),
{
}

/// The taxonomy holds attribute masks for a category and group letter
/// exactly when ISO 10962 defines that group of that category.
pub proof fn law_cfi_groups_are_the_standards(category: u8, group: u8)
    ensures
        cfi_group_masks(category, group) is Some <==> iso10962_has_group(
            category as char,
            group as char,
        ),
{
}

/// Within a group, the masks let an uppercase letter stand at an attribute
/// exactly when ISO 10962 allows it there.
pub proof fn law_cfi_attributes_are_the_standards(category: u8, group: u8, position: int, letter: u8)
    requires
        cfi_group_masks(category, group) is Some,
        0 <= position < 4,
        65 <= letter <= 90,
    ensures
        cfi_attr_allows(cfi_group_masks(category, group)->Some_0[position], letter)
            <==> iso10962_allows(category as char, group as char, position, letter as char),
{
    lemma_masks_1();
    lemma_masks_2();
    lemma_masks_3();
    lemma_masks_4();
    lemma_masks_5();
}

/// A six-byte code validates exactly when it is six uppercase letters naming
/// a group that ISO 10962 defines, with each of its four attributes a letter
/// that the standard allows there.
pub proof fn law_cfi_valid_iff_the_standard_allows(b: Seq<u8>)
    requires
        b.len() == 6,
    ensures
        cfi_valid(b) <==> {
            &&& forall|j: int| 0 <= j < 6 ==> 'A' <= #[trigger] (b[j] as char) <= 'Z'
            &&& iso10962_has_group(b[0] as char, b[1] as char)
            &&& forall|i: int|
                0 <= i < 4 ==> #[trigger] iso10962_allows(b[0] as char, b[1] as char, i, b[i + 2] as char)
        },
{
    law_cfi_groups_are_the_standards(b[0], b[1]);
    if cfi_classes_ok(b) {
        assert forall|j: int| 0 <= j < 6 implies 'A' <= #[trigger] (b[j] as char) <= 'Z' by {
            assert(is_upper_byte(b[j]));
        }
    }
    if forall|j: int| 0 <= j < 6 ==> 'A' <= #[trigger] (b[j] as char) <= 'Z' {
        assert forall|j: int| 0 <= j < 6 implies is_upper_byte(#[trigger] b[j]) by {
            assert('A' <= (b[j] as char) <= 'Z');
        }
    }
    if cfi_classes_ok(b) {
        match cfi_group_masks(b[0], b[1]) {
            Some(masks) => {
                assert(cfi_category_known(b[0]));
                assert forall|i: int| 0 <= i < 4 implies (cfi_attr_allows(#[trigger] masks[i], b[i + 2])
                    <==> iso10962_allows(b[0] as char, b[1] as char, i, b[i + 2] as char)) by {
                    assert(is_upper_byte(b[i + 2]));
                    law_cfi_attributes_are_the_standards(b[0], b[1], i, b[i + 2]);
                }
                if !(forall|j: int| 0 <= j < 4 ==> cfi_attr_allows(#[trigger] masks[j], b[j + 2])) {
                    let k = choose|j: int| 0 <= j < 4 && !cfi_attr_allows(#[trigger] masks[j], b[j + 2]);
                    assert(!iso10962_allows(b[0] as char, b[1] as char, k, b[k + 2] as char));
                }
            },
            None => {},
        }
    }
}

} // verus!
