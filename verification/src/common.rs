//! Small types shared by the domain aggregates and their repositories.
use vstd::prelude::*;
use crate::text::{
    ascii_upper, decimal, is_white_space, push_char, trimmed, trimmed_chars, str_eq,
};

verus! {

/// A value together with the optimistic-concurrency version it was read at.
#[derive(Debug, Clone, PartialEq, Eq)]
pub struct Versioned<T> {
    pub data: T,
    pub version: u32,
}

/// What a conditional write did.
#[derive(Debug, Clone, Copy, PartialEq, Eq, Structural)]
pub enum WriteOutcome {
    Applied,
    VersionMismatch { expected: u32, actual: u32 },
    Missing,
}

impl WriteOutcome {
    /// Whether the write took effect.
    pub fn applied(self) -> (r: bool)
        ensures
            r == (self == WriteOutcome::Applied),
    {
        matches!(self, WriteOutcome::Applied)
    }
}

/// Type-state marker: a builder with nothing set yet.
pub struct Empty;

/// Type-state marker: a builder with at least one field set.
pub struct NonEmpty;

/// What a builder's type-state promises of the fields it has set.
pub trait BuilderState {
    /// Whether a builder in this state has at least one field set.
    spec fn has_set_field() -> bool;
}

impl BuilderState for Empty {
    open spec fn has_set_field() -> bool {
        false
    }
}

impl BuilderState for NonEmpty {
    open spec fn has_set_field() -> bool {
        true
    }
}

/// Whether a repository read also loads child collections.
#[derive(Debug, Clone, Copy, PartialEq, Eq, Structural)]
pub enum LoadMode {
    Lazy,
    Eager,
}

impl Default for LoadMode {
    fn default() -> (r: Self)
        ensures
            r == LoadMode::Lazy,
    {
        LoadMode::Lazy
    }
}

/// A child collection that may not have been read from storage.
#[derive(Debug, Clone, PartialEq, Eq)]
pub enum Loading<T> {
    NotLoaded,
    Loaded(T),
}

impl<T> Loading<T> {
    pub fn is_loaded(&self) -> (r: bool)
        ensures
            r == (self is Loaded),
    {
        matches!(self, Loading::Loaded(_))
    }

    pub fn as_loaded(&self) -> (r: Option<&T>)
        ensures
            r is Some <==> self is Loaded,
            r matches Some(v) ==> self == Loading::Loaded(*v),
    {
        match self {
            Loading::Loaded(value) => Some(value),
            Loading::NotLoaded => None,
        }
    }
}

/// `str::to_ascii_lowercase` of one character.
pub open spec fn ascii_lower(c: char) -> char {
    if 'A' <= c <= 'Z' {
        ((c as u32) + 32) as char
    } else {
        c
    }
}

pub open spec fn lower_all(s: Seq<char>) -> Seq<char> {
    s.map_values(|c: char| ascii_lower(c))
}

/// The words that switch a setting off: `off`, `false`, `0`, `none`.
pub open spec fn is_off_word(s: Seq<char>) -> bool {
    s == "off"@ || s == "false"@ || s == "0"@ || s == "none"@
}

fn lower_char(c: char) -> (r: char)
    ensures
        r == ascii_lower(c),
{
    if 'A' <= c && c <= 'Z' {
        ((c as u8) + 32) as char
    } else {
        c
    }
}

/// Whether a setting's value switches it off: after trimming and ASCII
/// lower-casing it is one of `off`, `false`, `0` or `none`.
pub fn os_str_is_off(value: &str) -> (r: bool)
    ensures
        r == is_off_word(lower_all(trimmed(value@))),
{
    let t = trimmed_chars(value);
    let mut s = String::new();
    let mut i: usize = 0;
    while i < t.len()
        invariant
            i <= t@.len(),
            s@ == lower_all(t@.subrange(0, i as int)),
        decreases t@.len() - i,
    {
        push_char(&mut s, lower_char(t[i]));
        i = i + 1;
        assert(lower_all(t@.subrange(0, i as int)) =~= lower_all(t@.subrange(0, i - 1)).push(
            ascii_lower(t@[i - 1]),
        ));
    }
    assert(t@.subrange(0, t@.len() as int) =~= t@);
    let l = s.as_str();
    str_eq(l, "off") || str_eq(l, "false") || str_eq(l, "0") || str_eq(l, "none")
}

/// A time-ordered unique identifier (a version 7 UUID), kept as its sixteen
/// bytes.
#[derive(Copy, Clone, Eq, PartialEq, Hash, Debug)]
pub struct UniqueIdentifier {
    bytes: [u8; 16],
}

/// Wraps `uuid::Uuid::now_v7`: a fresh UUID from the clock and a random
/// source. Its version nibble is 7 and its variant bits are `10`, as the
/// crate documents for version 7; nothing else about the value is stated.
#[verifier::external_body]
pub(crate) fn fresh_uuid_v7() -> (r: [u8; 16])
    ensures
        r@[6] / 16 == 7,
        r@[8] / 64 == 2,
{
    uuid::Uuid::now_v7().into_bytes()
}

/// Lower-case hexadecimal digit of a value below 16.
pub open spec fn hex_digit(v: int) -> char {
    if v < 10 {
        (('0' as int) + v) as char
    } else {
        (('a' as int) + v - 10) as char
    }
}

/// The two hexadecimal digits of a byte.
pub open spec fn hex_byte(b: u8) -> Seq<char> {
    seq![hex_digit((b / 16) as int), hex_digit((b % 16) as int)]
}

/// The hexadecimal digits of the bytes `b[lo..hi]`.
pub open spec fn hex_run(b: Seq<u8>, lo: int, hi: int) -> Seq<char>
    decreases hi - lo,
{
    if hi <= lo {
        seq![]
    } else {
        hex_run(b, lo, hi - 1) + hex_byte(b[hi - 1])
    }
}

/// The hyphenated form `8-4-4-4-12` of sixteen bytes, in lower-case
/// hexadecimal, as UUIDs are conventionally written.
pub open spec fn uuid_text(b: Seq<u8>) -> Seq<char> {
    hex_run(b, 0, 4) + "-"@ + hex_run(b, 4, 6) + "-"@ + hex_run(b, 6, 8) + "-"@ + hex_run(b, 8, 10)
        + "-"@ + hex_run(b, 10, 16)
}

/// Two hexadecimal digits are equal only for equal values.
proof fn lemma_hex_digit_injective(x: int, y: int)
    requires
        0 <= x < 16,
        0 <= y < 16,
        hex_digit(x) == hex_digit(y),
    ensures
        x == y,
{
    let cx = hex_digit(x) as int;
    let cy = hex_digit(y) as int;
    assert(x < 10 ==> cx == 48 + x);
    assert(x >= 10 ==> cx == 87 + x);
    assert(y < 10 ==> cy == 48 + y);
    assert(y >= 10 ==> cy == 87 + y);
}

proof fn lemma_hex_byte_injective(x: u8, y: u8)
    requires
        hex_byte(x) == hex_byte(y),
    ensures
        x == y,
{
    assert(hex_byte(x)[0] == hex_byte(y)[0]);
    assert(hex_byte(x)[1] == hex_byte(y)[1]);
    lemma_hex_digit_injective((x / 16) as int, (y / 16) as int);
    lemma_hex_digit_injective((x % 16) as int, (y % 16) as int);
}

proof fn lemma_hex_run_len(b: Seq<u8>, lo: int, hi: int)
    requires
        lo <= hi,
    ensures
        hex_run(b, lo, hi).len() == 2 * (hi - lo),
    decreases hi - lo,
{
    if lo < hi {
        lemma_hex_run_len(b, lo, hi - 1);
    }
}

/// Splitting equal concatenations at equally long tails.
proof fn lemma_concat_split(x1: Seq<char>, y1: Seq<char>, x2: Seq<char>, y2: Seq<char>)
    requires
        x1 + y1 == x2 + y2,
        y1.len() == y2.len(),
    ensures
        x1 == x2,
        y1 == y2,
{
    assert(x1 =~= (x1 + y1).subrange(0, x1.len() as int));
    assert(x2 =~= (x2 + y2).subrange(0, x2.len() as int));
    assert(y1 =~= (x1 + y1).subrange(x1.len() as int, (x1 + y1).len() as int));
    assert(y2 =~= (x2 + y2).subrange(x2.len() as int, (x2 + y2).len() as int));
}

proof fn lemma_hex_run_injective(a: Seq<u8>, b: Seq<u8>, lo: int, hi: int)
    requires
        0 <= lo <= hi,
        hi <= a.len(),
        hi <= b.len(),
        hex_run(a, lo, hi) == hex_run(b, lo, hi),
    ensures
        forall|i: int| lo <= i < hi ==> a[i] == b[i],
    decreases hi - lo,
{
    if lo < hi {
        lemma_hex_run_len(a, lo, hi - 1);
        lemma_hex_run_len(b, lo, hi - 1);
        lemma_concat_split(
            hex_run(a, lo, hi - 1),
            hex_byte(a[hi - 1]),
            hex_run(b, lo, hi - 1),
            hex_byte(b[hi - 1]),
        );
        lemma_hex_byte_injective(a[hi - 1], b[hi - 1]);
        lemma_hex_run_injective(a, b, lo, hi - 1);
    }
}

/// Sixteen bytes are determined by their hyphenated text.
pub proof fn lemma_uuid_text_injective(a: Seq<u8>, b: Seq<u8>)
    requires
        a.len() == 16,
        b.len() == 16,
        uuid_text(a) == uuid_text(b),
    ensures
        a == b,
{
    let d = "-"@;
    lemma_hex_run_len(a, 10, 16);
    lemma_hex_run_len(b, 10, 16);
    lemma_hex_run_len(a, 8, 10);
    lemma_hex_run_len(b, 8, 10);
    lemma_hex_run_len(a, 6, 8);
    lemma_hex_run_len(b, 6, 8);
    lemma_hex_run_len(a, 4, 6);
    lemma_hex_run_len(b, 4, 6);
    let p4a = hex_run(a, 0, 4) + d + hex_run(a, 4, 6) + d + hex_run(a, 6, 8) + d + hex_run(a, 8, 10) + d;
    let p4b = hex_run(b, 0, 4) + d + hex_run(b, 4, 6) + d + hex_run(b, 6, 8) + d + hex_run(b, 8, 10) + d;
    lemma_concat_split(p4a, hex_run(a, 10, 16), p4b, hex_run(b, 10, 16));
    let q4a = hex_run(a, 0, 4) + d + hex_run(a, 4, 6) + d + hex_run(a, 6, 8) + d + hex_run(a, 8, 10);
    let q4b = hex_run(b, 0, 4) + d + hex_run(b, 4, 6) + d + hex_run(b, 6, 8) + d + hex_run(b, 8, 10);
    lemma_concat_split(q4a, d, q4b, d);
    let p3a = hex_run(a, 0, 4) + d + hex_run(a, 4, 6) + d + hex_run(a, 6, 8) + d;
    let p3b = hex_run(b, 0, 4) + d + hex_run(b, 4, 6) + d + hex_run(b, 6, 8) + d;
    lemma_concat_split(p3a, hex_run(a, 8, 10), p3b, hex_run(b, 8, 10));
    let q3a = hex_run(a, 0, 4) + d + hex_run(a, 4, 6) + d + hex_run(a, 6, 8);
    let q3b = hex_run(b, 0, 4) + d + hex_run(b, 4, 6) + d + hex_run(b, 6, 8);
    lemma_concat_split(q3a, d, q3b, d);
    let p2a = hex_run(a, 0, 4) + d + hex_run(a, 4, 6) + d;
    let p2b = hex_run(b, 0, 4) + d + hex_run(b, 4, 6) + d;
    lemma_concat_split(p2a, hex_run(a, 6, 8), p2b, hex_run(b, 6, 8));
    let q2a = hex_run(a, 0, 4) + d + hex_run(a, 4, 6);
    let q2b = hex_run(b, 0, 4) + d + hex_run(b, 4, 6);
    lemma_concat_split(q2a, d, q2b, d);
    let p1a = hex_run(a, 0, 4) + d;
    let p1b = hex_run(b, 0, 4) + d;
    lemma_concat_split(p1a, hex_run(a, 4, 6), p1b, hex_run(b, 4, 6));
    lemma_concat_split(hex_run(a, 0, 4), d, hex_run(b, 0, 4), d);
    lemma_hex_run_injective(a, b, 0, 4);
    lemma_hex_run_injective(a, b, 4, 6);
    lemma_hex_run_injective(a, b, 6, 8);
    lemma_hex_run_injective(a, b, 8, 10);
    lemma_hex_run_injective(a, b, 10, 16);
    assert(a =~= b);
}

fn hex_char(v: u8) -> (r: char)
    requires
        v < 16,
    ensures
        r == hex_digit(v as int),
{
    if v < 10 {
        (48 + v) as char
    } else {
        (87 + v) as char
    }
}

fn push_hex_run(out: &mut String, b: &[u8; 16], lo: usize, hi: usize)
    requires
        lo <= hi <= 16,
    ensures
        final(out)@ == old(out)@ + hex_run(b@, lo as int, hi as int),
{
    let mut i = lo;
    assert(hex_run(b@, lo as int, lo as int) =~= Seq::<char>::empty());
    assert(old(out)@ + hex_run(b@, lo as int, lo as int) =~= old(out)@);
    while i < hi
        invariant
            lo <= i <= hi <= 16,
            out@ == old(out)@ + hex_run(b@, lo as int, i as int),
        decreases hi - i,
    {
        let byte = b[i];
        push_char(out, hex_char(byte / 16));
        push_char(out, hex_char(byte % 16));
        i = i + 1;
        assert(old(out)@ + hex_run(b@, lo as int, i as int) =~= old(out)@ + hex_run(
            b@,
            lo as int,
            i - 1,
        ) + hex_byte(b@[i - 1]));
    }
}

impl UniqueIdentifier {
    /// The sixteen bytes.
    pub closed spec fn view(self) -> Seq<u8> {
        self.bytes@
    }

    /// A fresh version 7 identifier.
    pub fn new() -> (r: Self)
        ensures
            r.view()[6] / 16 == 7,
            r.view()[8] / 64 == 2,
    {
        UniqueIdentifier { bytes: fresh_uuid_v7() }
    }

    pub fn from_bytes(bytes: [u8; 16]) -> (r: Self)
        ensures
            r.view() == bytes@,
    {
        UniqueIdentifier { bytes }
    }

    pub fn as_bytes(&self) -> (r: &[u8; 16])
        ensures
            r@ == self.view(),
    {
        &self.bytes
    }

    /// The hyphenated lower-case hexadecimal form.
    pub fn value(&self) -> (r: String)
        ensures
            r@ == uuid_text(self.view()),
    {
        let mut s = String::new();
        push_hex_run(&mut s, &self.bytes, 0, 4);
        s.append("-");
        push_hex_run(&mut s, &self.bytes, 4, 6);
        s.append("-");
        push_hex_run(&mut s, &self.bytes, 6, 8);
        s.append("-");
        push_hex_run(&mut s, &self.bytes, 8, 10);
        s.append("-");
        push_hex_run(&mut s, &self.bytes, 10, 16);
        assert(Seq::<char>::empty() + hex_run(self.bytes@, 0, 4) =~= hex_run(self.bytes@, 0, 4));
        s
    }
}


/// A UTC instant: whole seconds since the Unix epoch and the nanoseconds
/// past that second. The derived order is that of time.
#[derive(Debug, Clone, Copy, PartialEq, Eq, PartialOrd, Ord, Hash)]
pub struct UtcInstant {
    pub seconds: i64,
    pub nanos: u32,
}

/// Wraps `chrono::Utc::now`, read as `DateTime::timestamp` and
/// `timestamp_subsec_nanos`. The value comes from the system clock, so
/// nothing is stated of it.
#[verifier::external_body]
pub(crate) fn now_instant() -> UtcInstant {
    let now = chrono::Utc::now();
    UtcInstant { seconds: now.timestamp(), nanos: now.timestamp_subsec_nanos() }
}

/// Earliest and latest years of the dates that `chrono::NaiveDate` holds.
pub const DATE_MIN_YEAR: i32 = -262143;

pub const DATE_MAX_YEAR: i32 = 262142;

/// The first second of `DATE_MIN_YEAR` and the last second of
/// `DATE_MAX_YEAR`, counted from the Unix epoch: the range of seconds that a
/// `chrono::DateTime` holds.
pub const INSTANT_MIN_SECONDS: i64 = -8_334_601_315_200;

pub const INSTANT_MAX_SECONDS: i64 = 8_210_266_876_799;

/// Whether a protobuf timestamp, once its nanoseconds (which may be
/// negative or exceed a second) are carried into its seconds, falls within
/// the range of a `chrono::DateTime`.
pub open spec fn proto_timestamp_in_range(seconds: i64, nanos: i32) -> bool {
    &&& INSTANT_MIN_SECONDS * 1_000_000_000 <= seconds * 1_000_000_000 + nanos
    &&& seconds * 1_000_000_000 + nanos < (INSTANT_MAX_SECONDS + 1) * 1_000_000_000
}

/// Decides `proto_timestamp_in_range`.
pub fn proto_timestamp_fits(seconds: i64, nanos: i32) -> (r: bool)
    ensures
        r == proto_timestamp_in_range(seconds, nanos),
{
    let total: i128 = (seconds as i128) * 1_000_000_000 + (nanos as i128);
    let low: i128 = (INSTANT_MIN_SECONDS as i128) * 1_000_000_000;
    let high: i128 = ((INSTANT_MAX_SECONDS as i128) + 1) * 1_000_000_000;
    low <= total && total < high
}

/// Leap years of the proleptic Gregorian calendar (astronomical numbering,
/// so year 0 is 1 BCE).
pub open spec fn is_leap_year(y: int) -> bool {
    y % 4 == 0 && (y % 100 != 0 || y % 400 == 0)
}

pub open spec fn days_in_month(y: int, m: int) -> int {
    if m == 2 {
        if is_leap_year(y) {
            29
        } else {
            28
        }
    } else if m == 4 || m == 6 || m == 9 || m == 11 {
        30
    } else {
        31
    }
}

/// Whether `year-month-day` is a day that `chrono::NaiveDate` can hold.
pub open spec fn date_exists(year: i32, month: u32, day: u32) -> bool {
    &&& DATE_MIN_YEAR <= year <= DATE_MAX_YEAR
    &&& 1 <= month <= 12
    &&& 1 <= day <= days_in_month(year as int, month as int)
}

/// Wraps `chrono::NaiveDate::from_ymd_opt`, keeping only whether it gives a
/// date: it does exactly for existing calendar days with the year in the
/// range that `NaiveDate` supports.
#[verifier::external_body]
fn chrono_date_exists(year: i32, month: u32, day: u32) -> (r: bool)
    ensures
        r == date_exists(year, month, day),
{
    chrono::NaiveDate::from_ymd_opt(year, month, day).is_some()
}

/// `n` in decimal, left-padded with zeros to at least `width` digits.
pub open spec fn zero_padded(n: nat, width: nat) -> Seq<char>
    decreases width,
{
    if width <= decimal(n).len() {
        decimal(n)
    } else {
        seq!['0'] + zero_padded(n, (width - 1) as nat)
    }
}

/// The ISO 8601 form `YYYY-MM-DD` that `NaiveDate` prints; years outside
/// `0..=9999` carry an explicit sign.
pub open spec fn date_text(year: i32, month: u32, day: u32) -> Seq<char> {
    let y = if 0 <= year <= 9999 {
        zero_padded(year as nat, 4)
    } else if year < 0 {
        seq!['-'] + zero_padded((-year) as nat, 4)
    } else {
        seq!['+'] + zero_padded(year as nat, 4)
    };
    y + seq!['-'] + zero_padded(month as nat, 2) + seq!['-'] + zero_padded(day as nat, 2)
}

/// Wraps the `Display` of `chrono::NaiveDate` for an existing day.
#[verifier::external_body]
fn chrono_date_text(year: i32, month: u32, day: u32) -> (r: String)
    requires
        date_exists(year, month, day),
    ensures
        r@ == date_text(year, month, day),
{
    match chrono::NaiveDate::from_ymd_opt(year, month, day) {
        Some(d) => d.to_string(),
        None => String::new(),
    }
}

/// A day of the proleptic Gregorian calendar, as `chrono::NaiveDate` holds
/// it; dates order chronologically.
#[derive(Debug, Clone, Copy, PartialEq, Eq, Hash, Structural)]
pub struct CalendarDate {
    year: i32,
    month: u32,
    day: u32,
}

impl CalendarDate {
    #[verifier::type_invariant]
    spec fn holds_existing_day(self) -> bool {
        date_exists(self.year, self.month, self.day)
    }

    pub closed spec fn year_spec(self) -> i32 {
        self.year
    }

    pub closed spec fn month_spec(self) -> u32 {
        self.month
    }

    pub closed spec fn day_spec(self) -> u32 {
        self.day
    }

    /// Whether `self` is an earlier day than `other`.
    pub open spec fn before(self, other: CalendarDate) -> bool {
        ||| self.year_spec() < other.year_spec()
        ||| self.year_spec() == other.year_spec() && self.month_spec() < other.month_spec()
        ||| self.year_spec() == other.year_spec() && self.month_spec() == other.month_spec()
            && self.day_spec() < other.day_spec()
    }

    /// The day `year-month-day`, if it exists (as `NaiveDate::from_ymd_opt`).
    pub fn from_ymd_opt(year: i32, month: u32, day: u32) -> (r: Option<CalendarDate>)
        ensures
            r is Some <==> date_exists(year, month, day),
            r matches Some(d) ==> d.year_spec() == year && d.month_spec() == month && d.day_spec()
                == day,
    {
        if chrono_date_exists(year, month, day) {
            Some(CalendarDate { year, month, day })
        } else {
            None
        }
    }

    pub fn year(&self) -> (r: i32)
        ensures
            r == self.year_spec(),
    {
        self.year
    }

    pub fn month(&self) -> (r: u32)
        ensures
            r == self.month_spec(),
    {
        self.month
    }

    pub fn day(&self) -> (r: u32)
        ensures
            r == self.day_spec(),
    {
        self.day
    }

    /// Whether `self` is an earlier day than `other`.
    pub fn is_before(&self, other: &CalendarDate) -> (r: bool)
        ensures
            r == self.before(*other),
    {
        self.year < other.year || (self.year == other.year && (self.month < other.month || (
        self.month == other.month && self.day < other.day)))
    }

    /// The ISO 8601 form, as `Display` prints it.
    pub fn to_string(&self) -> (r: String)
        ensures
            r@ == date_text(self.year_spec(), self.month_spec(), self.day_spec()),
    {
        proof {
            use_type_invariant(self);
        }
        chrono_date_text(self.year, self.month, self.day)
    }
}


/// Whether two sixteen-byte identities are the same.
pub fn same_id_bytes(a: &[u8; 16], b: &[u8; 16]) -> (r: bool)
    ensures
        r == (a@ == b@),
{
    let mut i: usize = 0;
    while i < 16
        invariant
            i <= 16,
            forall|j: int| 0 <= j < i ==> a@[j] == b@[j],
        decreases 16 - i,
    {
        if a[i] != b[i] {
            return false;
        }
        i = i + 1;
    }
    assert(a@ =~= b@);
    true
}

} // verus!
