//! Character- and string-level building blocks shared by the identifier
//! parsers and the domain value types: Unicode whitespace trimming, ASCII
//! case mapping, decimal rendering and a few thin bridges to `std`.
use vstd::prelude::*;

verus! {

/// Unicode `White_Space` property, the definition `char::is_whitespace` and
/// `str::trim` use.
pub open spec fn is_white_space(c: char) -> bool {
    let u = c as u32;
    ||| 9 <= u <= 13
    ||| u == 32
    ||| u == 0x85
    ||| u == 0xA0
    ||| u == 0x1680
    ||| 0x2000 <= u <= 0x200A
    ||| u == 0x2028
    ||| u == 0x2029
    ||| u == 0x202F
    ||| u == 0x205F
    ||| u == 0x3000
}

pub fn char_is_white_space(c: char) -> (r: bool)
    ensures
        r == is_white_space(c),
{
    let u = c as u32;
    (9 <= u && u <= 13) || u == 32 || u == 0x85 || u == 0xA0 || u == 0x1680 || (0x2000 <= u
        && u <= 0x200A) || u == 0x2028 || u == 0x2029 || u == 0x202F || u == 0x205F || u
        == 0x3000
}

/// The sequence without its leading whitespace.
pub open spec fn trim_start(s: Seq<char>) -> Seq<char>
    decreases s.len(),
{
    if s.len() > 0 && is_white_space(s[0]) {
        trim_start(s.drop_first())
    } else {
        s
    }
}

/// The sequence without its trailing whitespace.
pub open spec fn trim_end(s: Seq<char>) -> Seq<char>
    decreases s.len(),
{
    if s.len() > 0 && is_white_space(s.last()) {
        trim_end(s.drop_last())
    } else {
        s
    }
}

/// What `str::trim` leaves of a string.
pub open spec fn trimmed(s: Seq<char>) -> Seq<char> {
    trim_end(trim_start(s))
}

pub open spec fn is_ascii_char(c: char) -> bool {
    (c as u32) < 128
}

pub open spec fn is_lower_char(c: char) -> bool {
    'a' <= c <= 'z'
}

pub open spec fn is_upper_char(c: char) -> bool {
    'A' <= c <= 'Z'
}

pub open spec fn is_digit_char(c: char) -> bool {
    '0' <= c <= '9'
}

/// `char::to_ascii_uppercase`: lowercase ASCII letters become uppercase,
/// every other character is kept.
pub open spec fn ascii_upper(c: char) -> char {
    if is_lower_char(c) {
        ((c as u32) - 32) as char
    } else {
        c
    }
}

pub open spec fn upper_all(s: Seq<char>) -> Seq<char> {
    s.map_values(|c: char| ascii_upper(c))
}

/// The characters of a byte sequence read as ASCII (Latin-1) code points.
pub open spec fn bytes_as_chars(b: Seq<u8>) -> Seq<char> {
    b.map_values(|x: u8| x as char)
}

pub open spec fn digit_char(d: nat) -> char {
    (('0' as u32) + d) as char
}

/// Base-10 rendering of a natural number, without sign or padding.
pub open spec fn decimal(n: nat) -> Seq<char>
    decreases n,
{
    if n < 10 {
        seq![digit_char(n)]
    } else {
        decimal(n / 10).push(digit_char(n % 10))
    }
}

pub fn upper_char(c: char) -> (r: char)
    ensures
        r == ascii_upper(c),
{
    if 'a' <= c && c <= 'z' {
        ((c as u8) - 32) as char
    } else {
        c
    }
}

proof fn lemma_trim_start_subrange(s: Seq<char>, i: int)
    requires
        0 <= i < s.len(),
        is_white_space(s[i]),
    ensures
        trim_start(s.subrange(i, s.len() as int)) == trim_start(
            s.subrange(i + 1, s.len() as int),
        ),
{
    assert(s.subrange(i, s.len() as int).drop_first() =~= s.subrange(i + 1, s.len() as int));
}

proof fn lemma_trim_end_subrange(s: Seq<char>, lo: int, hi: int)
    requires
        0 <= lo < hi <= s.len(),
        is_white_space(s[hi - 1]),
    ensures
        trim_end(s.subrange(lo, hi)) == trim_end(s.subrange(lo, hi - 1)),
{
    assert(s.subrange(lo, hi).drop_last() =~= s.subrange(lo, hi - 1));
}

/// The characters of `s`, in order.
pub fn chars_of(s: &str) -> (v: Vec<char>)
    ensures
        v@ == s@,
{
    let n = s.unicode_len();
    let mut v: Vec<char> = Vec::new();
    let mut i: usize = 0;
    while i < n
        invariant
            n == s@.len(),
            i <= n,
            v@ == s@.subrange(0, i as int),
        decreases n - i,
    {
        v.push(s.get_char(i));
        i = i + 1;
    }
    assert(v@ =~= s@);
    v
}

/// The bounds `lo..hi` of what `str::trim` keeps of `s`.
pub fn trim_bounds(s: &Vec<char>) -> (r: (usize, usize))
    ensures
        r.0 <= r.1 <= s@.len(),
        s@.subrange(r.0 as int, r.1 as int) == trimmed(s@),
{
    let n = s.len();
    let mut lo: usize = 0;
    assert(s@.subrange(0, n as int) =~= s@);
    while lo < n && char_is_white_space(s[lo])
        invariant
            n == s@.len(),
            lo <= n,
            trim_start(s@) == trim_start(s@.subrange(lo as int, n as int)),
        decreases n - lo,
    {
        proof {
            lemma_trim_start_subrange(s@, lo as int);
        }
        lo = lo + 1;
    }
    let ghost front = s@.subrange(lo as int, n as int);
    assert(trim_start(front) == front);
    let mut hi: usize = n;
    while hi > lo && char_is_white_space(s[hi - 1])
        invariant
            n == s@.len(),
            lo <= hi <= n,
            front == s@.subrange(lo as int, n as int),
            trim_end(front) == trim_end(s@.subrange(lo as int, hi as int)),
        decreases hi,
    {
        proof {
            lemma_trim_end_subrange(s@, lo as int, hi as int);
        }
        hi = hi - 1;
    }
    (lo, hi)
}

/// The characters that `str::trim` keeps of `s`.
pub fn trimmed_chars(s: &str) -> (v: Vec<char>)
    ensures
        v@ == trimmed(s@),
{
    let all = chars_of(s);
    let (lo, hi) = trim_bounds(&all);
    let mut v: Vec<char> = Vec::new();
    let mut i: usize = lo;
    while i < hi
        invariant
            lo <= i <= hi <= all@.len(),
            v@ == all@.subrange(lo as int, i as int),
        decreases hi - i,
    {
        v.push(all[i]);
        i = i + 1;
    }
    v
}

/// Wraps `String::push`: the character is appended at the end.
#[verifier::external_body]
pub(crate) fn push_char(s: &mut String, c: char)
    ensures
        final(s)@ == old(s)@.push(c),
{
    s.push(c);
}

/// Appends the base-10 rendering of `n`.
pub fn push_decimal(out: &mut String, n: u64)
    ensures
        final(out)@ == old(out)@ + decimal(n as nat),
    decreases n,
{
    if n >= 10 {
        push_decimal(out, n / 10);
    }
    let d = (n % 10) as u8;
    let c = (48 + d) as char;
    push_char(out, c);
    proof {
        assert(decimal(n as nat) =~= if n < 10 {
            seq![digit_char(n as nat)]
        } else {
            decimal((n / 10) as nat).push(digit_char((n % 10) as nat))
        });
        if n < 10 {
            assert(old(out)@ + decimal(n as nat) =~= old(out)@.push(c));
        }
    }
}

/// Appends every character of `chars`.
pub fn push_chars(out: &mut String, chars: &Vec<char>)
    ensures
        final(out)@ == old(out)@ + chars@,
{
    let mut i: usize = 0;
    while i < chars.len()
        invariant
            i <= chars@.len(),
            out@ == old(out)@ + chars@.subrange(0, i as int),
        decreases chars@.len() - i,
    {
        push_char(out, chars[i]);
        i = i + 1;
        assert(old(out)@ + chars@.subrange(0, i as int) =~= (old(out)@ + chars@.subrange(
            0,
            i - 1,
        )).push(chars@[i - 1]));
    }
    assert(chars@.subrange(0, chars@.len() as int) =~= chars@);
}

/// A new string holding exactly `chars`.
pub fn string_from_chars(chars: &Vec<char>) -> (s: String)
    ensures
        s@ == chars@,
{
    let mut s = String::new();
    push_chars(&mut s, chars);
    assert(Seq::<char>::empty() + chars@ =~= chars@);
    s
}

/// Wraps `core::str::from_utf8`: a byte slice that is all ASCII is valid
/// UTF-8, and its characters are its bytes.
#[verifier::external_body]
pub(crate) fn ascii_str(bytes: &[u8]) -> (s: &str)
    requires
        forall|i: int| 0 <= i < bytes@.len() ==> bytes@[i] < 128,
    ensures
        s@ == bytes_as_chars(bytes@),
{
    match core::str::from_utf8(bytes) {
        Ok(s) => s,
        Err(_) => "",
    }
}

/// Whether `s` spells exactly the ASCII bytes `bytes`.
pub fn bytes_eq_str(bytes: &[u8], s: &str) -> (r: bool)
    ensures
        r == (bytes_as_chars(bytes@) == s@),
{
    let n = s.unicode_len();
    if n != bytes.len() {
        proof {
            assert(bytes_as_chars(bytes@).len() != s@.len());
        }
        return false;
    }
    let mut i: usize = 0;
    while i < n
        invariant
            n == s@.len(),
            n == bytes@.len(),
            i <= n,
            forall|j: int| 0 <= j < i ==> s@[j] == (bytes@[j] as char),
        decreases n - i,
    {
        if s.get_char(i) != (bytes[i] as char) {
            proof {
                assert(bytes_as_chars(bytes@)[i as int] != s@[i as int]);
            }
            return false;
        }
        i = i + 1;
    }
    assert(bytes_as_chars(bytes@) =~= s@);
    true
}

} // verus!

verus! {

/// `i` is the position of the first non-ASCII character of `t`.
pub open spec fn first_non_ascii_at(t: Seq<char>, i: int) -> bool {
    &&& 0 <= i < t.len()
    &&& !is_ascii_char(t[i])
    &&& forall|j: int| 0 <= j < i ==> is_ascii_char(#[trigger] t[j])
}

pub open spec fn all_ascii_chars(t: Seq<char>) -> bool {
    forall|j: int| 0 <= j < t.len() ==> is_ascii_char(#[trigger] t[j])
}

/// The position of the first non-ASCII character (meaningful when there is one).
pub open spec fn first_non_ascii(t: Seq<char>) -> int {
    choose|i: int| first_non_ascii_at(t, i)
}

pub proof fn lemma_first_non_ascii_unique(t: Seq<char>, i: int)
    requires
        first_non_ascii_at(t, i),
    ensures
        first_non_ascii(t) == i,
{
    let k = first_non_ascii(t);
    assert(first_non_ascii_at(t, k));
    if k < i {
        assert(is_ascii_char(t[k]));
    } else if k > i {
        assert(is_ascii_char(t[i]));
    }
}

/// A text that is not all ASCII has a first non-ASCII character.
pub proof fn lemma_first_non_ascii_exists(t: Seq<char>)
    requires
        !all_ascii_chars(t),
    ensures
        first_non_ascii_at(t, first_non_ascii(t)),
    decreases t.len(),
{
    let u = t.drop_last();
    if all_ascii_chars(u) {
        assert forall|j: int| 0 <= j < t.len() - 1 implies is_ascii_char(#[trigger] t[j]) by {
            assert(u[j] == t[j]);
        }
        assert(!is_ascii_char(t[t.len() - 1]));
        assert(first_non_ascii_at(t, t.len() - 1));
    } else {
        lemma_first_non_ascii_exists(u);
        let i = first_non_ascii(u);
        assert forall|j: int| 0 <= j < i implies is_ascii_char(#[trigger] t[j]) by {
            assert(u[j] == t[j]);
        }
        assert(u[i] == t[i]);
        assert(first_non_ascii_at(t, i));
    }
}

/// The index of the first non-ASCII character, if any.
pub fn find_non_ascii(t: &Vec<char>) -> (r: Option<usize>)
    ensures
        r is None <==> all_ascii_chars(t@),
        r matches Some(i) ==> first_non_ascii_at(t@, i as int) && first_non_ascii(t@) == i,
{
    let mut i: usize = 0;
    while i < t.len()
        invariant
            i <= t@.len(),
            forall|j: int| 0 <= j < i ==> is_ascii_char(#[trigger] t@[j]),
        decreases t@.len() - i,
    {
        if (t[i] as u32) >= 128 {
            proof {
                lemma_first_non_ascii_unique(t@, i as int);
            }
            return Some(i);
        }
        i = i + 1;
    }
    None
}

/// The ASCII-uppercased characters of `t`, as bytes.
pub open spec fn upper_bytes(t: Seq<char>) -> Seq<u8> {
    t.map_values(|c: char| ascii_upper(c) as u8)
}

} // verus!

verus! {

/// The uppercased ASCII characters of `t` as a byte array.
pub fn upper_ascii_array<const N: usize>(t: &Vec<char>) -> (r: [u8; N])
    requires
        t@.len() == N,
        all_ascii_chars(t@),
    ensures
        r@ == upper_bytes(t@),
{
    let mut buf: [u8; N] = [0u8; N];
    let mut i: usize = 0;
    while i < N
        invariant
            t@.len() == N,
            all_ascii_chars(t@),
            i <= N,
            buf@.len() == N,
            forall|j: int| 0 <= j < i ==> buf@[j] == ascii_upper(t@[j]) as u8,
        decreases N - i,
    {
        let c = upper_char(t[i]);
        buf[i] = c as u8;
        i = i + 1;
    }
    assert(buf@ =~= upper_bytes(t@));
    buf
}

} // verus!

verus! {

/// `name("value")`, the shape `Debug` gives a one-field tuple struct
/// holding a string.
pub open spec fn debug_tuple(name: Seq<char>, value: Seq<char>) -> Seq<char> {
    name + "(\""@ + value + "\")"@
}

pub fn debug_tuple_string(name: &str, value: &str) -> (s: String)
    ensures
        s@ == debug_tuple(name@, value@),
{
    let mut s = String::from_str(name);
    s.append("(\"");
    s.append(value);
    s.append("\")");
    s
}

/// `prefix`, then `n` in decimal, then `suffix`.
pub fn message_with_number(prefix: &str, n: u64, suffix: &str) -> (s: String)
    ensures
        s@ == prefix@ + decimal(n as nat) + suffix@,
{
    let mut s = String::from_str(prefix);
    push_decimal(&mut s, n);
    s.append(suffix);
    s
}

} // verus!

verus! {

/// Whether two strings hold the same characters.
pub fn str_eq(a: &str, b: &str) -> (r: bool)
    ensures
        r == (a@ == b@),
{
    let n = a.unicode_len();
    if n != b.unicode_len() {
        return false;
    }
    let mut i: usize = 0;
    while i < n
        invariant
            n == a@.len(),
            n == b@.len(),
            i <= n,
            forall|j: int| 0 <= j < i ==> a@[j] == b@[j],
        decreases n - i,
    {
        if a.get_char(i) != b.get_char(i) {
            return false;
        }
        i = i + 1;
    }
    assert(a@ =~= b@);
    true
}

/// What `str::to_uppercase` gives for a string: the Unicode uppercase
/// mapping of each character (which may change the length).
pub uninterp spec fn unicode_uppercase(s: Seq<char>) -> Seq<char>;

/// Wraps `str::to_uppercase`; the result depends on the text alone, and on
/// ASCII text it is the ASCII uppercasing (the Unicode uppercase mapping of
/// an ASCII character is its ASCII uppercase form).
#[verifier::external_body]
pub(crate) fn to_uppercase(s: &str) -> (r: String)
    ensures
        r@ == unicode_uppercase(s@),
        all_ascii_chars(s@) ==> r@ == upper_all(s@),
{
    s.to_uppercase()
}

/// The trimmed text of `s` as a new string.
pub fn trimmed_string(s: &str) -> (r: String)
    ensures
        r@ == trimmed(s@),
{
    let t = trimmed_chars(s);
    string_from_chars(&t)
}

} // verus!

verus! {

/// The bytes are ASCII digits or uppercase letters.
pub open spec fn all_alnum_upper(b: Seq<u8>) -> bool {
    forall|i: int| 0 <= i < b.len() ==> (48 <= #[trigger] b[i] <= 57 || 65 <= b[i] <= 90)
}

/// The text of uppercase alphanumeric bytes is already trimmed, all ASCII,
/// and uppercasing it gives the bytes back.
pub proof fn lemma_alnum_text(b: Seq<u8>)
    requires
        all_alnum_upper(b),
    ensures
        trimmed(bytes_as_chars(b)) == bytes_as_chars(b),
        all_ascii_chars(bytes_as_chars(b)),
        upper_bytes(bytes_as_chars(b)) == b,
{
    let s = bytes_as_chars(b);
    if s.len() > 0 {
        assert(s[0] == b[0] as char);
        assert(!is_white_space(s[0]));
        assert(trim_start(s) == s);
        assert(s.last() == b[b.len() - 1] as char);
        assert(!is_white_space(s.last()));
        assert(trim_end(s) == s);
    } else {
        assert(trim_start(s) == s);
        assert(trim_end(s) == s);
    }
    assert forall|j: int| 0 <= j < s.len() implies is_ascii_char(#[trigger] s[j]) by {
        assert(s[j] == b[j] as char);
    }
    assert forall|j: int| 0 <= j < b.len() implies #[trigger] upper_bytes(s)[j] == b[j] by {
        assert(s[j] == b[j] as char);
        assert(!is_lower_char(s[j]));
    }
    assert(upper_bytes(s) =~= b);
}

/// Filtering distributes over concatenation.
pub proof fn lemma_filter_concat(a: Seq<char>, b: Seq<char>, p: spec_fn(char) -> bool)
    ensures
        (a + b).filter(p) == a.filter(p) + b.filter(p),
    decreases b.len(),
{
    reveal(Seq::filter);
    if b.len() == 0 {
        assert(a + b =~= a);
        assert(b.filter(p) =~= Seq::<char>::empty());
        assert(a.filter(p) + b.filter(p) =~= a.filter(p));
    } else {
        lemma_filter_concat(a, b.drop_last(), p);
        assert((a + b).drop_last() =~= a + b.drop_last());
        assert((a + b).last() == b.last());
        if p(b.last()) {
            assert((a.filter(p) + b.drop_last().filter(p)).push(b.last()) =~= a.filter(p) + b.drop_last().filter(p).push(b.last()));
        }
    }
}

/// Filtering keeps a sequence whose elements all pass.
pub proof fn lemma_filter_all(s: Seq<char>, p: spec_fn(char) -> bool)
    requires
        forall|i: int| 0 <= i < s.len() ==> p(#[trigger] s[i]),
    ensures
        s.filter(p) == s,
    decreases s.len(),
{
    reveal(Seq::filter);
    if s.len() > 0 {
        lemma_filter_all(s.drop_last(), p);
        assert(p(s[s.len() - 1]));
        assert(s.drop_last().push(s.last()) =~= s);
    }
}

/// Filtering drops a sequence whose elements all fail.
pub proof fn lemma_filter_none(s: Seq<char>, p: spec_fn(char) -> bool)
    requires
        forall|i: int| 0 <= i < s.len() ==> !p(#[trigger] s[i]),
    ensures
        s.filter(p) == Seq::<char>::empty(),
    decreases s.len(),
{
    reveal(Seq::filter);
    if s.len() > 0 {
        lemma_filter_none(s.drop_last(), p);
        assert(!p(s[s.len() - 1]));
    } else {
        assert(s.filter(p) =~= Seq::<char>::empty());
    }
}

} // verus!
