//! Small verified string utilities: equality, character access, and the
//! decimal and hexadecimal renderings that the messages of the library use.
use vstd::prelude::*;
use vstd::string::*;
use vstd::utf8::*;

verus! {

broadcast use vstd::utf8::group_utf8_lib;

/// Appends one character to a `String` (std's `String::push`).
/// Claims that the new contents are the old contents followed by `c`.
#[verifier::external_body]
pub(crate) fn push_char(s: &mut String, c: char)
    ensures
        final(s)@ == old(s)@.push(c),
{
    s.push(c);
}

/// Appends a string slice to a `String`.
pub fn push_str(s: &mut String, t: &str)
    ensures
        final(s)@ == old(s)@ + t@,
{
    s.append(t);
}

/// Whether two string slices hold the same characters.
pub fn str_eq(a: &str, b: &str) -> (r: bool)
    ensures
        r == (a@ == b@),
{
    let ab = a.as_bytes();
    let bb = b.as_bytes();
    proof {
        encode_utf8_decode_utf8(a@);
        encode_utf8_decode_utf8(b@);
    }
    if ab.len() != bb.len() {
        return false;
    }
    let mut i: usize = 0;
    while i < ab.len()
        invariant
            ab@ == a.spec_bytes(),
            bb@ == b.spec_bytes(),
            ab@.len() == bb@.len(),
            i <= ab@.len(),
            forall|j: int| 0 <= j < i ==> ab@[j] == bb@[j],
        decreases ab@.len() - i,
    {
        if ab[i] != bb[i] {
            return false;
        }
        i = i + 1;
    }
    assert(ab@ =~= bb@);
    true
}

/// The characters of a string slice, in order.
pub fn chars_of(s: &str) -> (r: Vec<char>)
    ensures
        r@ == s@,
{
    let mut out: Vec<char> = Vec::new();
    for c in it: s.chars()
        invariant
            it.seq() == s@,
            out@ == it.seq().subrange(0, it.index()),
    {
        out.push(c);
        assert(out@ =~= it.seq().subrange(0, it.index() + 1));
    }
    assert(out@ =~= s@);
    out
}

/// Reads bytes as UTF-8 text (std's `str::from_utf8`).
/// Claims what std documents: the bytes are accepted exactly when they are
/// valid UTF-8, and the text then consists of exactly those bytes.
#[verifier::external_body]
pub(crate) fn utf8_text(bytes: &[u8]) -> (r: Option<&str>)
    ensures
        r.is_some() == valid_utf8(bytes@),
        r matches Some(t) ==> t.spec_bytes() == bytes@,
{
    std::str::from_utf8(bytes).ok()
}

/// A string holding exactly the given characters.
pub fn string_from_chars(cs: &Vec<char>) -> (r: String)
    ensures
        r@ == cs@,
{
    let mut out = String::new();
    let mut i: usize = 0;
    while i < cs.len()
        invariant
            i <= cs@.len(),
            out@ == cs@.subrange(0, i as int),
        decreases cs@.len() - i,
    {
        push_char(&mut out, cs[i]);
        i = i + 1;
        assert(out@ =~= cs@.subrange(0, i as int));
    }
    assert(cs@.subrange(0, cs@.len() as int) =~= cs@);
    out
}

/// The lowercase hexadecimal digit of a value below sixteen.
pub open spec fn hex_digit_lower(n: int) -> char {
    if n < 10 {
        (48 + n) as char
    } else {
        (87 + n) as char
    }
}

/// The uppercase hexadecimal digit of a value below sixteen.
pub open spec fn hex_digit_upper(n: int) -> char {
    if n < 10 {
        (48 + n) as char
    } else {
        (55 + n) as char
    }
}

/// Two lowercase hexadecimal digits per byte, most significant digit first.
pub open spec fn hex_lower(bytes: Seq<u8>) -> Seq<char>
    decreases bytes.len(),
{
    if bytes.len() == 0 {
        Seq::empty()
    } else {
        seq![hex_digit_lower((bytes[0] / 16) as int), hex_digit_lower((bytes[0] % 16) as int)] + hex_lower(
            bytes.drop_first(),
        )
    }
}

/// The length of a hexadecimal rendering is twice the number of bytes.
pub proof fn lemma_hex_lower_len(bytes: Seq<u8>)
    ensures
        hex_lower(bytes).len() == 2 * bytes.len(),
    decreases bytes.len(),
{
    if bytes.len() > 0 {
        lemma_hex_lower_len(bytes.drop_first());
    }
}

/// `v` rendered with exactly `width` lowercase hexadecimal digits
/// (zero-padded, keeping only the low digits).
pub open spec fn hex_fixed_lower(v: nat, width: nat) -> Seq<char>
    decreases width,
{
    if width == 0 {
        Seq::empty()
    } else {
        hex_fixed_lower(v / 16, (width - 1) as nat).push(hex_digit_lower((v % 16) as int))
    }
}

/// `v` rendered with exactly `width` uppercase hexadecimal digits.
pub open spec fn hex_fixed_upper(v: nat, width: nat) -> Seq<char>
    decreases width,
{
    if width == 0 {
        Seq::empty()
    } else {
        hex_fixed_upper(v / 16, (width - 1) as nat).push(hex_digit_upper((v % 16) as int))
    }
}

/// The character of a lowercase hexadecimal digit.
pub fn hex_char_lower(n: u8) -> (c: char)
    requires
        n < 16,
    ensures
        c == hex_digit_lower(n as int),
{
    let table = ['0', '1', '2', '3', '4', '5', '6', '7', '8', '9', 'a', 'b', 'c', 'd', 'e', 'f'];
    let c = table[n as usize];
    proof {
        assert(table@[n as int] == hex_digit_lower(n as int));
    }
    c
}

/// The character of an uppercase hexadecimal digit.
pub fn hex_char_upper(n: u8) -> (c: char)
    requires
        n < 16,
    ensures
        c == hex_digit_upper(n as int),
{
    let table = ['0', '1', '2', '3', '4', '5', '6', '7', '8', '9', 'A', 'B', 'C', 'D', 'E', 'F'];
    let c = table[n as usize];
    proof {
        assert(table@[n as int] == hex_digit_upper(n as int));
    }
    c
}

/// Appends `v` as `width` hexadecimal digits (zero-padded), as `{:0width$x}`
/// or `{:0width$X}` does for a value that fits in `width` digits.
pub fn push_hex_fixed(s: &mut String, v: u64, width: u32, upper: bool)
    requires
        width <= 16,
    ensures
        final(s)@ == old(s)@ + (if upper {
            hex_fixed_upper(v as nat, width as nat)
        } else {
            hex_fixed_lower(v as nat, width as nat)
        }),
    decreases width,
{
    if width == 0 {
        assert(old(s)@ + Seq::<char>::empty() =~= old(s)@);
        return ;
    }
    push_hex_fixed(s, v / 16, width - 1, upper);
    let d = (v % 16) as u8;
    if upper {
        push_char(s, hex_char_upper(d));
    } else {
        push_char(s, hex_char_lower(d));
    }
    proof {
        let ghost w = (width - 1) as nat;
        assert((v / 16) as nat == (v as nat) / 16);
        if upper {
            assert(hex_fixed_upper(v as nat, width as nat) == hex_fixed_upper((v as nat) / 16, w).push(
                hex_digit_upper((v as nat % 16) as int),
            ));
            assert(final(s)@ =~= old(s)@ + hex_fixed_upper(v as nat, width as nat));
        } else {
            assert(hex_fixed_lower(v as nat, width as nat) == hex_fixed_lower((v as nat) / 16, w).push(
                hex_digit_lower((v as nat % 16) as int),
            ));
            assert(final(s)@ =~= old(s)@ + hex_fixed_lower(v as nat, width as nat));
        }
    }
}

/// The decimal digits of a natural number, most significant first, without
/// leading zeros ("0" for zero).
pub open spec fn decimal(n: nat) -> Seq<char>
    decreases n,
{
    if n < 10 {
        seq![(48 + n) as char]
    } else {
        decimal(n / 10).push((48 + n % 10) as char)
    }
}

/// Appends the decimal rendering of `v`, as `{}` does for an unsigned integer.
pub fn push_decimal(s: &mut String, v: u64)
    ensures
        final(s)@ == old(s)@ + decimal(v as nat),
    decreases v,
{
    let digits = ['0', '1', '2', '3', '4', '5', '6', '7', '8', '9'];
    if v < 10 {
        let c = digits[v as usize];
        assert(digits@[v as int] == (48 + v) as char);
        push_char(s, c);
        assert(final(s)@ =~= old(s)@ + decimal(v as nat));
    } else {
        push_decimal(s, v / 10);
        let d = (v % 10) as usize;
        let c = digits[d];
        assert(digits@[d as int] == (48 + (v as nat) % 10) as char);
        push_char(s, c);
        assert((v / 10) as nat == (v as nat) / 10);
        assert(final(s)@ =~= old(s)@ + decimal(v as nat));
    }
}

/// The decimal rendering of `v`.
pub fn decimal_string(v: u64) -> (r: String)
    ensures
        r@ == decimal(v as nat),
{
    let mut s = String::new();
    push_decimal(&mut s, v);
    assert(s@ =~= decimal(v as nat));
    s
}

/// Whether `c` has the Unicode `White_Space` property (what
/// `char::is_whitespace` tests, and what `str::trim` removes).
pub open spec fn is_whitespace(c: char) -> bool {
    ('\u{9}' <= c && c <= '\u{d}') || c == ' ' || c == '\u{85}' || c == '\u{a0}' || c == '\u{1680}'
        || ('\u{2000}' <= c && c <= '\u{200a}') || c == '\u{2028}' || c == '\u{2029}' || c
        == '\u{202f}' || c == '\u{205f}' || c == '\u{3000}'
}

/// Whether `c` has the Unicode `White_Space` property.
pub fn char_is_whitespace(c: char) -> (r: bool)
    ensures
        r == is_whitespace(c),
{
    ('\u{9}' <= c && c <= '\u{d}') || c == ' ' || c == '\u{85}' || c == '\u{a0}' || c == '\u{1680}'
        || ('\u{2000}' <= c && c <= '\u{200a}') || c == '\u{2028}' || c == '\u{2029}' || c
        == '\u{202f}' || c == '\u{205f}' || c == '\u{3000}'
}

/// Whether `start..end` is the part of `s` that `str::trim` keeps: the
/// characters before `start` and from `end` on are whitespace, and the kept
/// part is empty or starts and ends with a non-whitespace character.
pub open spec fn is_trim_range(s: Seq<char>, start: int, end: int) -> bool {
    &&& 0 <= start <= end <= s.len()
    &&& forall|i: int| 0 <= i < start ==> is_whitespace(#[trigger] s[i])
    &&& forall|i: int| end <= i < s.len() ==> is_whitespace(#[trigger] s[i])
    &&& start < end ==> !is_whitespace(s[start]) && !is_whitespace(s[end - 1])
    &&& start == end ==> start == 0 && forall|i: int| 0 <= i < s.len() ==> is_whitespace(#[trigger] s[i])
}

/// The characters of `s` without leading and trailing whitespace, as
/// `str::trim` gives them.
pub open spec fn trimmed(s: Seq<char>) -> Seq<char> {
    let r = choose|r: (int, int)| is_trim_range(s, r.0, r.1);
    s.subrange(r.0, r.1)
}

/// Removing whitespace from both ends has exactly one result.
pub proof fn lemma_trim_range_unique(s: Seq<char>, a: int, b: int, c: int, d: int)
    requires
        is_trim_range(s, a, b),
        is_trim_range(s, c, d),
    ensures
        a == c && b == d,
{
    if a < b && c < d {
        if a < c {
            assert(is_whitespace(s[a]));
        }
        if c < a {
            assert(is_whitespace(s[c]));
        }
        if b < d {
            assert(is_whitespace(s[d - 1]));
        }
        if d < b {
            assert(is_whitespace(s[b - 1]));
        }
    } else if a < b {
        assert(is_whitespace(s[a]));
    } else if c < d {
        assert(is_whitespace(s[c]));
    }
}

/// The bounds of the part of `cs` that trimming keeps.
pub fn trim_range(cs: &Vec<char>) -> (r: (usize, usize))
    ensures
        is_trim_range(cs@, r.0 as int, r.1 as int),
        cs@.subrange(r.0 as int, r.1 as int) == trimmed(cs@),
{
    let n = cs.len();
    let mut start: usize = 0;
    while start < n && char_is_whitespace(cs[start])
        invariant
            n == cs@.len(),
            start <= n,
            forall|i: int| 0 <= i < start ==> is_whitespace(#[trigger] cs@[i]),
        decreases n - start,
    {
        start = start + 1;
    }
    let mut end: usize = n;
    if start == n {
        end = 0;
        start = 0;
    } else {
        while end > start && char_is_whitespace(cs[end - 1])
            invariant
                n == cs@.len(),
                start < n,
                start <= end <= n,
                !is_whitespace(cs@[start as int]),
                forall|i: int| end <= i < n ==> is_whitespace(#[trigger] cs@[i]),
            decreases end,
        {
            end = end - 1;
        }
    }
    proof {
        assert(is_trim_range(cs@, start as int, end as int));
        let w = (start as int, end as int);
        assert(is_trim_range(cs@, w.0, w.1));
        let r = choose|r: (int, int)| is_trim_range(cs@, r.0, r.1);
        lemma_trim_range_unique(cs@, r.0, r.1, start as int, end as int);
    }
    (start, end)
}

/// `s` without leading and trailing whitespace (as `str::trim`).
pub fn trim(s: &str) -> (r: Vec<char>)
    ensures
        r@ == trimmed(s@),
{
    let cs = chars_of(s);
    let (a, b) = trim_range(&cs);
    let mut out: Vec<char> = Vec::new();
    let mut i = a;
    while i < b
        invariant
            a <= i <= b <= cs@.len(),
            out@ == cs@.subrange(a as int, i as int),
        decreases b - i,
    {
        out.push(cs[i]);
        i = i + 1;
        assert(out@ =~= cs@.subrange(a as int, i as int));
    }
    out
}

/// Whether `s` is exactly the characters of `lit`.
pub fn chars_eq(s: &Vec<char>, lit: &str) -> (r: bool)
    ensures
        r == (s@ == lit@),
{
    let t = string_from_chars(s);
    str_eq(t.as_str(), lit)
}

} // verus!
