//! Honey tokens: innocuous-looking files that carry a tracking UUID. They
//! are planted on approved drives, and a copy that turns up elsewhere is
//! recognised by reading the UUID back out of its content.
use crate::clock::now_nanos;
use crate::crypto::{hex_encode, sha256, spec_sha256};
use crate::ids::{
    parse_uuid, pow256, random_uuid, spec_uuid_parse, u128_from_be, u128_from_be_bytes,
    uuid_hyphenated, uuid_to_string, uuid_version,
};
use crate::text::{
    hex_digit_lower, hex_fixed_lower, hex_lower, is_trim_range,
    lemma_trim_range_unique, push_str, str_eq, string_from_chars, trim, trimmed, utf8_text,
};
use vstd::arithmetic::div_mod::{lemma_div_denominator, lemma_mod_breakdown};
use vstd::prelude::*;
use vstd::slice::{slice_subrange, slice_to_vec};
use vstd::string::*;
use vstd::utf8::*;

verus! {

broadcast use vstd::utf8::group_utf8_lib;

/// The bytes of `AEGIS-TK:`, the marker that precedes the UUID in the text
/// forms of a token.
pub open spec fn marker_bytes() -> Seq<u8> {
    seq![0x41u8, 0x45u8, 0x47u8, 0x49u8, 0x53u8, 0x2du8, 0x54u8, 0x4bu8, 0x3au8]
}

/// Whether the marker starts at byte `i` of `b`.
pub open spec fn marker_at(b: Seq<u8>, i: int) -> bool {
    0 <= i && i + 9 <= b.len() && b.subrange(i, i + 9) == marker_bytes()
}

/// The first position at or after `i` where the marker starts.
pub open spec fn marker_from(b: Seq<u8>, i: int) -> Option<int>
    decreases b.len() - i,
{
    if i < 0 || i + 9 > b.len() {
        None
    } else if marker_at(b, i) {
        Some(i)
    } else {
        marker_from(b, i + 1)
    }
}

/// The number of bytes in the UTF-8 encoding of `c`.
pub open spec fn utf8_width(c: char) -> int {
    if (c as u32) < 0x80 {
        1
    } else if (c as u32) < 0x800 {
        2
    } else if (c as u32) < 0x10000 {
        3
    } else {
        4
    }
}

/// The leading characters of `r` whose encoding is exactly `n` bytes long;
/// `None` when the encoding of `r` is shorter than `n` bytes or byte `n`
/// falls inside a character.
pub open spec fn utf8_prefix(r: Seq<char>, n: int) -> Option<Seq<char>>
    decreases r.len(),
{
    if n <= 0 {
        Some(Seq::empty())
    } else if r.len() == 0 || utf8_width(r[0]) > n {
        None
    } else {
        match utf8_prefix(r.drop_first(), n - utf8_width(r[0])) {
            Some(p) => Some(seq![r[0]] + p),
            None => None,
        }
    }
}

/// For UTF-8 `content` holding the marker: the text after its first
/// occurrence, without surrounding whitespace.
pub open spec fn text_after_marker(content: Seq<u8>) -> Option<Seq<char>> {
    if valid_utf8(content) {
        match marker_from(content, 0) {
            Some(p) => Some(trimmed(decode_utf8(content.subrange(p + 9, content.len() as int)))),
            None => None,
        }
    } else {
        None
    }
}

/// The token of the text form: the first 36 bytes of the text after the
/// marker, read as a UUID. There is none when the text is shorter than 36
/// bytes or byte 36 falls inside a character.
pub open spec fn text_token(content: Seq<u8>) -> Option<u128> {
    match text_after_marker(content) {
        Some(r) => match utf8_prefix(r, 36) {
            Some(pre) => spec_uuid_parse(pre),
            None => None,
        },
        None => None,
    }
}

/// The token of the binary form: bytes 36 to 52 as a UUID, unless that
/// UUID is nil.
pub open spec fn binary_token(content: Seq<u8>) -> Option<u128> {
    if content.len() >= 52 && u128_from_be(content.subrange(36, 52)) != 0 {
        Some(u128_from_be(content.subrange(36, 52)) as u128)
    } else {
        None
    }
}

/// The token found in `content`: the text form first, else the binary
/// form.
pub open spec fn extracted_token(content: Seq<u8>) -> Option<u128> {
    match text_token(content) {
        Some(id) => Some(id),
        None => binary_token(content),
    }
}

/// The file names that tokens take.
pub open spec fn honey_filename(k: int) -> Seq<char> {
    if k == 0 {
        ".DS_Store"@
    } else if k == 1 {
        "Thumbs.db"@
    } else if k == 2 {
        "desktop.ini"@
    } else if k == 3 {
        ".directory"@
    } else if k == 4 {
        "~$Document.tmp"@
    } else {
        ".metadata_never_index"@
    }
}

/// The file name of the token with UUID `id`: chosen by the first byte of
/// the UUID, modulo the number of names.
pub open spec fn token_filename(id: u128) -> Seq<char> {
    honey_filename((((id as nat) / 0x100_0000_0000_0000_0000_0000_0000_0000) % 6) as int)
}

/// The text of a `desktop.ini` token: Windows folder settings with the
/// UUID in a comment line.
pub open spec fn desktop_ini_text(id: u128) -> Seq<char> {
    "[.ShellClassInfo]\n"@ + "IconResource=C:\\Windows\\System32\\SHELL32.dll,4\n"@
        + "[ViewState]\n"@ + "Mode=\n"@ + "Vid=\n"@ + "; "@ + "AEGIS-TK:"@ + uuid_hyphenated(id) + "\n"@
}

/// The text of a `.directory` token: KDE folder metadata with the UUID in
/// the comment entry.
pub open spec fn directory_text(id: u128) -> Seq<char> {
    "[Desktop Entry]\n"@ + "Icon=folder\n"@ + "Comment="@ + "AEGIS-TK:"@ + uuid_hyphenated(id) + "\n"@
}

/// The `n` bytes of `v` (modulo 256 to the `n`), most significant first.
pub open spec fn be_bytes(v: nat, n: nat) -> Seq<u8>
    decreases n,
{
    if n == 0 {
        seq![]
    } else {
        be_bytes(v / 256, (n - 1) as nat).push((v % 256) as u8)
    }
}

/// The binary form of a token: a four-byte magic, 32 spaces, the sixteen
/// bytes of the UUID and 48 zero bytes.
pub open spec fn binary_content(id: u128) -> Seq<u8> {
    seq![0x00u8, 0x01u8, 0x00u8, 0x00u8] + Seq::new(32, |i: int| 0x20u8) + be_bytes(id as nat, 16)
        + Seq::new(48, |i: int| 0x00u8)
}

/// The content of the token file named `filename` for UUID `id`.
pub open spec fn token_content(id: u128, filename: Seq<char>) -> Seq<u8> {
    if filename == "desktop.ini"@ {
        encode_utf8(desktop_ini_text(id))
    } else if filename == ".directory"@ {
        encode_utf8(directory_text(id))
    } else {
        binary_content(id)
    }
}

/// The RFC 4122 variant bits `10` (bits 63 and 62), which random UUIDs carry.
pub open spec fn rfc_variant(id: u128) -> bool {
    ((id as nat) / 0x4000_0000_0000_0000) % 4 == 2
}

/// A lowercase hexadecimal digit.
pub open spec fn is_hex_lower_char(c: char) -> bool {
    ('0' <= c && c <= '9') || ('a' <= c && c <= 'f')
}

proof fn lemma_hex_fixed_lower_digits(v: nat, w: nat)
    ensures
        hex_fixed_lower(v, w).len() == w,
        forall|i: int| 0 <= i < w ==> is_hex_lower_char(#[trigger] hex_fixed_lower(v, w)[i]),
    decreases w,
{
    if w > 0 {
        lemma_hex_fixed_lower_digits(v / 16, (w - 1) as nat);
        let d = (v % 16) as int;
        assert(is_hex_lower_char(hex_digit_lower(d)));
    }
}

/// The hyphenated rendering is 36 characters: hexadecimal digits and
/// hyphens, starting and ending with a digit.
proof fn lemma_uuid_hyphenated_shape(id: u128)
    ensures
        uuid_hyphenated(id).len() == 36,
        forall|i: int|
            0 <= i < 36 ==> is_hex_lower_char(#[trigger] uuid_hyphenated(id)[i])
                || uuid_hyphenated(id)[i] == '-',
        is_hex_lower_char(uuid_hyphenated(id)[0]),
        is_hex_lower_char(uuid_hyphenated(id)[35]),
{
    let v = id as nat;
    lemma_hex_fixed_lower_digits(v / 0x1_0000_0000_0000_0000_0000_0000, 8);
    lemma_hex_fixed_lower_digits(v / 0x1_0000_0000_0000_0000_0000, 4);
    lemma_hex_fixed_lower_digits(v / 0x1_0000_0000_0000_0000, 4);
    lemma_hex_fixed_lower_digits(v / 0x1_0000_0000_0000, 4);
    lemma_hex_fixed_lower_digits(v, 12);
}

/// A position that `marker_from` reports holds the marker.
proof fn lemma_marker_from_found(b: Seq<u8>, i: int)
    ensures
        marker_from(b, i) matches Some(p) ==> marker_at(b, p) && i <= p,
    decreases b.len() - i,
{
    if 0 <= i && i + 9 <= b.len() && !marker_at(b, i) {
        lemma_marker_from_found(b, i + 1);
    }
}

proof fn lemma_marker_from_none(b: Seq<u8>, i: int)
    requires
        0 <= i,
        forall|j: int| i <= j && j + 9 <= b.len() ==> !marker_at(b, j),
    ensures
        marker_from(b, i) is None,
    decreases b.len() - i,
{
    if i + 9 <= b.len() {
        lemma_marker_from_none(b, i + 1);
    }
}

proof fn lemma_marker_from_at(b: Seq<u8>, i: int, q: int)
    requires
        0 <= i <= q,
        marker_at(b, q),
        forall|j: int| i <= j < q ==> !marker_at(b, j),
    ensures
        marker_from(b, i) == Some(q),
    decreases q - i,
{
    if i < q {
        lemma_marker_from_at(b, i + 1, q);
    }
}

proof fn lemma_pow256_pos(n: nat)
    ensures
        pow256(n) > 0,
    decreases n,
{
    if n > 0 {
        lemma_pow256_pos((n - 1) as nat);
    }
}

/// The bytes of `v`: their count, the value they spell, and each byte.
proof fn lemma_be_bytes(v: nat, n: nat)
    ensures
        be_bytes(v, n).len() == n,
        u128_from_be(be_bytes(v, n)) == v % pow256(n),
        forall|k: int|
            0 <= k < n ==> #[trigger] be_bytes(v, n)[k] as nat == (v / pow256((n - 1 - k) as nat))
                % 256,
    decreases n,
{
    if n > 0 {
        let m = (n - 1) as nat;
        lemma_be_bytes(v / 256, m);
        let s = be_bytes(v, n);
        assert(s.drop_last() =~= be_bytes(v / 256, m));
        lemma_pow256_pos(m);
        lemma_mod_breakdown(v as int, 256, pow256(m) as int);
        assert(pow256(n) == 256 * pow256(m));
        assert forall|k: int| 0 <= k < n implies #[trigger] s[k] as nat == (v / pow256(
            (n - 1 - k) as nat,
        )) % 256 by {
            if k < m {
                assert(s[k] == be_bytes(v / 256, m)[k]);
                let e = (m - 1 - k) as nat;
                assert(be_bytes(v / 256, m)[k] as nat == ((v / 256) / pow256(e)) % 256);
                lemma_pow256_pos(e);
                lemma_div_denominator(v as int, 256, pow256(e) as int);
                assert((n - 1 - k) as nat == e + 1);
                assert(pow256(e + 1) == pow256(e) * 256);
                assert(((v / 256) / pow256(e)) == v / (256 * pow256(e)));
            } else {
                assert(s[k] == (v % 256) as u8);
                assert((n - 1 - k) as nat == 0);
                assert(pow256(0) == 1);
            }
        }
    }
}

proof fn lemma_pow256_values()
    ensures
        pow256(7) == 0x100_0000_0000_0000,
        pow256(16) == 0x1_0000_0000_0000_0000_0000_0000_0000_0000,
{
    reveal_with_fuel(pow256, 17);
}

/// No marker occurs in the binary form of a token with the RFC variant
/// bits: byte 8 of such a UUID is not ASCII, and the marker cannot fit in
/// the UUID on either side of it.
proof fn lemma_binary_content_unmarked(id: u128)
    requires
        rfc_variant(id),
    ensures
        marker_from(binary_content(id), 0) is None,
        binary_content(id).len() == 100,
        binary_content(id).subrange(36, 52) == be_bytes(id as nat, 16),
{
    let c = binary_content(id);
    let u = be_bytes(id as nat, 16);
    lemma_be_bytes(id as nat, 16);
    lemma_pow256_values();
    assert(c.len() == 100);
    assert(u[8] as nat == ((id as nat) / 0x100_0000_0000_0000) % 256);
    assert((id / 0x100_0000_0000_0000u128) % 256 >= 0x80) by (bit_vector)
        requires
            (id / 0x4000_0000_0000_0000u128) % 4 == 2,
    ;
    assert(c[44] == u[8]);
    assert forall|j: int| 0 <= j && j + 9 <= c.len() implies !marker_at(c, j) by {
        if marker_at(c, j) {
            let w = c.subrange(j, j + 9);
            assert(w[0] == c[j]);
            assert(w[8] == c[j + 8]);
            if 36 <= j && j <= 44 {
                assert(w[44 - j] == c[44]);
                assert(w[44 - j] == marker_bytes()[44 - j]);
            }
        }
    }
    lemma_marker_from_none(c, 0);
    assert(c.subrange(36, 52) =~= u);
}

/// The binary form of a token with the RFC variant bits is read back as
/// its UUID.
proof fn lemma_binary_token_readable(id: u128)
    requires
        rfc_variant(id),
    ensures
        extracted_token(binary_content(id)) == Some(id),
{
    let c = binary_content(id);
    lemma_binary_content_unmarked(id);
    lemma_be_bytes(id as nat, 16);
    lemma_pow256_values();
    assert(text_token(c) is None);
    assert(u128_from_be(c.subrange(36, 52)) == id);
}

/// The first `n` bytes of ASCII text are its first `n` characters.
proof fn lemma_ascii_prefix(r: Seq<char>, n: int)
    requires
        is_ascii_chars(r),
        0 <= n <= r.len(),
    ensures
        utf8_prefix(r, n) == Some(r.subrange(0, n)),
    decreases r.len(),
{
    if n > 0 {
        assert(is_ascii_chars(r.drop_first()));
        lemma_ascii_prefix(r.drop_first(), n - 1);
        assert(seq![r[0]] + r.drop_first().subrange(0, n - 1) =~= r.subrange(0, n));
    } else {
        assert(r.subrange(0, 0) =~= Seq::<char>::empty());
    }
}

/// UTF-8 text made of an ASCII head without the letter `A`, the marker, a
/// hyphenated UUID and a newline is read back as that UUID.
proof fn lemma_text_token_readable(head: Seq<char>, id: u128)
    requires
        is_ascii_chars(head),
        forall|i: int| 0 <= i < head.len() ==> head[i] != 'A',
        spec_uuid_parse(uuid_hyphenated(id)) == Some(id),
    ensures
        extracted_token(encode_utf8(head + "AEGIS-TK:"@ + uuid_hyphenated(id) + "\n"@)) == Some(id),
{
    reveal_strlit("AEGIS-TK:");
    reveal_strlit("\n");
    let mk = "AEGIS-TK:"@;
    let u = uuid_hyphenated(id);
    let nl = "\n"@;
    let t = head + mk + u + nl;
    lemma_uuid_hyphenated_shape(id);
    let r = u + nl;
    assert(is_ascii_chars(r));
    assert(is_ascii_chars(t));
    let b = encode_utf8(t);
    is_ascii_chars_encode_utf8(t);
    is_ascii_chars_encode_utf8(r);
    let q = head.len() as int;
    assert(b.subrange(q, q + 9) =~= marker_bytes());
    assert forall|j: int| 0 <= j < q implies !marker_at(b, j) by {
        if marker_at(b, j) {
            assert(b.subrange(j, j + 9)[0] == b[j]);
        }
    }
    lemma_marker_from_at(b, 0, q);
    let rest = b.subrange(q + 9, b.len() as int);
    assert(rest =~= encode_utf8(r));
    assert(decode_utf8(rest) == r);
    let w0 = (0int, 36int);
    assert(is_trim_range(r, w0.0, w0.1));
    let w = choose|w: (int, int)| is_trim_range(r, w.0, w.1);
    lemma_trim_range_unique(r, w.0, w.1, 0, 36);
    assert(r.subrange(0, 36) =~= u);
    assert(trimmed(r) == u);
    lemma_ascii_prefix(u, 36);
    assert(u.subrange(0, 36) =~= u);
}

/// The `desktop.ini` form is read back as its UUID.
proof fn lemma_desktop_ini_readable(id: u128)
    requires
        spec_uuid_parse(uuid_hyphenated(id)) == Some(id),
    ensures
        extracted_token(encode_utf8(desktop_ini_text(id))) == Some(id),
{
    reveal_strlit("[.ShellClassInfo]\n");
    reveal_strlit("IconResource=C:\\Windows\\System32\\SHELL32.dll,4\n");
    reveal_strlit("[ViewState]\n");
    reveal_strlit("Mode=\n");
    reveal_strlit("Vid=\n");
    reveal_strlit("; ");
    let head = "[.ShellClassInfo]\n"@ + "IconResource=C:\\Windows\\System32\\SHELL32.dll,4\n"@
        + "[ViewState]\n"@ + "Mode=\n"@ + "Vid=\n"@ + "; "@;
    assert(is_ascii_chars(head));
    assert(forall|i: int| 0 <= i < head.len() ==> head[i] != 'A');
    lemma_text_token_readable(head, id);
}

/// The `.directory` form is read back as its UUID.
proof fn lemma_directory_readable(id: u128)
    requires
        spec_uuid_parse(uuid_hyphenated(id)) == Some(id),
    ensures
        extracted_token(encode_utf8(directory_text(id))) == Some(id),
{
    reveal_strlit("[Desktop Entry]\n");
    reveal_strlit("Icon=folder\n");
    reveal_strlit("Comment=");
    let head = "[Desktop Entry]\n"@ + "Icon=folder\n"@ + "Comment="@;
    assert(is_ascii_chars(head));
    assert(forall|i: int| 0 <= i < head.len() ==> head[i] != 'A');
    lemma_text_token_readable(head, id);
}

/// In valid UTF-8, what follows an ASCII byte is valid UTF-8 too.
proof fn lemma_utf8_after_ascii(b: Seq<u8>, k: int)
    requires
        valid_utf8(b),
        0 <= k < b.len(),
        b[k] < 0x80,
    ensures
        valid_utf8(b.subrange(k + 1, b.len() as int)),
{
    is_char_boundary_iff_is_leading_byte(b, k);
    valid_utf8_split(b, k);
    let r = b.subrange(k, b.len() as int);
    assert(r[0] == b[k]);
    assert(pop_first_scalar(r) =~= b.subrange(k + 1, b.len() as int));
}

/// Whether the marker starts at byte `i` of `b`.
fn marker_at_exec(b: &[u8], i: usize) -> (r: bool)
    requires
        i + 9 <= b.len(),
    ensures
        r == marker_at(b@, i as int),
{
    let m: [u8; 9] = [0x41, 0x45, 0x47, 0x49, 0x53, 0x2d, 0x54, 0x4b, 0x3a];
    assert(m@ =~= marker_bytes());
    let mut k: usize = 0;
    while k < 9
        invariant
            k <= 9,
            i + 9 <= b.len(),
            m@ == marker_bytes(),
            forall|j: int| 0 <= j < k ==> b@[i + j] == m@[j],
        decreases 9 - k,
    {
        if b[i + k] != m[k] {
            assert(b@.subrange(i as int, i + 9)[k as int] != marker_bytes()[k as int]);
            return false;
        }
        k = k + 1;
    }
    assert(b@.subrange(i as int, i + 9) =~= marker_bytes());
    true
}

/// The first position of the marker in `b`.
fn find_marker(b: &[u8]) -> (r: Option<usize>)
    ensures
        match r {
            Some(p) => marker_from(b@, 0) == Some(p as int),
            None => marker_from(b@, 0) is None,
        },
{
    let n = b.len();
    let mut i: usize = 0;
    while i < n && n - i >= 9
        invariant
            i <= n,
            n == b@.len(),
            marker_from(b@, 0) == marker_from(b@, i as int),
        decreases n - i,
    {
        if marker_at_exec(b, i) {
            return Some(i);
        }
        i = i + 1;
    }
    None
}

/// The number of bytes in the UTF-8 encoding of `c`.
fn char_width(c: char) -> (w: usize)
    ensures
        w == utf8_width(c),
{
    let v = c as u32;
    if v < 0x80 {
        1
    } else if v < 0x800 {
        2
    } else if v < 0x10000 {
        3
    } else {
        4
    }
}

/// The leading characters of `r` whose encoding is exactly `n` bytes long.
fn utf8_prefix_of(r: &Vec<char>, n: usize) -> (p: Option<Vec<char>>)
    ensures
        match p {
            Some(v) => utf8_prefix(r@, n as int) == Some(v@),
            None => utf8_prefix(r@, n as int) is None,
        },
{
    let mut need: usize = n;
    let mut i: usize = 0;
    let mut pre: Vec<char> = Vec::new();
    proof {
        assert(r@.subrange(0, r@.len() as int) =~= r@);
        if let Some(q) = utf8_prefix(r@, n as int) {
            assert(pre@ + q =~= q);
        }
    }
    while need > 0 && i < r.len() && char_width(r[i]) <= need
        invariant
            i <= r@.len(),
            need <= n,
            utf8_prefix(r@, n as int) == (match utf8_prefix(
                r@.subrange(i as int, r@.len() as int),
                need as int,
            ) {
                Some(q) => Some(pre@ + q),
                None => None,
            }),
        decreases r@.len() - i,
    {
        let c = r[i];
        let w = char_width(c);
        proof {
            let s = r@.subrange(i as int, r@.len() as int);
            let s2 = r@.subrange(i + 1, r@.len() as int);
            assert(s.drop_first() =~= s2);
            assert(s[0] == c);
            match utf8_prefix(s2, need - w) {
                Some(q) => {
                    assert(pre@ + (seq![c] + q) =~= pre@.push(c) + q);
                },
                None => {},
            }
        }
        pre.push(c);
        need = need - w;
        i = i + 1;
    }
    if need == 0 {
        assert(pre@ + Seq::<char>::empty() =~= pre@);
        Some(pre)
    } else {
        None
    }
}

/// The token of the text form of `content`.
fn text_token_of(content: &[u8]) -> (r: Option<u128>)
    ensures
        r == text_token(content@),
{
    if utf8_text(content).is_none() {
        return None;
    }
    let p = match find_marker(content) {
        Some(p) => p,
        None => return None,
    };
    proof {
        lemma_marker_from_found(content@, 0);
        assert(content@.subrange(p as int, p + 9)[8] == marker_bytes()[8]);
        lemma_utf8_after_ascii(content@, p + 8);
        assert(p + 9 <= content.len());
    }
    let rest = slice_subrange(content, p + 9, content.len());
    let text = match utf8_text(rest) {
        Some(t) => t,
        None => return None,
    };
    assert(text@ == decode_utf8(rest@));
    let t = trim(text);
    match utf8_prefix_of(&t, 36) {
        Some(pre) => {
            let s = string_from_chars(&pre);
            parse_uuid(s.as_str())
        },
        None => None,
    }
}

/// Looks for a honey token in a file's content: first a text token (the
/// UUID after the `AEGIS-TK:` marker in UTF-8 text), then a binary token
/// (a non-nil UUID in bytes 36 to 52).
pub fn extract_token_id(content: &[u8]) -> (r: Option<u128>)
    ensures
        r == extracted_token(content@),
{
    if let Some(id) = text_token_of(content) {
        return Some(id);
    }
    if content.len() >= 52 {
        let v = u128_from_be_bytes(slice_subrange(content, 36, 52));
        if v != 0 {
            return Some(v);
        }
    }
    None
}

/// The sixteen bytes of a UUID, most significant first.
fn uuid_bytes(id: u128) -> (r: Vec<u8>)
    ensures
        r@ == be_bytes(id as nat, 16),
{
    let mut out: Vec<u8> = Vec::new();
    let mut x: u128 = id;
    let mut j: usize = 0;
    while j < 16
        invariant
            j <= 16,
            be_bytes(id as nat, 16) == be_bytes(x as nat, (16 - j) as nat) + out@,
        decreases 16 - j,
    {
        let b = (x % 256) as u8;
        proof {
            let rest = be_bytes((x / 256) as nat, (15 - j) as nat);
            assert(be_bytes(x as nat, (16 - j) as nat) == rest.push(b));
            assert(rest.push(b) + out@ =~= rest + out@.insert(0, b));
        }
        out.insert(0, b);
        x = x / 256;
        j = j + 1;
    }
    assert(be_bytes(x as nat, 0) + out@ =~= out@);
    out
}

/// The file name of the token with UUID `id`.
fn filename_for(id: u128) -> (name: &'static str)
    ensures
        name@ == token_filename(id),
{
    let k = id / 0x100_0000_0000_0000_0000_0000_0000_0000 % 6;
    if k == 0 {
        ".DS_Store"
    } else if k == 1 {
        "Thumbs.db"
    } else if k == 2 {
        "desktop.ini"
    } else if k == 3 {
        ".directory"
    } else if k == 4 {
        "~$Document.tmp"
    } else {
        ".metadata_never_index"
    }
}

/// The binary form of a token.
fn binary_token_content(id: u128) -> (content: Vec<u8>)
    ensures
        content@ == binary_content(id),
{
    let mut buf: Vec<u8> = Vec::new();
    buf.push(0x00);
    buf.push(0x01);
    buf.push(0x00);
    buf.push(0x00);
    let mut i: usize = 0;
    while i < 32
        invariant
            i <= 32,
            buf@ =~= seq![0x00u8, 0x01u8, 0x00u8, 0x00u8] + Seq::new(i as nat, |k: int| 0x20u8),
        decreases 32 - i,
    {
        buf.push(0x20);
        i = i + 1;
    }
    let ghost head = buf@;
    let ub = uuid_bytes(id);
    proof {
        lemma_be_bytes(id as nat, 16);
    }
    let mut j: usize = 0;
    while j < 16
        invariant
            j <= 16,
            ub@.len() == 16,
            buf@ =~= head + ub@.subrange(0, j as int),
        decreases 16 - j,
    {
        buf.push(ub[j]);
        j = j + 1;
    }
    let ghost mid = buf@;
    let mut z: usize = 0;
    while z < 48
        invariant
            z <= 48,
            buf@ =~= mid + Seq::new(z as nat, |k: int| 0x00u8),
        decreases 48 - z,
    {
        buf.push(0x00);
        z = z + 1;
    }
    assert(ub@.subrange(0, 16) =~= ub@);
    assert(buf@ =~= binary_content(id));
    buf
}

/// The content of a token file: for `desktop.ini` and `.directory`, text
/// in that file's usual format with the UUID after the `AEGIS-TK:` marker;
/// for other names, the binary form. The UUID can be read back from it.
pub fn generate_token_content(token_id: u128, filename: &str) -> (content: Vec<u8>)
    ensures
        content@ == token_content(token_id, filename@),
        (filename@ == "desktop.ini"@ || filename@ == ".directory"@ || rfc_variant(token_id))
            ==> extracted_token(content@) == Some(token_id),
{
    if str_eq(filename, "desktop.ini") {
        let mut s = String::new();
        push_str(&mut s, "[.ShellClassInfo]\n");
        push_str(&mut s, "IconResource=C:\\Windows\\System32\\SHELL32.dll,4\n");
        push_str(&mut s, "[ViewState]\n");
        push_str(&mut s, "Mode=\n");
        push_str(&mut s, "Vid=\n");
        push_str(&mut s, "; ");
        push_str(&mut s, "AEGIS-TK:");
        let u = uuid_to_string(token_id);
        push_str(&mut s, u.as_str());
        push_str(&mut s, "\n");
        assert(s@ =~= desktop_ini_text(token_id));
        proof {
            lemma_desktop_ini_readable(token_id);
        }
        slice_to_vec(s.as_str().as_bytes())
    } else if str_eq(filename, ".directory") {
        let mut s = String::new();
        push_str(&mut s, "[Desktop Entry]\n");
        push_str(&mut s, "Icon=folder\n");
        push_str(&mut s, "Comment=");
        push_str(&mut s, "AEGIS-TK:");
        let u = uuid_to_string(token_id);
        push_str(&mut s, u.as_str());
        push_str(&mut s, "\n");
        assert(s@ =~= directory_text(token_id));
        proof {
            lemma_directory_readable(token_id);
        }
        slice_to_vec(s.as_str().as_bytes())
    } else {
        proof {
            if rfc_variant(token_id) {
                lemma_binary_token_readable(token_id);
            }
        }
        binary_token_content(token_id)
    }
}

/// A honey token as recorded when it is planted.
pub struct HoneyTokenInfo {
    /// The tracking UUID embedded in the token.
    pub token_id: u128,
    /// The session of the device the token was planted on.
    pub device_session_id: u128,
    /// The device passport at the time of planting.
    pub device_passport: String,
    /// The file name of the token.
    pub filename: String,
    /// Lowercase hexadecimal SHA-256 of the file content.
    pub content_hash: String,
    /// When the token was planted, in nanoseconds since the Unix epoch.
    pub planted_at: i64,
}

/// Makes a honey token for a device: a fresh random UUID, a file name
/// chosen by its first byte, the file content, and the record of it.
/// Returns the file name, the content and the record. The UUID can be read
/// back from the content by `extract_token_id`.
pub fn generate_honey_token(device_session_id: u128, device_passport: &str) -> (r: (
    String,
    Vec<u8>,
    HoneyTokenInfo,
))
    ensures
        uuid_version(r.2.token_id) == 4,
        rfc_variant(r.2.token_id),
        r.0@ == token_filename(r.2.token_id),
        r.1@ == token_content(r.2.token_id, r.0@),
        r.2.device_session_id == device_session_id,
        r.2.device_passport@ == device_passport@,
        r.2.filename@ == r.0@,
        r.2.content_hash@ == hex_lower(spec_sha256(r.1@)),
        extracted_token(r.1@) == Some(r.2.token_id),
{
    let token_id = random_uuid();
    let now = now_nanos();
    let name = filename_for(token_id);
    let content = generate_token_content(token_id, name);
    let digest = sha256(content.as_slice());
    let content_hash = hex_encode(digest.as_slice());
    let info = HoneyTokenInfo {
        token_id,
        device_session_id,
        device_passport: device_passport.to_owned(),
        filename: name.to_owned(),
        content_hash,
        planted_at: now,
    };
    (name.to_owned(), content, info)
}

} // verus!
