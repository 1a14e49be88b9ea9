//! Session and token identifiers: 128-bit UUIDs, made and rendered by the
//! `uuid` crate and carried through the library as `u128` values (the
//! big-endian reading of the UUID's sixteen bytes).
use crate::text::hex_fixed_lower;
use vstd::prelude::*;

verus! {

/// The canonical hyphenated lowercase rendering of a UUID,
/// `xxxxxxxx-xxxx-xxxx-xxxx-xxxxxxxxxxxx`.
pub open spec fn uuid_hyphenated(id: u128) -> Seq<char> {
    let v = id as nat;
    hex_fixed_lower(v / 0x1_0000_0000_0000_0000_0000_0000, 8) + seq!['-']
        + hex_fixed_lower(v / 0x1_0000_0000_0000_0000_0000, 4) + seq!['-']
        + hex_fixed_lower(v / 0x1_0000_0000_0000_0000, 4) + seq!['-']
        + hex_fixed_lower(v / 0x1_0000_0000_0000, 4) + seq!['-']
        + hex_fixed_lower(v, 12)
}

/// What `uuid::Uuid::parse_str` gives for a text, as the `u128` of the UUID.
pub uninterp spec fn spec_uuid_parse(text: Seq<char>) -> Option<u128>;

/// The UUID version, held in bits 76 to 79.
pub open spec fn uuid_version(id: u128) -> nat {
    ((id as nat) / 0x1_0000_0000_0000_0000_000) % 16
}

/// A fresh random (version 4) UUID, from `uuid::Uuid::new_v4`.
/// Claims only the bits that `new_v4` sets: the version nibble is 4 and the
/// variant bits are `10`; the other bits are random and nothing is said of
/// them. `new_v4` panics when the system's random source fails, which is
/// the machine's state and no input of the call.
#[verifier::external_body]
pub(crate) fn random_uuid() -> (id: u128)
    ensures
        uuid_version(id) == 4,
        ((id as nat) / 0x4000_0000_0000_0000) % 4 == 2,
{
    uuid::Uuid::new_v4().as_u128()
}

/// The hyphenated rendering of a UUID, from `Display` of `uuid::Uuid`.
/// Claims the documented hyphenated lowercase format, and that
/// `uuid::Uuid::parse_str` reads that rendering back as the same UUID.
#[verifier::external_body]
pub(crate) fn uuid_to_string(id: u128) -> (s: String)
    ensures
        s@ == uuid_hyphenated(id),
        spec_uuid_parse(s@) == Some(id),
{
    uuid::Uuid::from_u128(id).to_string()
}

/// Parses a UUID in any of the textual forms that `uuid::Uuid::parse_str`
/// accepts. Claims only that the result is the named function of the text.
#[verifier::external_body]
pub(crate) fn parse_uuid(text: &str) -> (r: Option<u128>)
    ensures
        r == spec_uuid_parse(text@),
{
    match uuid::Uuid::parse_str(text) {
        Ok(u) => Some(u.as_u128()),
        Err(_) => None,
    }
}

/// The big-endian value of sixteen bytes, which is how a UUID's bytes are
/// read as its `u128`.
pub open spec fn u128_from_be(bytes: Seq<u8>) -> nat
    decreases bytes.len(),
{
    if bytes.len() == 0 {
        0
    } else {
        u128_from_be(bytes.drop_last()) * 256 + bytes.last() as nat
    }
}

/// Reads sixteen bytes as a big-endian `u128`.
pub fn u128_from_be_bytes(bytes: &[u8]) -> (r: u128)
    requires
        bytes@.len() == 16,
    ensures
        r as nat == u128_from_be(bytes@),
{
    let mut acc: u128 = 0;
    let mut i: usize = 0;
    while i < 16
        invariant
            bytes@.len() == 16,
            i <= 16,
            acc as nat == u128_from_be(bytes@.subrange(0, i as int)),
            (acc as nat) < pow256(i as nat),
        decreases 16 - i,
    {
        proof {
            let pre = bytes@.subrange(0, i as int);
            let nxt = bytes@.subrange(0, i + 1);
            assert(nxt.drop_last() =~= pre);
            assert(nxt.last() == bytes@[i as int]);
            lemma_pow256_step(i as nat);
            assert((acc as nat) * 256 + (bytes@[i as int] as nat) < pow256((i + 1) as nat)) by (nonlinear_arith)
                requires
                    (acc as nat) < pow256(i as nat),
                    pow256((i + 1) as nat) == pow256(i as nat) * 256,
                    (bytes@[i as int] as nat) < 256,
            ;
            lemma_pow256_bound((i + 1) as nat);
        }
        acc = acc * 256 + bytes[i] as u128;
        i = i + 1;
    }
    assert(bytes@.subrange(0, 16) =~= bytes@);
    acc
}

/// 256 raised to `n`.
pub open spec fn pow256(n: nat) -> nat
    decreases n,
{
    if n == 0 {
        1
    } else {
        pow256((n - 1) as nat) * 256
    }
}

proof fn lemma_pow256_step(n: nat)
    ensures
        pow256(n + 1) == pow256(n) * 256,
{
}

proof fn lemma_pow256_bound(n: nat)
    requires
        n <= 16,
    ensures
        pow256(n) <= 0x1_0000_0000_0000_0000_0000_0000_0000_0000,
    decreases 16 - n,
{
    reveal_with_fuel(pow256, 17);
    if n < 16 {
        lemma_pow256_bound(n + 1);
        assert(pow256(n) <= pow256(n + 1)) by {
            lemma_pow256_step(n);
        }
    }
}

} // verus!
