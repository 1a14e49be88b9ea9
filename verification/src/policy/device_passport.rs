//! Device digital passports: a SHA-256 fingerprint of a device's hardware
//! identifiers, used to recognise devices across reconnections and to keep
//! a list of trusted devices.
use crate::crypto::{hex_encode, sha256, spec_sha256};
use crate::device::UsbDevice;
use crate::text::{hex_lower, lemma_hex_lower_len, str_eq};
use vstd::prelude::*;
use vstd::string::*;
use vstd::utf8::*;

verus! {

/// The two little-endian bytes of a `u16`.
pub open spec fn le_bytes(v: u16) -> Seq<u8> {
    seq![(v % 256) as u8, (v / 256) as u8]
}

/// An optional identifier string as passport bytes: the UTF-8 bytes of the
/// string followed by 0xFF, or the single byte 0xFE when there is none.
/// Neither byte occurs in UTF-8, so each field ends unambiguously.
pub open spec fn id_field(s: Option<String>) -> Seq<u8> {
    match s {
        Some(t) => encode_utf8(t@).push(0xffu8),
        None => seq![0xfeu8],
    }
}

/// The bytes that a passport hashes: vendor and product ids (little-endian),
/// then the serial number, then the revision, each as an [`id_field`].
pub open spec fn passport_preimage(d: UsbDevice) -> Seq<u8> {
    le_bytes(d.vendor_id) + le_bytes(d.product_id) + id_field(d.serial_number) + id_field(
        d.revision,
    )
}

/// No byte of valid UTF-8 is above 0xF7.
proof fn lemma_utf8_bytes_below_f8(b: Seq<u8>)
    requires
        valid_utf8(b),
    ensures
        forall|i: int| 0 <= i < b.len() ==> b[i] <= 0xf7,
    decreases b.len(),
{
    if b.len() > 0 {
        let l = length_of_first_scalar(b);
        let rest = pop_first_scalar(b);
        assert(rest.len() < b.len());
        lemma_utf8_bytes_below_f8(rest);
        assert forall|i: int| 0 <= i < b.len() implies b[i] <= 0xf7 by {
            if i >= l {
                assert(b[i] == rest[i - l]);
            }
        }
    }
}

/// An identifier field ends where its encoding says: two fields followed by
/// anything are equal only if the fields' strings are equal and so is what
/// follows.
proof fn lemma_id_field_prefix(x: Option<String>, y: Option<String>, t: Seq<u8>, u: Seq<u8>)
    requires
        id_field(x) + t == id_field(y) + u,
    ensures
        opt_view(x) == opt_view(y),
        t == u,
{
    let fx = id_field(x);
    let fy = id_field(y);
    let lhs = fx + t;
    assert(lhs[0] == fx[0]);
    assert((fy + u)[0] == fy[0]);
    match (x, y) {
        (Some(a), Some(b)) => {
            let ea = encode_utf8(a@);
            let eb = encode_utf8(b@);
            encode_utf8_valid_utf8(a@);
            encode_utf8_valid_utf8(b@);
            encode_utf8_decode_utf8(a@);
            encode_utf8_decode_utf8(b@);
            lemma_utf8_bytes_below_f8(ea);
            lemma_utf8_bytes_below_f8(eb);
            if ea.len() < eb.len() {
                assert(lhs[ea.len() as int] == 0xffu8);
                assert((fy + u)[ea.len() as int] == eb[ea.len() as int]);
            } else if eb.len() < ea.len() {
                assert((fy + u)[eb.len() as int] == 0xffu8);
                assert(lhs[eb.len() as int] == ea[eb.len() as int]);
            }
            assert(ea =~= lhs.subrange(0, ea.len() as int));
            assert(eb =~= (fy + u).subrange(0, eb.len() as int));
            assert(ea == eb);
            assert(decode_utf8(ea) == a@);
            assert(decode_utf8(eb) == b@);
            assert(t =~= lhs.subrange(fx.len() as int, lhs.len() as int));
            assert(u =~= (fy + u).subrange(fy.len() as int, (fy + u).len() as int));
        },
        (Some(a), None) => {
            let ea = encode_utf8(a@);
            encode_utf8_valid_utf8(a@);
            lemma_utf8_bytes_below_f8(ea);
            if ea.len() > 0 {
                assert(fx[0] == ea[0]);
            }
        },
        (None, Some(b)) => {
            let eb = encode_utf8(b@);
            encode_utf8_valid_utf8(b@);
            lemma_utf8_bytes_below_f8(eb);
            if eb.len() > 0 {
                assert(fy[0] == eb[0]);
            }
        },
        (None, None) => {
            assert(t =~= lhs.subrange(1, lhs.len() as int));
            assert(u =~= (fy + u).subrange(1, (fy + u).len() as int));
        },
    }
}

/// Different hardware identities have different passport preimages: a
/// preimage determines the vendor id, the product id, the serial number and
/// the revision. (Distinct preimages then give distinct passports unless
/// SHA-256 collides.)
pub proof fn lemma_passport_preimage_injective(a: UsbDevice, b: UsbDevice)
    requires
        passport_preimage(a) == passport_preimage(b),
    ensures
        a.vendor_id == b.vendor_id,
        a.product_id == b.product_id,
        opt_view(a.serial_number) == opt_view(b.serial_number),
        opt_view(a.revision) == opt_view(b.revision),
{
    let ha = le_bytes(a.vendor_id) + le_bytes(a.product_id);
    let hb = le_bytes(b.vendor_id) + le_bytes(b.product_id);
    let pa = passport_preimage(a);
    let pb = passport_preimage(b);
    assert(pa[0] == ha[0] && pa[1] == ha[1] && pa[2] == ha[2] && pa[3] == ha[3]);
    assert(pb[0] == hb[0] && pb[1] == hb[1] && pb[2] == hb[2] && pb[3] == hb[3]);
    assert(a.vendor_id == b.vendor_id) by (nonlinear_arith)
        requires
            a.vendor_id % 256 == b.vendor_id % 256,
            a.vendor_id / 256 == b.vendor_id / 256,
    ;
    assert(a.product_id == b.product_id) by (nonlinear_arith)
        requires
            a.product_id % 256 == b.product_id % 256,
            a.product_id / 256 == b.product_id / 256,
    ;
    let ra = id_field(a.serial_number) + id_field(a.revision);
    let rb = id_field(b.serial_number) + id_field(b.revision);
    assert(ra =~= pa.subrange(4, pa.len() as int));
    assert(rb =~= pb.subrange(4, pb.len() as int));
    lemma_id_field_prefix(a.serial_number, b.serial_number, id_field(a.revision), id_field(b.revision));
    let ea = id_field(a.revision);
    let eb = id_field(b.revision);
    assert(ea + Seq::<u8>::empty() =~= ea);
    assert(eb + Seq::<u8>::empty() =~= eb);
    lemma_id_field_prefix(a.revision, b.revision, Seq::<u8>::empty(), Seq::<u8>::empty());
}

/// The passport of a device: the lowercase hexadecimal SHA-256 of its
/// preimage.
pub open spec fn passport_of(d: UsbDevice) -> Seq<char> {
    hex_lower(spec_sha256(passport_preimage(d)))
}

/// The characters of an optional string.
pub open spec fn opt_view(s: Option<String>) -> Option<Seq<char>> {
    match s {
        Some(t) => Some(t@),
        None => None,
    }
}

/// A passport depends on the hardware identifiers alone: two devices with
/// the same vendor id, product id, serial number and revision have the same
/// passport, whatever their port, session, status or other fields.
pub proof fn lemma_passport_identifies_hardware(a: UsbDevice, b: UsbDevice)
    requires
        a.vendor_id == b.vendor_id,
        a.product_id == b.product_id,
        opt_view(a.serial_number) == opt_view(b.serial_number),
        opt_view(a.revision) == opt_view(b.revision),
    ensures
        passport_of(a) == passport_of(b),
{
    assert(passport_preimage(a) =~= passport_preimage(b));
}

/// Appends the bytes of `s` to `buf`.
fn extend_bytes(buf: &mut Vec<u8>, s: &str)
    ensures
        final(buf)@ == old(buf)@ + s.spec_bytes(),
{
    let b = s.as_bytes();
    let mut i: usize = 0;
    while i < b.len()
        invariant
            b@ == s.spec_bytes(),
            i <= b@.len(),
            buf@ == old(buf)@ + b@.subrange(0, i as int),
        decreases b@.len() - i,
    {
        buf.push(b[i]);
        i = i + 1;
        assert(buf@ =~= old(buf)@ + b@.subrange(0, i as int));
    }
    assert(b@.subrange(0, b@.len() as int) =~= b@);
}

/// The SHA-256 passport of a device's hardware identifiers (vendor id,
/// product id, serial number and revision), as 64 lowercase hexadecimal
/// digits.
pub fn generate_passport(device: &UsbDevice) -> (r: String)
    ensures
        r@ == passport_of(*device),
        r@.len() == 64,
{
    let mut buf: Vec<u8> = Vec::new();
    buf.push((device.vendor_id % 256) as u8);
    buf.push((device.vendor_id / 256) as u8);
    buf.push((device.product_id % 256) as u8);
    buf.push((device.product_id / 256) as u8);
    match &device.serial_number {
        Some(s) => {
            extend_bytes(&mut buf, s.as_str());
            buf.push(0xff);
        },
        None => buf.push(0xfe),
    }
    match &device.revision {
        Some(r) => {
            extend_bytes(&mut buf, r.as_str());
            buf.push(0xff);
        },
        None => buf.push(0xfe),
    }
    assert(buf@ =~= passport_preimage(*device));
    let digest = sha256(buf.as_slice());
    let r = hex_encode(digest.as_slice());
    proof {
        lemma_hex_lower_len(digest@);
    }
    r
}

/// Whether a passport is in the trusted list.
pub fn is_trusted(passport: &str, trusted_list: &[String]) -> (r: bool)
    ensures
        r == exists|i: int| 0 <= i < trusted_list@.len() && #[trigger] trusted_list@[i]@ == passport@,
{
    let mut i: usize = 0;
    while i < trusted_list.len()
        invariant
            i <= trusted_list@.len(),
            forall|j: int| 0 <= j < i ==> #[trigger] trusted_list@[j]@ != passport@,
        decreases trusted_list@.len() - i,
    {
        if str_eq(trusted_list[i].as_str(), passport) {
            return true;
        }
        i = i + 1;
    }
    false
}

} // verus!
