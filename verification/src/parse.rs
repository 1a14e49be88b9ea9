//! Parsing of unsigned integers written in decimal or hexadecimal, with the
//! grammar of Rust's `str::parse::<u32>` and `u16::from_str_radix(_, 16)`.
use vstd::prelude::*;

verus! {

/// Whether `c` is an ASCII decimal digit.
pub open spec fn is_dec_digit(c: char) -> bool {
    '0' <= c && c <= '9'
}

/// The value of an ASCII hexadecimal digit (either case), if `c` is one.
pub open spec fn hex_value(c: char) -> Option<nat> {
    if '0' <= c && c <= '9' {
        Some((c as nat - 48) as nat)
    } else if 'a' <= c && c <= 'f' {
        Some((c as nat - 87) as nat)
    } else if 'A' <= c && c <= 'F' {
        Some((c as nat - 55) as nat)
    } else {
        None
    }
}

/// The value of a digit in base `radix` (10 or 16).
pub open spec fn digit_value(c: char, radix: nat) -> Option<nat> {
    if radix == 10 {
        if is_dec_digit(c) {
            Some((c as nat - 48) as nat)
        } else {
            None
        }
    } else {
        hex_value(c)
    }
}

/// Whether every character of `s` is a digit in base `radix`.
pub open spec fn all_digits(s: Seq<char>, radix: nat) -> bool {
    forall|i: int| 0 <= i < s.len() ==> (#[trigger] digit_value(s[i], radix)) is Some
}

/// The value of a string of digits in base `radix`, most significant first.
pub open spec fn digits_value(s: Seq<char>, radix: nat) -> nat
    decreases s.len(),
{
    if s.len() == 0 {
        0
    } else {
        digits_value(s.drop_last(), radix) * radix + match digit_value(s.last(), radix) {
            Some(d) => d,
            None => 0,
        }
    }
}

/// What `str::parse` (radix 10) or `from_str_radix` gives for an unsigned
/// integer type whose largest value is `max`: an optional leading `+`, then
/// at least one digit, and a value that does not exceed `max`.
pub open spec fn parse_unsigned(s: Seq<char>, radix: nat, max: nat) -> Option<nat> {
    let d = if s.len() > 0 && s[0] == '+' {
        s.drop_first()
    } else {
        s
    };
    if d.len() > 0 && all_digits(d, radix) && digits_value(d, radix) <= max {
        Some(digits_value(d, radix))
    } else {
        None
    }
}

proof fn lemma_cap_step(v: nat, radix: nat, d: nat, max: nat)
    requires
        radix == 10 || radix == 16,
        d < radix,
    ensures
        (if v > max { max + 1 } else { v }) * radix + d > max ==> v * radix + d > max,
        v <= max ==> (if v > max { max + 1 } else { v }) * radix + d == v * radix + d,
        v > max ==> v * radix + d > max,
{
    assert(v > max ==> v * radix + d > max) by (nonlinear_arith)
        requires
            radix >= 10,
    ;
    assert((max + 1) * radix + d > max) by (nonlinear_arith)
        requires
            radix >= 10,
    ;
}

/// Parses the characters `s[start..end)` as an unsigned number in base
/// `radix` that may not exceed `max`.
pub fn parse_unsigned_in(s: &Vec<char>, start: usize, end: usize, radix: u32, max: u64) -> (r:
    Option<u64>)
    requires
        start <= end <= s@.len(),
        radix == 10 || radix == 16,
        max < 0x1_0000_0000_0000,
    ensures
        match parse_unsigned(s@.subrange(start as int, end as int), radix as nat, max as nat) {
            Some(v) => r == Some(v as u64),
            None => r is None,
        },
{
    let ghost all = s@.subrange(start as int, end as int);
    let mut i = start;
    if i < end && s[i] == '+' {
        i = i + 1;
    }
    let ghost d = s@.subrange(i as int, end as int);
    assert(d == (if all.len() > 0 && all[0] == '+' {
        all.drop_first()
    } else {
        all
    }));
    if i == end {
        return None;
    }
    let first = i;
    // The value of the digits read so far, capped at max + 1.
    let mut acc: u64 = 0;
    while i < end
        invariant
            start <= first <= i <= end <= s@.len(),
            d == s@.subrange(first as int, end as int),
            all == s@.subrange(start as int, end as int),
            d == (if all.len() > 0 && all[0] == '+' {
                all.drop_first()
            } else {
                all
            }),
            d.len() > 0,
            radix == 10 || radix == 16,
            max < 0x1_0000_0000_0000,
            all_digits(s@.subrange(first as int, i as int), radix as nat),
            acc as nat == (if digits_value(s@.subrange(first as int, i as int), radix as nat) > max {
                (max + 1) as nat
            } else {
                digits_value(s@.subrange(first as int, i as int), radix as nat)
            }),
        decreases end - i,
    {
        let c = s[i];
        let ghost pre = s@.subrange(first as int, i as int);
        let ghost nxt = s@.subrange(first as int, i + 1);
        assert(nxt.drop_last() =~= pre);
        assert(nxt.last() == c);
        let dv: u64 = if radix == 10 {
            if '0' <= c && c <= '9' {
                (c as u64) - 48
            } else {
                assert(!all_digits(d, radix as nat)) by {
                    assert(d[i - first] == c);
                    assert(digit_value(d[i - first], radix as nat) is None);
                }
                return None;
            }
        } else {
            if '0' <= c && c <= '9' {
                (c as u64) - 48
            } else if 'a' <= c && c <= 'f' {
                (c as u64) - 87
            } else if 'A' <= c && c <= 'F' {
                (c as u64) - 55
            } else {
                assert(!all_digits(d, radix as nat)) by {
                    assert(d[i - first] == c);
                    assert(digit_value(d[i - first], radix as nat) is None);
                }
                return None;
            }
        };
        assert(digit_value(c, radix as nat) == Some(dv as nat));
        proof {
            lemma_cap_step(digits_value(pre, radix as nat), radix as nat, dv as nat, max as nat);
        }
        assert((acc as nat) * (radix as nat) + (dv as nat) < 0x1_0000_0000_0000_0000) by (nonlinear_arith)
            requires
                (acc as nat) <= (max as nat) + 1,
                (max as nat) < 0x1_0000_0000_0000,
                (radix as nat) <= 16,
                (dv as nat) < 16,
        ;
        let next = acc * (radix as u64) + dv;
        acc = if next > max {
            max + 1
        } else {
            next
        };
        i = i + 1;
        assert(all_digits(s@.subrange(first as int, i as int), radix as nat)) by {
            assert forall|j: int| 0 <= j < nxt.len() implies (#[trigger] digit_value(
                nxt[j],
                radix as nat,
            )) is Some by {
                if j < pre.len() {
                    assert(nxt[j] == pre[j]);
                }
            }
        }
    }
    if acc > max {
        None
    } else {
        Some(acc)
    }
}

} // verus!
