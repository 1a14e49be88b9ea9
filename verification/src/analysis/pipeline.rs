//! The trust score that combines the analysis findings, and the status a
//! device gets once analysed.
use crate::device::DeviceStatus;
use vstd::prelude::*;

verus! {

/// The number of `true` values in a list of flags.
pub open spec fn count_true(flags: Seq<bool>) -> nat
    decreases flags.len(),
{
    if flags.len() == 0 {
        0
    } else {
        count_true(flags.drop_last()) + if flags.last() {
            1nat
        } else {
            0nat
        }
    }
}

/// The trust score of a device: 100, less 50 when the HID spoof check
/// flagged it, 15 for each flagged entropy scan and 30 for each flagged
/// signature scan, and never below 0.
pub open spec fn trust_score_of(hid_flagged: bool, entropy: Seq<bool>, yara: Seq<bool>) -> int {
    let penalty: int = (if hid_flagged {
        50int
    } else {
        0int
    }) + 15 * count_true(entropy) + 30 * count_true(yara);
    if penalty >= 100 {
        0
    } else {
        100 - penalty
    }
}

/// `v`, or 0 when it is negative.
pub open spec fn floor0(v: int) -> int {
    if v < 0 {
        0
    } else {
        v
    }
}

proof fn lemma_count_true_push(flags: Seq<bool>, b: bool)
    ensures
        count_true(flags.push(b)) == count_true(flags) + if b {
            1int
        } else {
            0int
        },
{
    assert(flags.push(b).drop_last() =~= flags);
}

/// How findings move the trust score: a device with no finding scores 100;
/// a HID spoof finding costs 50 points, each flagged entropy scan 15 and
/// each flagged signature scan 30, never going below 0; an unflagged scan
/// costs nothing. (`compute_trust_score` returns this score.)
pub proof fn law_trust_score_penalties(h: bool, e: Seq<bool>, y: Seq<bool>)
    ensures
        trust_score_of(false, Seq::empty(), Seq::empty()) == 100,
        trust_score_of(true, e, y) == floor0(trust_score_of(false, e, y) - 50),
        trust_score_of(h, e.push(true), y) == floor0(trust_score_of(h, e, y) - 15),
        trust_score_of(h, e.push(false), y) == trust_score_of(h, e, y),
        trust_score_of(h, e, y.push(true)) == floor0(trust_score_of(h, e, y) - 30),
        trust_score_of(h, e, y.push(false)) == trust_score_of(h, e, y),
        0 <= trust_score_of(h, e, y) <= 100,
{
    lemma_count_true_push(e, true);
    lemma_count_true_push(e, false);
    lemma_count_true_push(y, true);
    lemma_count_true_push(y, false);
    assert(count_true(Seq::<bool>::empty()) == 0);
}

/// The number of `true` values, counted up to `cap`.
fn count_capped(flags: &[bool], cap: u64) -> (r: u64)
    ensures
        r == (if count_true(flags@) >= cap {
            cap as int
        } else {
            count_true(flags@) as int
        }),
{
    let mut n: u64 = 0;
    let mut i: usize = 0;
    while i < flags.len()
        invariant
            i <= flags@.len(),
            n == (if count_true(flags@.subrange(0, i as int)) >= cap {
                cap as int
            } else {
                count_true(flags@.subrange(0, i as int)) as int
            }),
        decreases flags@.len() - i,
    {
        proof {
            assert(flags@.subrange(0, i + 1).drop_last() =~= flags@.subrange(0, i as int));
        }
        if flags[i] && n < cap {
            n = n + 1;
        }
        i = i + 1;
    }
    assert(flags@.subrange(0, flags@.len() as int) =~= flags@);
    n
}

/// The trust score (0-100) of a device from the flags of its analysis
/// passes: `hid_flagged` for the HID spoof check (when it ran), and one
/// flag per file for the entropy and signature scans.
pub fn compute_trust_score(hid_flagged: bool, entropy_flags: &[bool], yara_flags: &[bool]) -> (r:
    u8)
    ensures
        r == trust_score_of(hid_flagged, entropy_flags@, yara_flags@),
{
    let e = count_capped(entropy_flags, 7);
    let y = count_capped(yara_flags, 4);
    let penalty: u64 = (if hid_flagged {
        50
    } else {
        0
    }) + 15 * e + 30 * y;
    if penalty >= 100 {
        0
    } else {
        (100 - penalty) as u8
    }
}

/// The status of a device once analysed: quarantined below a trust score of
/// 40, otherwise pending an administrator's approval.
pub fn status_after_analysis(trust_score: u8) -> (s: DeviceStatus)
    ensures
        s == (if trust_score < 40 {
            DeviceStatus::Quarantined
        } else {
            DeviceStatus::Pending
        }),
{
    if trust_score < 40 {
        DeviceStatus::Quarantined
    } else {
        DeviceStatus::Pending
    }
}

} // verus!
