//! Keystroke timing heuristics for telling a human typist from a device
//! that injects keystrokes: the intervals between key presses, how many of
//! them are faster than a human can type, and the severity of the finding.
use vstd::prelude::*;

verus! {

/// A single HID input event from a device.
pub struct KeystrokeEvent {
    /// Timestamp in microseconds (monotonic).
    pub timestamp_us: u64,
    /// HID usage code (key identifier).
    pub usage_code: u16,
    /// Whether this is a key press (true) or release (false).
    pub pressed: bool,
}

/// The timestamps of the key presses, in order.
pub open spec fn press_times(events: Seq<KeystrokeEvent>) -> Seq<u64>
    decreases events.len(),
{
    if events.len() == 0 {
        Seq::empty()
    } else {
        let rest = press_times(events.drop_last());
        if events.last().pressed {
            rest.push(events.last().timestamp_us)
        } else {
            rest
        }
    }
}

/// The interval between consecutive press times, 0 when time goes back.
pub open spec fn gaps(times: Seq<u64>) -> Seq<u64> {
    Seq::new(
        if times.len() == 0 {
            0
        } else {
            (times.len() - 1) as nat
        },
        |i: int|
            if times[i + 1] >= times[i] {
                (times[i + 1] - times[i]) as u64
            } else {
                0u64
            },
    )
}

/// The timestamps of the key presses, in order.
pub fn press_timestamps(events: &[KeystrokeEvent]) -> (r: Vec<u64>)
    ensures
        r@ == press_times(events@),
{
    let mut out: Vec<u64> = Vec::new();
    let mut i: usize = 0;
    while i < events.len()
        invariant
            i <= events@.len(),
            out@ == press_times(events@.subrange(0, i as int)),
        decreases events@.len() - i,
    {
        proof {
            assert(events@.subrange(0, i + 1).drop_last() =~= events@.subrange(0, i as int));
        }
        if events[i].pressed {
            out.push(events[i].timestamp_us);
        }
        i = i + 1;
    }
    assert(events@.subrange(0, events@.len() as int) =~= events@);
    out
}

/// The intervals between consecutive key presses, in microseconds
/// (saturating at 0 when a timestamp goes back).
pub fn press_intervals(events: &[KeystrokeEvent]) -> (r: Vec<u64>)
    ensures
        r@ == gaps(press_times(events@)),
{
    let times = press_timestamps(events);
    let mut out: Vec<u64> = Vec::new();
    if times.len() < 2 {
        assert(out@ =~= gaps(times@));
        return out;
    }
    let mut i: usize = 1;
    while i < times.len()
        invariant
            1 <= i <= times@.len(),
            times@ == press_times(events@),
            out@ == gaps(times@).subrange(0, i - 1),
        decreases times@.len() - i,
    {
        out.push(times[i].saturating_sub(times[i - 1]));
        i = i + 1;
        assert(out@ =~= gaps(times@).subrange(0, i - 1));
    }
    assert(out@ =~= gaps(times@));
    out
}

/// The number of intervals shorter than `min_us`.
pub open spec fn count_below(intervals: Seq<u64>, min_us: u64) -> nat
    decreases intervals.len(),
{
    if intervals.len() == 0 {
        0
    } else {
        count_below(intervals.drop_last(), min_us) + if intervals.last() < min_us {
            1nat
        } else {
            0nat
        }
    }
}

proof fn lemma_count_below_bound(intervals: Seq<u64>, min_us: u64)
    ensures
        count_below(intervals, min_us) <= intervals.len(),
    decreases intervals.len(),
{
    if intervals.len() > 0 {
        lemma_count_below_bound(intervals.drop_last(), min_us);
    }
}

/// The number of intervals faster than a human can type (shorter than
/// `min_human_interval_us`).
pub fn count_superhuman(intervals: &[u64], min_human_interval_us: u64) -> (r: usize)
    ensures
        r == count_below(intervals@, min_human_interval_us),
{
    let mut count: usize = 0;
    let mut i: usize = 0;
    while i < intervals.len()
        invariant
            i <= intervals@.len(),
            count == count_below(intervals@.subrange(0, i as int), min_human_interval_us),
            count <= i,
        decreases intervals@.len() - i,
    {
        proof {
            assert(intervals@.subrange(0, i + 1).drop_last() =~= intervals@.subrange(0, i as int));
        }
        if intervals[i] < min_human_interval_us {
            count = count + 1;
        }
        i = i + 1;
    }
    assert(intervals@.subrange(0, intervals@.len() as int) =~= intervals@);
    count
}

/// Whether more than half of the intervals are superhuman (the ratio of
/// superhuman intervals exceeds 0.5).
pub fn is_too_fast(superhuman: usize, total: usize) -> (r: bool)
    requires
        superhuman <= total,
    ensures
        r == (2 * superhuman > total),
{
    superhuman > total - superhuman
}

/// The severity of a timing finding: 9 when the input is both too fast and
/// too uniform, 7 when only too fast, 6 when only too uniform, 0 otherwise.
pub fn keystroke_severity(too_fast: bool, too_uniform: bool) -> (r: u8)
    ensures
        r == (if too_fast && too_uniform {
            9u8
        } else if too_fast {
            7u8
        } else if too_uniform {
            6u8
        } else {
            0u8
        }),
{
    if too_fast && too_uniform {
        9
    } else if too_fast {
        7
    } else if too_uniform {
        6
    } else {
        0
    }
}

/// The severity of a timing finding (see [`keystroke_severity`]).
pub open spec fn severity_of(too_fast: bool, too_uniform: bool) -> u8 {
    if too_fast && too_uniform {
        9
    } else if too_fast {
        7
    } else if too_uniform {
        6
    } else {
        0
    }
}

/// The flag and severity of a keystroke timing finding, for `event_count`
/// events of which the presses give `interval_count` intervals, `superhuman`
/// of them faster than a human types, and `too_uniform` telling whether the
/// intervals vary too little: with fewer than `min_events` events or no
/// interval there is no finding; otherwise the input is flagged when more
/// than half the intervals are superhuman or they are too uniform.
pub fn keystroke_outcome(
    event_count: usize,
    min_events: usize,
    interval_count: usize,
    superhuman: usize,
    too_uniform: bool,
) -> (r: (bool, u8))
    requires
        superhuman <= interval_count,
    ensures
        r == (if event_count < min_events || interval_count == 0 {
            (false, 0u8)
        } else {
            let fast = 2 * superhuman > interval_count;
            (fast || too_uniform, severity_of(fast, too_uniform))
        }),
{
    if event_count < min_events || interval_count == 0 {
        return (false, 0);
    }
    let fast = is_too_fast(superhuman, interval_count);
    (fast || too_uniform, keystroke_severity(fast, too_uniform))
}

} // verus!
