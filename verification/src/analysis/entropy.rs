//! Byte statistics for the Shannon entropy scan: how often each byte value
//! occurs in a buffer.
use vstd::prelude::*;

verus! {

/// The number of occurrences of `b` in `data`.
pub open spec fn occurrences(data: Seq<u8>, b: u8) -> nat
    decreases data.len(),
{
    if data.len() == 0 {
        0
    } else {
        occurrences(data.drop_last(), b) + if data.last() == b {
            1nat
        } else {
            0nat
        }
    }
}

proof fn lemma_occurrences_bound(data: Seq<u8>, b: u8)
    ensures
        occurrences(data, b) <= data.len(),
    decreases data.len(),
{
    if data.len() > 0 {
        lemma_occurrences_bound(data.drop_last(), b);
    }
}

/// The frequency table of a buffer: entry `b` is the number of bytes equal
/// to `b`, for each of the 256 byte values.
pub fn byte_frequencies(data: &[u8]) -> (freq: Vec<u64>)
    ensures
        freq@.len() == 256,
        forall|b: u8| #[trigger] freq@[b as int] == occurrences(data@, b),
{
    let mut freq: Vec<u64> = Vec::new();
    let mut k: usize = 0;
    while k < 256
        invariant
            k <= 256,
            freq@.len() == k,
            forall|j: int| 0 <= j < k ==> freq@[j] == 0,
        decreases 256 - k,
    {
        freq.push(0);
        k = k + 1;
    }
    let mut i: usize = 0;
    while i < data.len()
        invariant
            i <= data@.len(),
            freq@.len() == 256,
            forall|b: u8| #[trigger] freq@[b as int] == occurrences(data@.subrange(0, i as int), b),
        decreases data@.len() - i,
    {
        let ghost pre = data@.subrange(0, i as int);
        let ghost nxt = data@.subrange(0, i + 1);
        assert(nxt.drop_last() =~= pre);
        let x = data[i];
        proof {
            lemma_occurrences_bound(pre, x);
        }
        let c = freq[x as usize];
        freq.set(x as usize, c + 1);
        i = i + 1;
        assert forall|b: u8| #[trigger] freq@[b as int] == occurrences(nxt, b) by {
            if b != x {
                assert(freq@[b as int] == occurrences(pre, b));
            }
        }
    }
    assert(data@.subrange(0, data@.len() as int) =~= data@);
    freq
}

} // verus!
