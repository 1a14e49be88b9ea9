//! The verdict of a sandbox detonation: a payload is suspicious when the
//! file-type report on it mentions an executable and it is larger than
//! 1000 bytes.
use crate::text::{chars_of, push_str};
use vstd::prelude::*;
use vstd::string::*;

verus! {

/// `c` with ASCII upper-case letters mapped to lower case.
pub open spec fn ascii_lower(c: char) -> char {
    if 'A' <= c && c <= 'Z' {
        ((c as u32) + 32) as char
    } else {
        c
    }
}

/// Whether the word "executable", ignoring the case of ASCII letters,
/// starts at position `i` of `text`.
pub open spec fn executable_at(text: Seq<char>, i: int) -> bool {
    &&& 0 <= i
    &&& i + 10 <= text.len()
    &&& forall|k: int| 0 <= k < 10 ==> #[trigger] ascii_lower(text[i + k]) == "executable"@[k]
}

/// Whether `text` mentions the word "executable" in any case.
pub open spec fn mentions_executable(text: Seq<char>) -> bool {
    exists|i: int| executable_at(text, i)
}

fn lower(c: char) -> (r: char)
    ensures
        r == ascii_lower(c),
{
    if 'A' <= c && c <= 'Z' {
        ((c as u32) + 32) as u8 as char
    } else {
        c
    }
}

/// Whether a detonated payload is suspicious: the report of the `file`
/// command on it mentions an executable, and it is larger than 1000 bytes.
pub fn sandbox_flagged(file_output: &str, payload_len: usize) -> (r: bool)
    ensures
        r == (mentions_executable(file_output@) && payload_len > 1000),
{
    if payload_len <= 1000 {
        return false;
    }
    let word: [char; 10] = ['e', 'x', 'e', 'c', 'u', 't', 'a', 'b', 'l', 'e'];
    proof {
        reveal_strlit("executable");
        assert(word@ =~= "executable"@);
    }
    let text = chars_of(file_output);
    let n = text.len();
    let mut i: usize = 0;
    while i < n && n - i >= 10
        invariant
            i <= n,
            n == text@.len(),
            text@ == file_output@,
            payload_len > 1000,
            word@ == "executable"@,
            forall|j: int| 0 <= j < i ==> !executable_at(text@, j),
        decreases n - i,
    {
        let mut k: usize = 0;
        let mut same = true;
        while k < 10 && same
            invariant
                k <= 10,
                i + 10 <= n,
                n == text@.len(),
                word@ == "executable"@,
                same ==> forall|m: int| 0 <= m < k ==> ascii_lower(text@[i + m]) == word@[m],
                !same ==> !executable_at(text@, i as int),
            decreases 10 - k + (if same { 1int } else { 0int }),
        {
            if lower(text[i + k]) != word[k] {
                same = false;
            } else {
                k = k + 1;
            }
        }
        if same {
            assert(executable_at(file_output@, i as int));
            return true;
        }
        i = i + 1;
    }
    proof {
        assert forall|j: int| !executable_at(text@, j) by {
            if j >= i && executable_at(text@, j) {
                assert(j + 10 <= n);
            }
        }
    }
    false
}

/// The flag and severity of a detonation, given the report of the `file`
/// command (`None` when the payload could not be written or the command not
/// run) and the payload's size: flagged with severity 8 when the report
/// mentions an executable and the payload is larger than 1000 bytes,
/// otherwise unflagged with severity 0.
pub fn sandbox_outcome(file_output: Option<&str>, payload_len: usize) -> (r: (bool, u8))
    ensures
        r.0 == (file_output matches Some(t) && mentions_executable(t@) && payload_len > 1000),
        r.1 == (if r.0 {
            8u8
        } else {
            0u8
        }),
{
    let flagged = match file_output {
        Some(t) => sandbox_flagged(t, payload_len),
        None => false,
    };
    (flagged, if flagged { 8 } else { 0 })
}

/// The summary of a detonation of `filename`.
pub open spec fn sandbox_summary(filename: Seq<char>, flagged: bool) -> Seq<char> {
    if flagged {
        "Suspicious executable behavior detected dynamically for "@ + filename
    } else {
        "Sandbox execution clean for "@ + filename
    }
}

/// The summary of a detonation of `filename`.
pub fn sandbox_summary_text(filename: &str, flagged: bool) -> (r: String)
    ensures
        r@ == sandbox_summary(filename@, flagged),
{
    let mut s = if flagged {
        String::from_str("Suspicious executable behavior detected dynamically for ")
    } else {
        String::from_str("Sandbox execution clean for ")
    };
    push_str(&mut s, filename);
    s
}

} // verus!
