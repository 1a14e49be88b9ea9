//! The tamper-evident audit log: every entry carries an HMAC over the
//! previous entry's HMAC and its own contents, so that the entries form a
//! chain that any modification, insertion or deletion breaks.
use crate::clock::{now_nanos, rfc3339, spec_rfc3339};
use crate::crypto::{hex_encode, hmac_sha256, spec_hmac_sha256};
use crate::ids::{random_uuid, uuid_hyphenated, uuid_to_string};
use crate::text::{chars_of, decimal, hex_lower, push_char, push_decimal, push_str};
use vstd::prelude::*;
use vstd::string::*;
use vstd::utf8::encode_utf8;

verus! {

/// A single audit log entry.
pub struct AuditEntry {
    /// Unique entry identifier (a UUID).
    pub id: u128,
    /// Sequence number (monotonically increasing).
    pub seq: u64,
    /// Instant of the event (nanoseconds since the epoch).
    pub timestamp: i64,
    /// Event category (device, policy, system, analysis).
    pub category: String,
    /// Event action (connected, authorized, blocked, etc.).
    pub action: String,
    /// Severity level (0-10).
    pub severity: u8,
    /// Human-readable description.
    pub message: String,
    /// Structured event data, as compact JSON text.
    pub data: String,
    /// HMAC of this entry chained with the previous entry's HMAC
    /// (lowercase hexadecimal).
    pub hmac: String,
}

/// The HMAC that starts the chain, standing before the first entry.
pub open spec fn genesis() -> Seq<char> {
    "genesis"@
}

/// A text field of the chain input: its length in characters, a colon,
/// then the text, so that no text can run into the next field.
pub open spec fn text_field(t: Seq<char>) -> Seq<char> {
    decimal(t.len()) + ":"@ + t
}

/// The text that an entry's HMAC covers: every field of the entry but the
/// HMAC itself, after the previous entry's HMAC,
/// `previous_hmac|seq|timestamp|id|severity|category|action|message|data`,
/// with the numbers in decimal, the instant in RFC 3339, the identifier as
/// a hyphenated UUID and each text as a length-prefixed field.
pub open spec fn chain_input(prev_hmac: Seq<char>, e: AuditEntry) -> Seq<char> {
    prev_hmac + "|"@ + decimal(e.seq as nat) + "|"@ + spec_rfc3339(e.timestamp) + "|"@
        + uuid_hyphenated(e.id) + "|"@ + decimal(e.severity as nat) + "|"@ + text_field(e.category@)
        + "|"@ + text_field(e.action@) + "|"@ + text_field(e.message@) + "|"@ + text_field(e.data@)
}

/// The HMAC that entry `e` must carry when it follows an entry whose HMAC
/// is `prev_hmac`: HMAC-SHA256 under `key` of the UTF-8 bytes of the chain
/// input, in lowercase hexadecimal.
pub open spec fn entry_mac(key: Seq<u8>, prev_hmac: Seq<char>, e: AuditEntry) -> Seq<char> {
    hex_lower(spec_hmac_sha256(key, encode_utf8(chain_input(prev_hmac, e))))
}

/// The HMAC that stands before entry `i`: the previous entry's, or the
/// genesis value for the first entry.
pub open spec fn prev_hmac_of(entries: Seq<AuditEntry>, i: int) -> Seq<char> {
    if i == 0 {
        genesis()
    } else {
        entries[i - 1].hmac@
    }
}

/// Whether entry `i` carries the HMAC that the chain demands of it.
pub open spec fn link_ok(key: Seq<u8>, entries: Seq<AuditEntry>, i: int) -> bool {
    entries[i].hmac@ == entry_mac(key, prev_hmac_of(entries, i), entries[i])
}

/// Whether every entry carries the HMAC that the chain demands of it.
pub open spec fn chain_valid(key: Seq<u8>, entries: Seq<AuditEntry>) -> bool {
    forall|i: int| 0 <= i < entries.len() ==> #[trigger] link_ok(key, entries, i)
}

/// Appends `t` as a length-prefixed text field.
fn push_field(s: &mut String, t: &str)
    ensures
        final(s)@ == old(s)@ + text_field(t@),
{
    let n = chars_of(t).len();
    push_decimal(s, n as u64);
    push_char(s, ':');
    push_str(s, t);
    proof {
        reveal_strlit(":");
    }
    assert(s@ =~= old(s)@ + text_field(t@));
}

/// The chain input of `e` after `prev_hmac`, built as a string.
fn build_chain_input(prev_hmac: &String, e: &AuditEntry) -> (s: String)
    ensures
        s@ == chain_input(prev_hmac@, *e),
{
    let mut s = prev_hmac.clone();
    push_char(&mut s, '|');
    push_decimal(&mut s, e.seq);
    push_char(&mut s, '|');
    push_str(&mut s, rfc3339(e.timestamp).as_str());
    push_char(&mut s, '|');
    push_str(&mut s, uuid_to_string(e.id).as_str());
    push_char(&mut s, '|');
    push_decimal(&mut s, e.severity as u64);
    push_char(&mut s, '|');
    push_field(&mut s, e.category.as_str());
    push_char(&mut s, '|');
    push_field(&mut s, e.action.as_str());
    push_char(&mut s, '|');
    push_field(&mut s, e.message.as_str());
    push_char(&mut s, '|');
    push_field(&mut s, e.data.as_str());
    proof {
        reveal_strlit("|");
    }
    assert(s@ =~= chain_input(prev_hmac@, *e));
    s
}

/// The HMAC that `e` must carry after `prev_hmac`.
fn compute_mac(key: &Vec<u8>, prev_hmac: &String, e: &AuditEntry) -> (m: String)
    ensures
        m@ == entry_mac(key@, prev_hmac@, *e),
{
    let input = build_chain_input(prev_hmac, e);
    let tag = hmac_sha256(key.as_slice(), input.as_str().as_bytes());
    let m = hex_encode(tag.as_slice());
    proof {
        reveal(entry_mac);
    }
    m
}

/// Whether `e` carries the HMAC that the chain demands after `prev_hmac`.
fn carries_mac(key: &Vec<u8>, prev_hmac: &String, e: &AuditEntry) -> (r: bool)
    ensures
        r == (e.hmac@ == entry_mac(key@, prev_hmac@, *e)),
{
    let expected = compute_mac(key, prev_hmac, e);
    e.hmac == expected
}

/// Tamper-evident append-only logger: it numbers entries and chains their
/// HMACs. Persisting the entries is left to the caller.
pub struct AuditLogger {
    log_path: String,
    hmac_key: Vec<u8>,
    current_seq: u64,
    previous_hmac: String,
}

impl AuditLogger {
    /// Path of the log file.
    pub closed spec fn path(self) -> Seq<char> {
        self.log_path@
    }

    /// The HMAC key, as bytes.
    pub closed spec fn key(self) -> Seq<u8> {
        self.hmac_key@
    }

    /// The sequence number of the next entry.
    pub closed spec fn next_seq(self) -> u64 {
        self.current_seq
    }

    /// The HMAC that the next entry is chained to.
    pub closed spec fn prev_hmac(self) -> Seq<char> {
        self.previous_hmac@
    }

    /// Whether the logger stands at the end of `entries`: they form a valid
    /// chain under its key, are numbered 0, 1, 2, ... in order, and the
    /// logger will number and chain its next entry after the last of them.
    pub open spec fn tracks(self, entries: Seq<AuditEntry>) -> bool {
        &&& chain_valid(self.key(), entries)
        &&& forall|i: int| 0 <= i < entries.len() ==> (#[trigger] entries[i]).seq == i
        &&& self.next_seq() == entries.len()
        &&& self.prev_hmac() == prev_hmac_of(entries, entries.len() as int)
    }

    /// A logger for the log at `log_path` with key `hmac_key`, resuming the
    /// chain after `last`, the last readable entry of the existing log: the
    /// next entry is numbered after it and chained to its HMAC. Without one
    /// the chain starts at number 0 and the genesis value.
    pub fn new(log_path: String, hmac_key: &str, last: Option<&AuditEntry>) -> (l: Self)
        requires
            last matches Some(e) ==> e.seq < u64::MAX,
        ensures
            l.path() == log_path@,
            l.key() == hmac_key.spec_bytes(),
            match last {
                Some(e) => l.next_seq() == e.seq + 1 && l.prev_hmac() == e.hmac@,
                None => l.next_seq() == 0 && l.prev_hmac() == genesis(),
            },
    {
        let (current_seq, previous_hmac) = match last {
            Some(e) => (e.seq + 1, e.hmac.clone()),
            None => (0, String::from_str("genesis")),
        };
        AuditLogger {
            log_path,
            hmac_key: hmac_key.as_bytes_vec(),
            current_seq,
            previous_hmac,
        }
    }

    /// The path of the log file.
    pub fn log_path(&self) -> (r: &String)
        ensures
            r@ == self.path(),
    {
        &self.log_path
    }

    /// The entry that comes next in the chain, for an event with the given
    /// identifier, instant and contents: numbered with the next sequence
    /// number and carrying the chained HMAC.
    pub fn entry_at(
        &self,
        id: u128,
        timestamp: i64,
        category: &str,
        action: &str,
        severity: u8,
        message: &str,
        data: &str,
    ) -> (e: AuditEntry)
        ensures
            e.id == id,
            e.seq == self.next_seq(),
            e.timestamp == timestamp,
            e.category@ == category@,
            e.action@ == action@,
            e.severity == severity,
            e.message@ == message@,
            e.data@ == data@,
            e.hmac@ == entry_mac(self.key(), self.prev_hmac(), e),
    {
        let mut e = AuditEntry {
            id,
            seq: self.current_seq,
            timestamp,
            category: category.to_owned(),
            action: action.to_owned(),
            severity,
            message: message.to_owned(),
            data: data.to_owned(),
            hmac: String::new(),
        };
        let mac = compute_mac(&self.hmac_key, &self.previous_hmac, &e);
        let ghost before = e;
        e.hmac = mac;
        assert(chain_input(self.previous_hmac@, e) == chain_input(self.previous_hmac@, before));
        e
    }

    /// The entry that comes next in the chain for an event happening now,
    /// with a fresh random identifier (see [`AuditLogger::entry_at`]).
    pub fn prepare_entry(
        &self,
        category: &str,
        action: &str,
        severity: u8,
        message: &str,
        data: &str,
    ) -> (e: AuditEntry)
        ensures
            e.seq == self.next_seq(),
            e.category@ == category@,
            e.action@ == action@,
            e.severity == severity,
            e.message@ == message@,
            e.data@ == data@,
            e.hmac@ == entry_mac(self.key(), self.prev_hmac(), e),
    {
        let id = random_uuid();
        let timestamp = now_nanos();
        self.entry_at(id, timestamp, category, action, severity, message, data)
    }

    /// Advances the chain past `e`, an entry this logger prepared that has
    /// been persisted: the next entry gets the following number and is
    /// chained to `e`'s HMAC.
    pub fn commit(&mut self, e: &AuditEntry)
        requires
            e.seq == old(self).next_seq(),
            old(self).next_seq() < u64::MAX,
        ensures
            final(self).path() == old(self).path(),
            final(self).key() == old(self).key(),
            final(self).next_seq() == old(self).next_seq() + 1,
            final(self).prev_hmac() == e.hmac@,
    {
        self.current_seq = self.current_seq + 1;
        self.previous_hmac = e.hmac.clone();
    }

    /// Whether `entries`, read from the log in order, are the whole chain
    /// that this logger has written and stands at the end of: each carries
    /// the HMAC computed over the previous entry's HMAC (the genesis value
    /// for the first) and its own contents, they are numbered 0, 1, 2, ...,
    /// and the last of them is the one the logger's next entry will follow
    /// (so a log cut short is refused as well as a modified one).
    pub fn verify_chain(&self, entries: &[AuditEntry]) -> (ok: bool)
        ensures
            ok == self.tracks(entries@),
    {
        let n = entries.len();
        let mut prev = String::from_str("genesis");
        let mut i: usize = 0;
        while i < n
            invariant
                n == entries@.len(),
                i <= n,
                prev@ == prev_hmac_of(entries@, i as int),
                forall|j: int| 0 <= j < i ==> #[trigger] link_ok(self.hmac_key@, entries@, j),
                forall|j: int| 0 <= j < i ==> (#[trigger] entries@[j]).seq == j,
            decreases n - i,
        {
            let e = &entries[i];
            if e.seq as usize != i || e.seq > usize::MAX as u64 {
                assert(entries@[i as int].seq != i);
                return false;
            }
            if !carries_mac(&self.hmac_key, &prev, e) {
                assert(!link_ok(self.hmac_key@, entries@, i as int));
                return false;
            }
            prev = e.hmac.clone();
            i = i + 1;
        }
        proof {
            reveal_strlit("genesis");
        }
        if self.current_seq as usize != n || self.current_seq > usize::MAX as u64 {
            return false;
        }
        prev == self.previous_hmac
    }
}

/// Appending the entry that a logger prepares keeps the chain valid: if
/// the logger tracks `entries` and `e` carries the chained HMAC under the
/// logger's state (as [`AuditLogger::entry_at`] and
/// [`AuditLogger::prepare_entry`] ensure), then once the logger commits `e`
/// it tracks `entries` followed by `e`; in particular
/// [`AuditLogger::verify_chain`] accepts them.
pub proof fn lemma_commit_extends_chain(
    before: AuditLogger,
    entries: Seq<AuditEntry>,
    e: AuditEntry,
    after: AuditLogger,
)
    requires
        before.tracks(entries),
        e.seq == before.next_seq(),
        e.hmac@ == entry_mac(before.key(), before.prev_hmac(), e),
        after.key() == before.key(),
        after.next_seq() == before.next_seq() + 1,
        after.prev_hmac() == e.hmac@,
    ensures
        after.tracks(entries.push(e)),
        chain_valid(after.key(), entries.push(e)),
{
    let es = entries.push(e);
    let n = entries.len() as int;
    assert forall|i: int| 0 <= i < es.len() implies #[trigger] link_ok(after.key(), es, i) by {
        if i < n {
            assert(es[i] == entries[i]);
            assert(link_ok(before.key(), entries, i));
            if i > 0 {
                assert(es[i - 1] == entries[i - 1]);
            }
        } else {
            assert(es[i] == e);
            if n > 0 {
                assert(es[n - 1] == entries[n - 1]);
            }
        }
    }
    assert forall|i: int| 0 <= i < es.len() implies (#[trigger] es[i]).seq == i by {
        if i < n {
            assert(es[i] == entries[i]);
        }
    }
}

/// A logger that starts a new log tracks the empty log.
pub proof fn lemma_fresh_logger_tracks_empty(l: AuditLogger)
    requires
        l.next_seq() == 0,
        l.prev_hmac() == genesis(),
    ensures
        l.tracks(Seq::<AuditEntry>::empty()),
{
}

/// The positions `[start, end)` of the entries that a page with at most
/// `limit` entries after skipping `offset` entries holds, in a log of
/// `total` entries.
pub fn page_range(total: usize, limit: usize, offset: usize) -> (r: (usize, usize))
    ensures
        r.0 == (if offset < total { offset } else { total }),
        r.1 as int == (if offset + limit < total { offset + limit } else { total as int }),
        r.0 <= r.1 <= total,
{
    let start = if offset < total {
        offset
    } else {
        total
    };
    let end = if limit < total - start {
        start + limit
    } else {
        total
    };
    (start, end)
}

} // verus!
