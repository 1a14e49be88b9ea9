//! Threat intelligence feeds (YARA rules and indicators of compromise) and
//! their synchronisation bookkeeping. Fetching a feed is not implemented:
//! a sync of an enabled feed records an empty, successful update.
use crate::clock::now_nanos;
use vstd::prelude::*;
use vstd::string::*;

verus! {

/// A threat intelligence feed source.
pub struct ThreatFeed {
    /// Human-readable name of the feed.
    pub name: String,
    /// API endpoint URL.
    pub url: String,
    /// API key (if required).
    pub api_key: Option<String>,
    /// Whether this feed is enabled.
    pub enabled: bool,
    /// Last successful sync (nanoseconds since the epoch).
    pub last_sync: Option<i64>,
    /// Sync interval in seconds.
    pub sync_interval_secs: u64,
}

/// Result of a sync operation.
pub struct SyncResult {
    pub feed_name: String,
    pub success: bool,
    pub new_rules_count: usize,
    pub updated_rules_count: usize,
    pub errors: Vec<String>,
    /// When the sync ran (nanoseconds since the epoch).
    pub timestamp: i64,
}

/// The threat intelligence synchroniser.
pub struct ThreatIntelSync {
    feeds: Vec<ThreatFeed>,
}

/// The positions of the enabled feeds, in order.
pub open spec fn enabled_positions(feeds: Seq<ThreatFeed>) -> Seq<int>
    decreases feeds.len(),
{
    if feeds.len() == 0 {
        Seq::empty()
    } else {
        let rest = enabled_positions(feeds.drop_last());
        if feeds.last().enabled {
            rest.push(feeds.len() - 1)
        } else {
            rest
        }
    }
}

/// What a sync at instant `now` does: every feed keeps its settings, each
/// enabled feed's last sync becomes `now`, and there is one successful
/// result with no rule changes per enabled feed, in feed order.
pub open spec fn sync_outcome(
    before: Seq<ThreatFeed>,
    after: Seq<ThreatFeed>,
    results: Seq<SyncResult>,
    now: i64,
) -> bool {
    &&& after.len() == before.len()
    &&& forall|i: int|
        0 <= i < before.len() ==> {
            let f = before[i];
            let g = #[trigger] after[i];
            &&& g.name == f.name && g.url == f.url && g.api_key == f.api_key
            &&& g.enabled == f.enabled && g.sync_interval_secs == f.sync_interval_secs
            &&& g.last_sync == if f.enabled { Some(now) } else { f.last_sync }
        }
    &&& results.len() == enabled_positions(before).len()
    &&& forall|j: int|
        0 <= j < results.len() ==> {
            let res = #[trigger] results[j];
            &&& res.feed_name@ == before[enabled_positions(before)[j]].name@
            &&& res.success && res.new_rules_count == 0 && res.updated_rules_count == 0
            &&& res.errors@.len() == 0 && res.timestamp == now
        }
}

impl ThreatIntelSync {
    /// The configured feeds, in order.
    pub closed spec fn feed_list(self) -> Seq<ThreatFeed> {
        self.feeds@
    }

    /// The built-in feeds, both disabled: "MISP Community" (hourly) and
    /// "Abuse.ch MalwareBazaar" (every two hours).
    pub fn new() -> (s: Self)
        ensures
            s.feed_list().len() == 2,
            s.feed_list()[0].name@ == "MISP Community"@,
            s.feed_list()[0].url@ == "https://misp.example.org/events/restSearch"@,
            s.feed_list()[0].sync_interval_secs == 3600,
            s.feed_list()[1].name@ == "Abuse.ch MalwareBazaar"@,
            s.feed_list()[1].url@ == "https://bazaar.abuse.ch/export/txt/yara/full/"@,
            s.feed_list()[1].sync_interval_secs == 7200,
            forall|i: int|
                0 <= i < 2 ==> !(#[trigger] s.feed_list()[i]).enabled && s.feed_list()[i].api_key
                    is None && s.feed_list()[i].last_sync is None,
    {
        let mut feeds: Vec<ThreatFeed> = Vec::new();
        feeds.push(
            ThreatFeed {
                name: String::from_str("MISP Community"),
                url: String::from_str("https://misp.example.org/events/restSearch"),
                api_key: None,
                enabled: false,
                last_sync: None,
                sync_interval_secs: 3600,
            },
        );
        feeds.push(
            ThreatFeed {
                name: String::from_str("Abuse.ch MalwareBazaar"),
                url: String::from_str("https://bazaar.abuse.ch/export/txt/yara/full/"),
                api_key: None,
                enabled: false,
                last_sync: None,
                sync_interval_secs: 7200,
            },
        );
        ThreatIntelSync { feeds }
    }

    /// A synchroniser over the given feeds.
    pub fn with_feeds(feeds: Vec<ThreatFeed>) -> (s: Self)
        ensures
            s.feed_list() == feeds@,
    {
        ThreatIntelSync { feeds }
    }

    /// Syncs every enabled feed at instant `now`: one successful result with
    /// no rule changes per enabled feed, in feed order, and each enabled
    /// feed's last sync set to `now`. Disabled feeds are left alone.
    pub fn sync_all_at(&mut self, now: i64) -> (r: Vec<SyncResult>)
        ensures
            sync_outcome(old(self).feed_list(), final(self).feed_list(), r@, now),
    {
        let ghost old_feeds = self.feeds@;
        let mut results: Vec<SyncResult> = Vec::new();
        let mut i: usize = 0;
        let n = self.feeds.len();
        while i < n
            invariant
                n == old_feeds.len(),
                self.feeds@.len() == n,
                i <= n,
                forall|k: int|
                    i <= k < n ==> #[trigger] self.feeds@[k] == old_feeds[k],
                forall|k: int|
                    0 <= k < i ==> {
                        let f = old_feeds[k];
                        let g = #[trigger] self.feeds@[k];
                        &&& g.name == f.name && g.url == f.url && g.api_key == f.api_key
                        &&& g.enabled == f.enabled && g.sync_interval_secs == f.sync_interval_secs
                        &&& g.last_sync == if f.enabled { Some(now) } else { f.last_sync }
                    },
                results@.len() == enabled_positions(old_feeds.subrange(0, i as int)).len(),
                forall|j: int|
                    0 <= j < results@.len() ==> {
                        let res = #[trigger] results@[j];
                        &&& res.feed_name@ == old_feeds[enabled_positions(
                            old_feeds.subrange(0, i as int),
                        )[j]].name@
                        &&& res.success && res.new_rules_count == 0 && res.updated_rules_count
                            == 0
                        &&& res.errors@.len() == 0 && res.timestamp == now
                    },
            decreases n - i,
        {
            let ghost pre = old_feeds.subrange(0, i as int);
            let ghost nxt = old_feeds.subrange(0, i + 1);
            assert(nxt.drop_last() =~= pre);
            let ghost positions = enabled_positions(pre);
            proof {
                lemma_enabled_positions_bound(pre);
            }
            if self.feeds[i].enabled {
                let name = self.feeds[i].name.clone();
                results.push(
                    SyncResult {
                        feed_name: name,
                        success: true,
                        new_rules_count: 0,
                        updated_rules_count: 0,
                        errors: Vec::new(),
                        timestamp: now,
                    },
                );
                let mut feed = self.feeds.remove(i);
                feed.last_sync = Some(now);
                self.feeds.insert(i, feed);
            }
            i = i + 1;
        }
        assert(old_feeds.subrange(0, n as int) =~= old_feeds);
        results
    }

    /// Syncs every enabled feed now, at an instant read from the clock
    /// (see [`ThreatIntelSync::sync_all_at`]).
    pub fn sync_all(&mut self) -> (r: Vec<SyncResult>)
        ensures
            exists|now: i64| sync_outcome(old(self).feed_list(), final(self).feed_list(), r@, now),
    {
        let now = now_nanos();
        let r = self.sync_all_at(now);
        assert(sync_outcome(old(self).feed_list(), self.feed_list(), r@, now));
        r
    }

    /// The current status of all configured feeds.
    pub fn get_feed_status(&self) -> (r: &[ThreatFeed])
        ensures
            r@ == self.feed_list(),
    {
        self.feeds.as_slice()
    }
}

/// Every enabled position is a position of the list.
pub proof fn lemma_enabled_positions_bound(feeds: Seq<ThreatFeed>)
    ensures
        forall|j: int|
            0 <= j < enabled_positions(feeds).len() ==> 0 <= #[trigger] enabled_positions(feeds)[j]
                < feeds.len(),
    decreases feeds.len(),
{
    if feeds.len() > 0 {
        let rest = feeds.drop_last();
        lemma_enabled_positions_bound(rest);
        let p = enabled_positions(feeds);
        let q = enabled_positions(rest);
        assert forall|j: int| 0 <= j < p.len() implies 0 <= #[trigger] p[j] < feeds.len() by {
            if j < q.len() {
                assert(p[j] == q[j]);
            }
        }
    }
}

} // verus!
