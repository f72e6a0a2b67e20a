//! The server's liveness table: which clients were heard from, and when.

use vstd::prelude::*;
use vstd::string::StringSliceAdditionalSpecFns;
use crate::heartbeat::HeartbeatMessage;

verus! {

/// An instant in UTC: whole seconds since 1970-01-01T00:00:00Z and the
/// nanoseconds past that second. During a leap second the nanoseconds run
/// on past 999,999,999; they count as time past the whole second all the same.
#[derive(Debug, Clone, Copy, PartialEq, Eq, Structural)]
pub struct Timestamp {
    /// Whole seconds since the epoch.
    pub secs: i64,
    /// Nanoseconds past the whole second.
    pub nanos: u32,
}

/// Nanoseconds in a minute.
pub open spec fn nanos_per_minute() -> int {
    60_000_000_000
}

impl Timestamp {
    /// The instant in nanoseconds since the epoch.
    pub open spec fn as_nanos(self) -> int {
        self.secs * 1_000_000_000 + self.nanos
    }
}

/// The whole minutes in a span of nanoseconds, rounded toward zero.
pub open spec fn whole_minutes(nanos: int) -> int {
    if nanos >= 0 {
        nanos / nanos_per_minute()
    } else {
        -((-nanos) / nanos_per_minute())
    }
}

/// The age at `now` of something seen at `seen`, in whole minutes.
pub open spec fn age_minutes(now: Timestamp, seen: Timestamp) -> int {
    whole_minutes(now.as_nanos() - seen.as_nanos())
}

/// Computes the whole minutes from `seen` to `now`, rounded toward zero.
pub fn minutes_between(now: Timestamp, seen: Timestamp) -> (minutes: i64)
    ensures
        minutes == age_minutes(now, seen),
{
    let later: i128 = (now.secs as i128) * 1_000_000_000 + (now.nanos as i128);
    let earlier: i128 = (seen.secs as i128) * 1_000_000_000 + (seen.nanos as i128);
    let span: i128 = later - earlier;
    if span >= 0 {
        (span / 60_000_000_000) as i64
    } else {
        let back: i128 = (0 - span) / 60_000_000_000;
        (0 - back) as i64
    }
}

/// A client is live while its age is below the heartbeat timeout.
pub open spec fn is_live(now: Timestamp, seen: Timestamp, timeout_mins: i64) -> bool {
    age_minutes(now, seen) < timeout_mins
}

/// The part of a table that survives a sweep: the clients that are live.
pub open spec fn live_part(
    table: Map<Seq<char>, Timestamp>,
    now: Timestamp,
    timeout_mins: i64,
) -> Map<Seq<char>, Timestamp> {
    Map::new(
        |name: Seq<char>| table.contains_key(name) && is_live(now, table[name], timeout_mins),
        |name: Seq<char>| table[name],
    )
}

/// One client in the table.
#[derive(Debug)]
struct ClientEntry {
    /// The client's host name.
    hostname: String,
    /// When the client was last heard from.
    last_seen: Timestamp,
}

spec fn names_unique(entries: Seq<ClientEntry>) -> bool {
    forall|i: int, j: int|
        0 <= i < j < entries.len() ==> (#[trigger] entries[i]).hostname@ != (
        #[trigger] entries[j]).hostname@
}

spec fn holds(entries: Seq<ClientEntry>, name: Seq<char>) -> bool {
    exists|i: int| 0 <= i < entries.len() && (#[trigger] entries[i]).hostname@ == name
}

spec fn slot(entries: Seq<ClientEntry>, name: Seq<char>) -> int {
    choose|i: int| 0 <= i < entries.len() && (#[trigger] entries[i]).hostname@ == name
}

spec fn table_of(entries: Seq<ClientEntry>) -> Map<Seq<char>, Timestamp> {
    Map::new(
        |name: Seq<char>| holds(entries, name),
        |name: Seq<char>| entries[slot(entries, name)].last_seen,
    )
}

proof fn lemma_slot(entries: Seq<ClientEntry>, i: int)
    requires
        names_unique(entries),
        0 <= i < entries.len(),
    ensures
        holds(entries, entries[i].hostname@),
        slot(entries, entries[i].hostname@) == i,
        table_of(entries).contains_key(entries[i].hostname@),
        table_of(entries)[entries[i].hostname@] == entries[i].last_seen,
{
}

proof fn lemma_push(entries: Seq<ClientEntry>, entry: ClientEntry)
    requires
        names_unique(entries),
        !holds(entries, entry.hostname@),
    ensures
        names_unique(entries.push(entry)),
        table_of(entries.push(entry)) == table_of(entries).insert(
            entry.hostname@,
            entry.last_seen,
        ),
{
    let grown = entries.push(entry);
    let target = table_of(entries).insert(entry.hostname@, entry.last_seen);
    assert forall|name: Seq<char>| table_of(grown).contains_key(name) <==> target.contains_key(
        name,
    ) by {
        if holds(entries, name) {
            assert(grown[slot(entries, name)].hostname@ == name);
        }
        if name == entry.hostname@ {
            assert(grown[entries.len() as int].hostname@ == name);
        }
    }
}

proof fn lemma_update(entries: Seq<ClientEntry>, at: int, entry: ClientEntry)
    requires
        names_unique(entries),
        0 <= at < entries.len(),
        entries[at].hostname@ == entry.hostname@,
    ensures
        names_unique(entries.update(at, entry)),
        table_of(entries.update(at, entry)) == table_of(entries).insert(
            entry.hostname@,
            entry.last_seen,
        ),
{
    let changed = entries.update(at, entry);
    let target = table_of(entries).insert(entry.hostname@, entry.last_seen);
    assert forall|name: Seq<char>| table_of(changed).contains_key(name) <==> target.contains_key(
        name,
    ) by {
        if holds(entries, name) {
            assert(changed[slot(entries, name)].hostname@ == name);
        }
    }
}

proof fn lemma_size(entries: Seq<ClientEntry>)
    requires
        names_unique(entries),
    ensures
        table_of(entries).dom().finite(),
        table_of(entries).dom().len() == entries.len(),
    decreases entries.len(),
{
    if entries.len() == 0 {
        assert(table_of(entries).dom() =~= Set::<Seq<char>>::empty());
    } else {
        let front = entries.drop_last();
        let last = entries.last();
        lemma_size(front);
        lemma_push(front, last);
        assert(front.push(last) =~= entries);
    }
}

spec fn kept_matches(
    entries: Seq<ClientEntry>,
    kept: Seq<ClientEntry>,
    kept_from: Seq<int>,
    upto: int,
    now: Timestamp,
    timeout_mins: i64,
) -> bool {
    &&& kept_from.len() == kept.len()
    &&& forall|j: int|
        0 <= j < kept.len() ==> {
            &&& 0 <= (#[trigger] kept_from[j]) < upto
            &&& kept[j].hostname@ == entries[kept_from[j]].hostname@
            &&& kept[j].last_seen == entries[kept_from[j]].last_seen
            &&& is_live(now, entries[kept_from[j]].last_seen, timeout_mins)
        }
    &&& forall|i: int, j: int|
        0 <= i < j < kept_from.len() ==> (#[trigger] kept_from[i]) < (#[trigger] kept_from[j])
    &&& forall|k: int|
        0 <= k < upto && is_live(now, (#[trigger] entries[k]).last_seen, timeout_mins)
            ==> exists|j: int| 0 <= j < kept_from.len() && #[trigger] kept_from[j] == k
}

spec fn evicted_matches(
    entries: Seq<ClientEntry>,
    evicted: Seq<String>,
    evicted_from: Seq<int>,
    upto: int,
    now: Timestamp,
    timeout_mins: i64,
) -> bool {
    &&& evicted_from.len() == evicted.len()
    &&& forall|j: int|
        0 <= j < evicted.len() ==> {
            &&& 0 <= (#[trigger] evicted_from[j]) < upto
            &&& evicted[j]@ == entries[evicted_from[j]].hostname@
            &&& !is_live(now, entries[evicted_from[j]].last_seen, timeout_mins)
        }
    &&& forall|i: int, j: int|
        0 <= i < j < evicted_from.len() ==> (#[trigger] evicted_from[i]) < (
        #[trigger] evicted_from[j])
    &&& forall|k: int|
        0 <= k < upto && !is_live(now, (#[trigger] entries[k]).last_seen, timeout_mins)
            ==> exists|j: int| 0 <= j < evicted_from.len() && #[trigger] evicted_from[j] == k
}

/// The names in `evicted` are, each once, the clients of `table` that are not live.
pub open spec fn names_evicted(
    evicted: Seq<String>,
    table: Map<Seq<char>, Timestamp>,
    now: Timestamp,
    timeout_mins: i64,
) -> bool {
    &&& forall|j: int|
        0 <= j < evicted.len() ==> table.contains_key((#[trigger] evicted[j])@) && !is_live(
            now,
            table[evicted[j]@],
            timeout_mins,
        )
    &&& forall|name: Seq<char>|
        #![trigger table.contains_key(name)]
        table.contains_key(name) && !is_live(now, table[name], timeout_mins) ==> exists|j: int|
            0 <= j < evicted.len() && (#[trigger] evicted[j])@ == name
    &&& forall|i: int, j: int|
        0 <= i < j < evicted.len() ==> (#[trigger] evicted[i])@ != (#[trigger] evicted[j])@
}

proof fn lemma_kept(
    entries: Seq<ClientEntry>,
    kept: Seq<ClientEntry>,
    kept_from: Seq<int>,
    now: Timestamp,
    timeout_mins: i64,
)
    requires
        names_unique(entries),
        kept_matches(entries, kept, kept_from, entries.len() as int, now, timeout_mins),
    ensures
        names_unique(kept),
        table_of(kept) == live_part(table_of(entries), now, timeout_mins),
{
    assert forall|i: int, j: int| 0 <= i < j < kept.len() implies (#[trigger] kept[i]).hostname@
        != (#[trigger] kept[j]).hostname@ by {
        assert(kept_from[i] < kept_from[j]);
    }
    let target = live_part(table_of(entries), now, timeout_mins);
    assert forall|name: Seq<char>| table_of(kept).contains_key(name) <==> target.contains_key(
        name,
    ) by {
        if holds(kept, name) {
            lemma_slot(entries, kept_from[slot(kept, name)]);
        }
        if target.contains_key(name) {
            lemma_slot(entries, slot(entries, name));
        }
    }
    assert forall|name: Seq<char>| table_of(kept).contains_key(name) implies table_of(kept)[name]
        == target[name] by {
        lemma_slot(entries, kept_from[slot(kept, name)]);
    }
}

proof fn lemma_evicted(
    entries: Seq<ClientEntry>,
    evicted: Seq<String>,
    evicted_from: Seq<int>,
    now: Timestamp,
    timeout_mins: i64,
)
    requires
        names_unique(entries),
        evicted_matches(entries, evicted, evicted_from, entries.len() as int, now, timeout_mins),
    ensures
        names_evicted(evicted, table_of(entries), now, timeout_mins),
{
    let table = table_of(entries);
    assert forall|j: int| 0 <= j < evicted.len() implies table.contains_key(
        (#[trigger] evicted[j])@,
    ) && !is_live(now, table[evicted[j]@], timeout_mins) by {
        lemma_slot(entries, evicted_from[j]);
    }
    assert forall|name: Seq<char>|
        #![trigger table.contains_key(name)]
        table.contains_key(name) && !is_live(now, table[name], timeout_mins) implies exists|
        j: int,
    |
        0 <= j < evicted.len() && (#[trigger] evicted[j])@ == name by {
        let k = slot(entries, name);
        lemma_slot(entries, k);
        let j = choose|j: int| 0 <= j < evicted_from.len() && #[trigger] evicted_from[j] == k;
        assert(evicted[j]@ == name);
    }
    assert forall|i: int, j: int| 0 <= i < j < evicted.len() implies (#[trigger] evicted[i])@ != (
    #[trigger] evicted[j])@ by {
        assert(evicted_from[i] < evicted_from[j]);
    }
}

/// What a sweep did.
#[derive(Debug, Clone)]
pub struct SweepReport {
    /// The host names that were evicted, each once.
    pub evicted: Vec<String>,
    /// Whether any client is live after the sweep.
    pub any_active: bool,
}

/// The table of clients and when each was last heard from. A host name
/// occurs at most once.
#[derive(Debug)]
pub struct LivenessTable {
    entries: Vec<ClientEntry>,
}

impl LivenessTable {
    #[verifier::type_invariant]
    spec fn names_occur_once(&self) -> bool {
        names_unique(self.entries@)
    }

    /// The table as a map from host name to the instant last seen.
    pub closed spec fn view(&self) -> Map<Seq<char>, Timestamp> {
        table_of(self.entries@)
    }

    /// An empty table.
    pub fn new() -> (table: LivenessTable)
        ensures
            table@ == Map::<Seq<char>, Timestamp>::empty(),
    {
        LivenessTable { entries: Vec::new() }
    }

    /// The number of clients in the table.
    pub fn len(&self) -> (count: usize)
        ensures
            self@.dom().finite(),
            count == self@.dom().len(),
    {
        proof {
            use_type_invariant(self);
            lemma_size(self.entries@);
        }
        self.entries.len()
    }

    /// Whether no client is in the table.
    pub fn is_empty(&self) -> (empty: bool)
        ensures
            empty == (self@ == Map::<Seq<char>, Timestamp>::empty()),
            empty == (forall|name: Seq<char>| !self@.contains_key(name)),
    {
        proof {
            use_type_invariant(self);
            if self.entries@.len() > 0 {
                lemma_slot(self.entries@, 0);
            }
            assert(self.entries@.len() == 0 ==> self@ =~= Map::<Seq<char>, Timestamp>::empty());
        }
        self.entries.len() == 0
    }

    /// When the client of this name was last heard from, if it is in the table.
    pub fn last_seen(&self, hostname: &str) -> (seen: Option<Timestamp>)
        ensures
            seen == if self@.contains_key(hostname@) {
                Some(self@[hostname@])
            } else {
                None
            },
    {
        proof {
            use_type_invariant(self);
        }
        let mut at: usize = 0;
        while at < self.entries.len()
            invariant
                at <= self.entries@.len(),
                names_unique(self.entries@),
                forall|i: int| 0 <= i < at ==> (#[trigger] self.entries@[i]).hostname@ != hostname@,
            decreases self.entries.len() - at,
        {
            if str_equal(self.entries[at].hostname.as_str(), hostname) {
                return Some(self.entries[at].last_seen);
            }
            at += 1;
        }
        None
    }

    /// Records that a client was heard from: inserts it, or replaces the
    /// instant of the entry it already has.
    pub fn record(&mut self, hostname: String, seen: Timestamp)
        ensures
            final(self)@ == old(self)@.insert(hostname@, seen),
    {
        proof {
            use_type_invariant(&*self);
        }
        let mut at: usize = 0;
        let mut found: Option<usize> = None;
        while found.is_none() && at < self.entries.len()
            invariant
                at <= self.entries@.len(),
                forall|i: int| 0 <= i < at ==> (#[trigger] self.entries@[i]).hostname@ != hostname@,
                found is Some ==> found->Some_0 < self.entries@.len()
                    && self.entries@[found->Some_0 as int].hostname@ == hostname@,
            decreases (self.entries.len() - at) * 2 + if found is None { 1int } else { 0int },
        {
            if self.entries[at].hostname == hostname {
                found = Some(at);
            } else {
                at += 1;
            }
        }
        let entry = ClientEntry { hostname, last_seen: seen };
        let mut entries: Vec<ClientEntry> = Vec::new();
        std::mem::swap(&mut self.entries, &mut entries);
        match found {
            Some(at) => {
                proof {
                    lemma_update(entries@, at as int, entry);
                }
                entries.set(at, entry);
            },
            None => {
                proof {
                    lemma_push(entries@, entry);
                }
                entries.push(entry);
            },
        }
        self.entries = entries;
    }

    /// Evicts every client whose age at `now` has reached the heartbeat
    /// timeout, and reports the evicted names and whether any client is left.
    pub fn sweep(&mut self, now: Timestamp, timeout_mins: i64) -> (report: SweepReport)
        ensures
            final(self)@ == live_part(old(self)@, now, timeout_mins),
            names_evicted(report.evicted@, old(self)@, now, timeout_mins),
            report.any_active == (exists|name: Seq<char>| final(self)@.contains_key(name)),
    {
        proof {
            use_type_invariant(&*self);
        }
        let mut entries: Vec<ClientEntry> = Vec::new();
        std::mem::swap(&mut self.entries, &mut entries);
        let mut kept: Vec<ClientEntry> = Vec::new();
        let mut evicted: Vec<String> = Vec::new();
        let ghost mut kept_from: Seq<int> = Seq::empty();
        let ghost mut evicted_from: Seq<int> = Seq::empty();
        let mut at: usize = 0;
        while at < entries.len()
            invariant
                at <= entries@.len(),
                kept_matches(entries@, kept@, kept_from, at as int, now, timeout_mins),
                evicted_matches(entries@, evicted@, evicted_from, at as int, now, timeout_mins),
            decreases entries.len() - at,
        {
            let last_seen = entries[at].last_seen;
            let hostname = entries[at].hostname.clone();
            let ghost kept_before = kept_from;
            let ghost evicted_before = evicted_from;
            if minutes_between(now, last_seen) < timeout_mins {
                kept.push(ClientEntry { hostname, last_seen });
                proof {
                    kept_from = kept_from.push(at as int);
                    assert(kept_from[kept_before.len() as int] == at);
                }
            } else {
                evicted.push(hostname);
                proof {
                    evicted_from = evicted_from.push(at as int);
                    assert(evicted_from[evicted_before.len() as int] == at);
                }
            }
            proof {
                assert forall|k: int|
                    0 <= k < at + 1 && is_live(
                        now,
                        (#[trigger] entries@[k]).last_seen,
                        timeout_mins,
                    ) implies exists|j: int|
                    0 <= j < kept_from.len() && #[trigger] kept_from[j] == k by {
                    if k < at {
                        let j = choose|j: int|
                            0 <= j < kept_before.len() && #[trigger] kept_before[j] == k;
                        assert(kept_from[j] == k);
                    }
                }
                assert forall|k: int|
                    0 <= k < at + 1 && !is_live(
                        now,
                        (#[trigger] entries@[k]).last_seen,
                        timeout_mins,
                    ) implies exists|j: int|
                    0 <= j < evicted_from.len() && #[trigger] evicted_from[j] == k by {
                    if k < at {
                        let j = choose|j: int|
                            0 <= j < evicted_before.len() && #[trigger] evicted_before[j] == k;
                        assert(evicted_from[j] == k);
                    }
                }
            }
            at += 1;
        }
        proof {
            lemma_kept(entries@, kept@, kept_from, now, timeout_mins);
            lemma_evicted(entries@, evicted@, evicted_from, now, timeout_mins);
            if kept@.len() > 0 {
                lemma_slot(kept@, 0);
            }
        }
        let any_active = kept.len() > 0;
        self.entries = kept;
        SweepReport { evicted, any_active }
    }
}

/// The instant that an RFC 3339 date-and-time text denotes, as whole seconds
/// since the epoch and nanoseconds past the second, or `None` where the text
/// is no RFC 3339 date-and-time.
pub uninterp spec fn rfc3339_instant(text: Seq<char>) -> Option<(i64, u32)>;

/// Calls `chrono::DateTime::parse_from_rfc3339` and reads the parsed value
/// with `DateTime::timestamp` and `DateTime::timestamp_subsec_nanos`. The
/// contract only names the result: a text that the parser refuses gives
/// `None`, any other gives the instant in UTC.
#[verifier::external_body]
fn parse_rfc3339(text: &str) -> (parsed: Option<(i64, u32)>)
    ensures
        parsed == rfc3339_instant(text@),
{
    match chrono::DateTime::parse_from_rfc3339(text) {
        Ok(moment) => Some((moment.timestamp(), moment.timestamp_subsec_nanos())),
        Err(_) => None,
    }
}

/// The table after a heartbeat from `hostname` whose timestamp parsed to
/// `parsed`: a valid one is recorded, an invalid one leaves the table as it was.
pub open spec fn table_after_heartbeat(
    table: Map<Seq<char>, Timestamp>,
    hostname: Seq<char>,
    parsed: Option<(i64, u32)>,
) -> Map<Seq<char>, Timestamp> {
    match parsed {
        Some((secs, nanos)) => table.insert(hostname, Timestamp { secs, nanos }),
        None => table,
    }
}

/// The answer that every heartbeat gets.
pub open spec fn heartbeat_response() -> Seq<char> {
    "OK"@
}

/// What became of a heartbeat.
#[derive(Debug, Clone, Copy)]
pub struct HeartbeatReceipt {
    /// The answer to the sender: the same for every heartbeat.
    pub response: &'static str,
    /// Whether the sender was recorded; `false` for a malformed timestamp.
    pub recorded: bool,
}

/// Applies a heartbeat whose timestamp has been parsed already. The sender
/// always gets the same answer: a malformed heartbeat is dropped, not refused.
pub fn apply_heartbeat(
    table: &mut LivenessTable,
    hostname: String,
    parsed: Option<(i64, u32)>,
) -> (receipt: HeartbeatReceipt)
    ensures
        final(table)@ == table_after_heartbeat(old(table)@, hostname@, parsed),
        receipt.response@ == heartbeat_response(),
        receipt.recorded == parsed is Some,
{
    match parsed {
        Some((secs, nanos)) => {
            table.record(hostname, Timestamp { secs, nanos });
            HeartbeatReceipt { response: "OK", recorded: true }
        },
        None => HeartbeatReceipt { response: "OK", recorded: false },
    }
}

/// Handles one heartbeat message: parses its timestamp as RFC 3339 and, if
/// it is valid, records the sender under the instant it names.
pub fn handle_heartbeat(table: &mut LivenessTable, heartbeat: HeartbeatMessage) -> (receipt:
    HeartbeatReceipt)
    ensures
        final(table)@ == table_after_heartbeat(
            old(table)@,
            heartbeat.hostname@,
            rfc3339_instant(heartbeat.timestamp@),
        ),
        receipt.response@ == heartbeat_response(),
        receipt.recorded == rfc3339_instant(heartbeat.timestamp@) is Some,
{
    let parsed = parse_rfc3339(heartbeat.timestamp.as_str());
    apply_heartbeat(table, heartbeat.hostname, parsed)
}

/// A heartbeat round trip: right after a heartbeat with a valid timestamp
/// the sender is in the table with an age of zero at the instant the
/// timestamp names, and a sweep removes it exactly when its age has reached
/// the timeout.
pub proof fn lemma_heartbeat_round_trip(
    table: Map<Seq<char>, Timestamp>,
    hostname: Seq<char>,
    secs: i64,
    nanos: u32,
    now: Timestamp,
    timeout_mins: i64,
)
    ensures
        ({
            let seen = Timestamp { secs, nanos };
            let after = table_after_heartbeat(table, hostname, Some((secs, nanos)));
            &&& after.contains_key(hostname)
            &&& after[hostname] == seen
            &&& age_minutes(seen, seen) == 0
            &&& live_part(after, now, timeout_mins).contains_key(hostname) <==> age_minutes(
                now,
                seen,
            ) < timeout_mins
        }),
{
}

/// Repeated heartbeats from one host leave one entry, with the latest
/// instant: the first of two records leaves no trace.
pub proof fn lemma_latest_heartbeat_wins(
    table: Map<Seq<char>, Timestamp>,
    hostname: Seq<char>,
    first: Timestamp,
    second: Timestamp,
)
    ensures
        table.insert(hostname, first).insert(hostname, second) == table.insert(hostname, second),
        table.insert(hostname, first).insert(hostname, second).dom() == table.dom().insert(
            hostname,
        ),
        table.dom().finite() && table.contains_key(hostname) ==> table.insert(
            hostname,
            second,
        ).dom().len() == table.dom().len(),
{
    assert(table.insert(hostname, first).insert(hostname, second) =~= table.insert(
        hostname,
        second,
    ));
    assert(table.insert(hostname, first).insert(hostname, second).dom() =~= table.dom().insert(
        hostname,
    ));
}

/// After a sweep every client left in the table is live, and every live
/// client is left: nothing stale stays and nothing live is lost.
pub proof fn lemma_sweep_leaves_live(
    table: Map<Seq<char>, Timestamp>,
    now: Timestamp,
    timeout_mins: i64,
    hostname: Seq<char>,
)
    ensures
        live_part(table, now, timeout_mins).contains_key(hostname) <==> table.contains_key(
            hostname,
        ) && age_minutes(now, table[hostname]) < timeout_mins,
        live_part(table, now, timeout_mins).contains_key(hostname) ==> live_part(
            table,
            now,
            timeout_mins,
        )[hostname] == table[hostname],
{
}

/// A malformed heartbeat changes nothing in the table.
pub proof fn lemma_malformed_heartbeat_dropped(table: Map<Seq<char>, Timestamp>, hostname: Seq<char>)
    ensures
        table_after_heartbeat(table, hostname, None) == table,
{
}

/// Compares two texts.
fn str_equal(left: &str, right: &str) -> (equal: bool)
    ensures
        equal == (left@ == right@),
{
    let left_bytes = left.as_bytes();
    let right_bytes = right.as_bytes();
    proof {
        vstd::utf8::encode_utf8_decode_utf8(left@);
        vstd::utf8::encode_utf8_decode_utf8(right@);
    }
    if left_bytes.len() != right_bytes.len() {
        return false;
    }
    let mut at: usize = 0;
    while at < left_bytes.len()
        invariant
            at <= left_bytes@.len(),
            left_bytes@.len() == right_bytes@.len(),
            (left@ == right@) <==> (left_bytes@ == right_bytes@),
            forall|i: int| 0 <= i < at ==> left_bytes@[i] == right_bytes@[i],
        decreases left_bytes.len() - at,
    {
        if left_bytes[at] != right_bytes[at] {
            return false;
        }
        at += 1;
    }
    assert(left_bytes@ =~= right_bytes@);
    true
}

} // verus!
