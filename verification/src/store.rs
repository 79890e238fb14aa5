//! Flow-history entries and the storage layout the application relies on:
//! the ordering rule for the history list and the file names under the
//! storage directories. Reading and writing the files themselves is the
//! caller's business.

use vstd::prelude::*;
use vstd::string::StringExecFns;

verus! {

/// One flow-history record: when the session ended (milliseconds since the
/// epoch), how long it was configured to run, and the text written.
pub struct FlowEntry {
    pub timestamp_ms: u64,
    pub duration_minutes: u32,
    pub text: String,
}

/// Model of a history record.
pub struct EntryView {
    pub timestamp_ms: u64,
    pub duration_minutes: u32,
    pub text: Seq<char>,
}

impl View for FlowEntry {
    type V = EntryView;

    open spec fn view(&self) -> EntryView {
        EntryView {
            timestamp_ms: self.timestamp_ms,
            duration_minutes: self.duration_minutes,
            text: self.text@,
        }
    }
}

impl DeepView for FlowEntry {
    type V = EntryView;

    open spec fn deep_view(&self) -> EntryView {
        self.view()
    }
}

/// The history order: newest first, timestamps never increasing.
pub open spec fn sorted_newest_first(h: Seq<EntryView>) -> bool {
    forall|i: int, j: int| 0 <= i < j < h.len() ==> h[i].timestamp_ms >= h[j].timestamp_ms
}

/// Where a new entry with the given timestamp enters a newest-first list:
/// before the first strictly older entry, after every entry at least as new.
pub open spec fn insert_pos(h: Seq<EntryView>, ts: u64) -> int
    decreases h.len(),
{
    if h.len() == 0 {
        0
    } else if h[0].timestamp_ms < ts {
        0
    } else {
        1 + insert_pos(h.drop_first(), ts)
    }
}

/// The insertion point lies within the list, everything before it is at
/// least as new as `ts`, and everything from it on is strictly older.
pub proof fn lemma_insert_pos_bounds(h: Seq<EntryView>, ts: u64)
    ensures
        0 <= insert_pos(h, ts) <= h.len(),
        forall|k: int| 0 <= k < insert_pos(h, ts) ==> h[k].timestamp_ms >= ts,
        insert_pos(h, ts) < h.len() ==> h[insert_pos(h, ts)].timestamp_ms < ts,
    decreases h.len(),
{
    if h.len() > 0 && h[0].timestamp_ms >= ts {
        lemma_insert_pos_bounds(h.drop_first(), ts);
        assert(forall|k: int|
            1 <= k < insert_pos(h, ts) ==> h[k] == h.drop_first()[k - 1]);
        if insert_pos(h, ts) < h.len() {
            assert(h[insert_pos(h, ts)] == h.drop_first()[insert_pos(h.drop_first(), ts)]);
        }
    }
}

/// Insert a new entry into a newest-first history: it lands after every
/// entry at least as new and before every strictly older one, nothing else
/// moves, and a sorted list stays sorted.
#[verifier::rlimit(30)]
pub fn insert_flow_entry(history: &mut Vec<FlowEntry>, entry: FlowEntry)
    ensures
        final(history).deep_view() == old(history).deep_view().insert(
            insert_pos(old(history).deep_view(), entry@.timestamp_ms),
            entry@,
        ),
        final(history)@.len() == old(history)@.len() + 1,
        sorted_newest_first(old(history).deep_view()) ==> sorted_newest_first(
            final(history).deep_view(),
        ),
{
    let ghost h0 = history.deep_view();
    let ghost ts = entry@.timestamp_ms;
    proof {
        assert(h0.subrange(0, h0.len() as int) =~~= h0);
        assert(entry@.timestamp_ms == entry.timestamp_ms);
    }
    let mut i: usize = 0;
    while i < history.len() && history[i].timestamp_ms >= entry.timestamp_ms
        invariant
            i <= h0.len(),
            ts == entry.timestamp_ms,
            history.deep_view() == h0,
            insert_pos(h0, ts) == insert_pos(h0.subrange(i as int, h0.len() as int), ts) + i,
        decreases h0.len() - i,
    {
        proof {
            let tail = h0.subrange(i as int, h0.len() as int);
            assert(tail.len() > 0);
            assert(tail[0] == h0[i as int]);
            assert(history.deep_view()[i as int].timestamp_ms == history@[i as int]@.timestamp_ms);
            assert(history@[i as int]@.timestamp_ms == history@[i as int].timestamp_ms);
            assert(ts == entry.timestamp_ms);
            assert(tail[0].timestamp_ms >= ts);
            assert(insert_pos(tail, ts) == 1 + insert_pos(tail.drop_first(), ts));
            assert(tail.drop_first() =~~= h0.subrange(i + 1, h0.len() as int));
        }
        i += 1;
    }
    proof {
        let tail = h0.subrange(i as int, h0.len() as int);
        if i < h0.len() {
            assert(tail[0] == h0[i as int]);
            assert(history.deep_view()[i as int].timestamp_ms == history@[i as int]@.timestamp_ms);
            assert(insert_pos(tail, ts) == 0);
        } else {
            assert(tail.len() == 0);
        }
        assert(insert_pos(h0, ts) == i);
        lemma_insert_pos_bounds(h0, ts);
    }
    history.insert(i, entry);
    proof {
        assert(final(history).deep_view() =~~= h0.insert(i as int, entry@));
        if sorted_newest_first(h0) {
            let h1 = history.deep_view();
            assert forall|a: int, b: int| 0 <= a < b < h1.len() implies h1[a].timestamp_ms
                >= h1[b].timestamp_ms by {
                if a < i && b < i {
                } else if a < i && b == i {
                    assert(h1[a] == h0[a]);
                } else if a == i && b > i {
                    assert(h1[b] == h0[b - 1]);
                } else if a < i && b > i {
                    assert(h1[a] == h0[a]);
                    assert(h1[b] == h0[b - 1]);
                } else if a > i && b > i {
                    assert(h1[a] == h0[a - 1]);
                    assert(h1[b] == h0[b - 1]);
                }
            }
        }
    }
}

/// The storage layout. The directories themselves are chosen and created by
/// the caller; these functions give the file paths inside them.
pub struct Storage;

impl Storage {
    /// The flow-history file inside the content directory.
    pub fn get_history_path(content_dir: &str) -> (r: String)
        ensures
            r@ == content_dir@ + "/flow_history.json"@,
    {
        let mut r = String::from_str(content_dir);
        r.append("/flow_history.json");
        r
    }

    /// The settings file inside the application's configuration directory.
    pub fn get_settings_path(app_dir: &str) -> (r: String)
        ensures
            r@ == app_dir@ + "/settings.json"@,
    {
        let mut r = String::from_str(app_dir);
        r.append("/settings.json");
        r
    }
}

} // verus!
