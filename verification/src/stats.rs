//! Trigger statistics: for each message id a count, the time of the last
//! trigger and a bounded history of trigger times.

use vstd::prelude::*;
use crate::document::{
    build, clone_list, distinct_names, entries_view, lemma_build_lookup, lemma_find_key,
    lemma_lookup_set_key, list_view, put_field, set_key, DocView, Document, Numeral,
};

verus! {

/// The most history entries that are kept for one message.
pub const HISTORY_LIMIT: usize = 50;

/// One trigger of a message, by its time in milliseconds since the epoch.
#[derive(Clone, Copy, Debug, PartialEq, Eq)]
pub struct TriggerHistory {
    pub timestamp: u64,
}

/// The mathematical value of a [`MessageStats`].
pub struct MessageStatsView {
    pub message_id: Seq<char>,
    pub trigger_count: u32,
    pub last_triggered: u64,
    pub history: Seq<TriggerHistory>,
}

/// The statistics of one message, as a reader of the state sees them.
#[derive(Debug, PartialEq, Eq)]
pub struct MessageStats {
    pub message_id: String,
    pub trigger_count: u32,
    pub last_triggered: u64,
    pub history: Vec<TriggerHistory>,
}

impl View for MessageStats {
    type V = MessageStatsView;

    open spec fn view(&self) -> MessageStatsView {
        MessageStatsView {
            message_id: self.message_id@,
            trigger_count: self.trigger_count,
            last_triggered: self.last_triggered,
            history: self.history@,
        }
    }
}

/// The history entry of a trigger at the given time.
pub open spec fn history_mark(now: u64) -> DocView {
    DocView::Record(build(seq![("timestamp"@, Some(DocView::Number(Numeral::Unsigned(now))))]))
}

/// The names of a statistics entry, with their values.
pub open spec fn stats_fields(
    id: Seq<char>,
    count: u64,
    now: u64,
    history: Seq<DocView>,
) -> Seq<(Seq<char>, Option<DocView>)> {
    seq![
        ("history"@, Some(DocView::List(history))),
        ("lastTriggered"@, Some(DocView::Number(Numeral::Unsigned(now)))),
        ("messageId"@, Some(DocView::Text(id))),
        ("triggerCount"@, Some(DocView::Number(Numeral::Unsigned(count)))),
    ]
}

/// The statistics entry of a message.
pub open spec fn stats_entry(
    id: Seq<char>,
    count: u64,
    now: u64,
    history: Seq<DocView>,
) -> DocView {
    DocView::Record(build(stats_fields(id, count, now, history)))
}

/// The count that an entry records: zero where there is no entry or it holds
/// no count.
pub open spec fn recorded_count(entry: Option<DocView>) -> u64 {
    match entry {
        Some(e) => match e.get("triggerCount"@) {
            Some(DocView::Number(Numeral::Unsigned(n))) => n,
            _ => 0,
        },
        None => 0,
    }
}

/// The history that an entry records: empty where there is no entry or it
/// holds no list.
pub open spec fn recorded_history(entry: Option<DocView>) -> Seq<DocView> {
    match entry {
        Some(e) => match e.get("history"@) {
            Some(DocView::List(items)) => items,
            _ => Seq::empty(),
        },
        None => Seq::empty(),
    }
}

/// A history cut down to its last `HISTORY_LIMIT` entries.
pub open spec fn capped(history: Seq<DocView>) -> Seq<DocView> {
    if history.len() > HISTORY_LIMIT {
        history.subrange(history.len() - HISTORY_LIMIT, history.len() as int)
    } else {
        history
    }
}

/// The count after one more trigger. A count that cannot grow stays.
pub open spec fn next_count(count: u64) -> u64 {
    if count < u64::MAX {
        (count + 1) as u64
    } else {
        count
    }
}

/// The entry of a message after one more trigger at time `now`.
pub open spec fn triggered_entry(entry: Option<DocView>, id: Seq<char>, now: u64) -> DocView {
    stats_entry(
        id,
        next_count(recorded_count(entry)),
        now,
        capped(recorded_history(entry).push(history_mark(now))),
    )
}

/// The statistics after one more trigger of the message `id` at time `now`:
/// its entry is replaced by one with the count raised, the time noted and
/// added to the history, and the history cut to its last entries. Statistics
/// that are no record become a record with this one entry.
pub open spec fn record_trigger(stats: DocView, id: Seq<char>, now: u64) -> DocView {
    let fresh = triggered_entry(stats.get(id), id, now);
    match stats {
        DocView::Record(entries) => DocView::Record(set_key(entries, id, fresh)),
        _ => DocView::Record(seq![(id, fresh)]),
    }
}

/// The statistics after a run of triggers of one message, at the given times.
pub open spec fn record_triggers(stats: DocView, id: Seq<char>, times: Seq<u64>) -> DocView
    decreases times.len(),
{
    if times.len() == 0 {
        stats
    } else {
        record_trigger(record_triggers(stats, id, times.drop_last()), id, times.last())
    }
}

/// The names of a statistics entry are pairwise different, so each can be
/// read back.
pub proof fn lemma_stats_entry_reads(id: Seq<char>, count: u64, now: u64, history: Seq<DocView>)
    ensures
        recorded_count(Some(stats_entry(id, count, now, history))) == count,
        recorded_history(Some(stats_entry(id, count, now, history))) == history,
        stats_entry(id, count, now, history).get("messageId"@) == Some(DocView::Text(id)),
        stats_entry(id, count, now, history).get("lastTriggered"@) == Some(
            DocView::Number(Numeral::Unsigned(now)),
        ),
{
    reveal_strlit("history");
    reveal_strlit("lastTriggered");
    reveal_strlit("messageId");
    reveal_strlit("triggerCount");
    assert("history"@.len() == 7 && "lastTriggered"@.len() == 13);
    assert("messageId"@.len() == 9 && "triggerCount"@.len() == 12);
    let f = stats_fields(id, count, now, history);
    assert(distinct_names(f));
    lemma_build_lookup(f, 0);
    lemma_build_lookup(f, 1);
    lemma_build_lookup(f, 2);
    lemma_build_lookup(f, 3);
}

/// After a trigger the message has the entry that `triggered_entry` gives,
/// and every other message has the entry it had.
pub proof fn lemma_record_trigger_get(stats: DocView, id: Seq<char>, now: u64, other: Seq<char>)
    ensures
        record_trigger(stats, id, now).get(id) == Some(triggered_entry(stats.get(id), id, now)),
        other != id ==> record_trigger(stats, id, now).get(other) == stats.get(other),
{
    let fresh = triggered_entry(stats.get(id), id, now);
    match stats {
        DocView::Record(entries) => {
            lemma_lookup_set_key(entries, id, fresh, id);
            lemma_lookup_set_key(entries, id, fresh, other);
        },
        _ => {
            let single = seq![(id, fresh)];
            lemma_find_key(single, id);
            lemma_find_key(single, other);
        },
    }
}

/// A trigger raises the count of the message by one, as long as the count can
/// grow, and leaves at most `HISTORY_LIMIT` history entries, the newest last.
pub proof fn lemma_record_trigger_entry(stats: DocView, id: Seq<char>, now: u64)
    ensures
        ({
            let before = stats.get(id);
            let after = record_trigger(stats, id, now).get(id);
            &&& recorded_count(after) == next_count(recorded_count(before))
            &&& recorded_history(after) == capped(recorded_history(before).push(history_mark(now)))
            &&& 1 <= recorded_history(after).len() <= HISTORY_LIMIT
            &&& recorded_history(after).last() == history_mark(now)
            &&& recorded_history(after).len() == if recorded_history(before).len()
                < HISTORY_LIMIT {
                recorded_history(before).len() + 1
            } else {
                HISTORY_LIMIT as nat
            }
        }),
{
    lemma_record_trigger_get(stats, id, now, id);
    let entry = stats.get(id);
    lemma_stats_entry_reads(
        id,
        next_count(recorded_count(entry)),
        now,
        capped(recorded_history(entry).push(history_mark(now))),
    );
}

/// After any run of at least one trigger of a message, its history has at
/// most `HISTORY_LIMIT` entries, and its count has grown by the number of
/// triggers, as long as that fits the count.
pub proof fn lemma_record_triggers(stats: DocView, id: Seq<char>, times: Seq<u64>)
    requires
        times.len() >= 1,
    ensures
        ({
            let before = stats.get(id);
            let after = record_triggers(stats, id, times).get(id);
            &&& recorded_history(after).len() <= HISTORY_LIMIT
            &&& recorded_history(after).len() == if recorded_history(before).len() + times.len()
                <= HISTORY_LIMIT {
                recorded_history(before).len() + times.len()
            } else {
                HISTORY_LIMIT as nat
            }
            &&& recorded_count(before) + times.len() <= u64::MAX ==> recorded_count(after)
                == recorded_count(before) + times.len()
        }),
    decreases times.len(),
{
    let front = times.drop_last();
    let middle = record_triggers(stats, id, front);
    lemma_record_trigger_entry(middle, id, times.last());
    if front.len() >= 1 {
        lemma_record_triggers(stats, id, front);
    }
}

/// Cuts a history down to its last `HISTORY_LIMIT` entries.
pub fn cap_history(history: Vec<Document>) -> (kept: Vec<Document>)
    ensures
        list_view(kept@) == capped(list_view(history@)),
{
    let mut history = history;
    if history.len() > HISTORY_LIMIT {
        history.split_off(history.len() - HISTORY_LIMIT)
    } else {
        history
    }
}

/// Notes one more trigger of the message `id` at time `now` in the
/// statistics: see [`record_trigger`].
pub fn note_trigger(stats: &mut Document, id: &str, now: u64)
    ensures
        final(stats)@ == record_trigger(old(stats)@, id@, now),
{
    let (count, mut history) = match stats.get(id) {
        Some(entry) => {
            let count = match entry.get("triggerCount") {
                Some(recorded) => match recorded.as_u64() {
                    Some(n) => n,
                    None => 0,
                },
                None => 0,
            };
            let history = match entry.get("history") {
                Some(recorded) => match recorded.as_array() {
                    Some(items) => clone_list(items),
                    None => Vec::new(),
                },
                None => Vec::new(),
            };
            (count, history)
        },
        None => (0, Vec::new()),
    };
    assert(list_view(history@) =~= recorded_history(old(stats)@.get(id@)));
    let count = if count < u64::MAX {
        count + 1
    } else {
        count
    };
    let ghost before = list_view(history@);
    history.push(TriggerHistory { timestamp: now }.to_document());
    assert(list_view(history@) =~= before.push(history_mark(now)));
    let history = cap_history(history);

    let mut e: Vec<(String, Document)> = Vec::new();
    let ghost mut f: Seq<(Seq<char>, Option<DocView>)> = Seq::empty();
    assert(entries_view(e@) =~= build(f));
    put_field(&mut e, Ghost(f), "history", Some(Document::List(history)));
    proof {
        f = f.push(("history"@, Some(DocView::List(list_view(history@)))));
    }
    put_field(&mut e, Ghost(f), "lastTriggered", Some(Document::unsigned(now)));
    proof {
        f = f.push(("lastTriggered"@, Some(DocView::Number(Numeral::Unsigned(now)))));
    }
    put_field(&mut e, Ghost(f), "messageId", Some(Document::text(id)));
    proof {
        f = f.push(("messageId"@, Some(DocView::Text(id@))));
    }
    put_field(&mut e, Ghost(f), "triggerCount", Some(Document::unsigned(count)));
    proof {
        f = f.push(("triggerCount"@, Some(DocView::Number(Numeral::Unsigned(count)))));
        assert(f =~= stats_fields(id@, count, now, list_view(history@)));
    }
    stats.insert(String::from_str(id), Document::Record(e));
}

impl TriggerHistory {
    /// Writes the trigger as a history entry.
    pub fn to_document(&self) -> (doc: Document)
        ensures
            doc@ == history_mark(self.timestamp),
    {
        let mut e: Vec<(String, Document)> = Vec::new();
        let ghost f: Seq<(Seq<char>, Option<DocView>)> = Seq::empty();
        assert(entries_view(e@) =~= build(f));
        put_field(&mut e, Ghost(f), "timestamp", Some(Document::unsigned(self.timestamp)));
        assert(f.push(("timestamp"@, Some(DocView::Number(Numeral::Unsigned(self.timestamp)))))
            =~= seq![("timestamp"@, Some(DocView::Number(Numeral::Unsigned(self.timestamp))))]);
        Document::Record(e)
    }

    /// The trigger that a history entry denotes: the entry must hold
    /// `timestamp` as a non-negative integer.
    pub open spec fn decode(doc: DocView) -> Option<TriggerHistory> {
        match doc.get("timestamp"@) {
            Some(DocView::Number(Numeral::Unsigned(n))) => Some(TriggerHistory { timestamp: n }),
            _ => None,
        }
    }

    /// Reads a trigger from its history entry.
    pub fn from_document(doc: &Document) -> (read: Option<TriggerHistory>)
        ensures
            read == TriggerHistory::decode(doc@),
    {
        match doc.get("timestamp") {
            Some(Document::Number(Numeral::Unsigned(n))) => Some(TriggerHistory { timestamp: *n }),
            _ => None,
        }
    }
}

impl MessageStatsView {
    /// The statistics that an entry denotes: it must hold `messageId` as a
    /// text, `triggerCount` as an integer that fits 32 bits, `lastTriggered`
    /// as a non-negative integer and `history` as a list of triggers.
    pub open spec fn decode(doc: DocView) -> Option<MessageStatsView> {
        match (
            doc.get("messageId"@),
            doc.get("triggerCount"@),
            doc.get("lastTriggered"@),
            doc.get("history"@),
        ) {
            (
                Some(DocView::Text(id)),
                Some(DocView::Number(Numeral::Unsigned(count))),
                Some(DocView::Number(Numeral::Unsigned(last))),
                Some(DocView::List(items)),
            ) => if count <= u32::MAX && forall|i: int|
                0 <= i < items.len() ==> TriggerHistory::decode(#[trigger] items[i]) is Some {
                Some(
                    MessageStatsView {
                        message_id: id,
                        trigger_count: count as u32,
                        last_triggered: last,
                        history: Seq::new(
                            items.len(),
                            |i: int| TriggerHistory::decode(items[i])->0,
                        ),
                    },
                )
            } else {
                None
            },
            _ => None,
        }
    }
}

impl MessageStats {
    /// Reads the statistics of one message from its entry.
    pub fn from_document(doc: &Document) -> (read: Option<MessageStats>)
        ensures
            match read {
                Some(stats) => MessageStatsView::decode(doc@) == Some(stats@),
                None => MessageStatsView::decode(doc@) is None,
            },
    {
        let message_id = match doc.get("messageId") {
            Some(Document::Text(s)) => s.clone(),
            _ => { return None; },
        };
        let count = match doc.get("triggerCount") {
            Some(Document::Number(Numeral::Unsigned(n))) => *n,
            _ => { return None; },
        };
        let last_triggered = match doc.get("lastTriggered") {
            Some(Document::Number(Numeral::Unsigned(n))) => *n,
            _ => { return None; },
        };
        let items = match doc.get("history") {
            Some(Document::List(items)) => items,
            _ => { return None; },
        };
        if count > 0xffff_ffff {
            return None;
        }
        let mut history: Vec<TriggerHistory> = Vec::new();
        let mut i: usize = 0;
        while i < items.len()
            invariant
                i <= items.len(),
                doc@.get("history"@) == Some(DocView::List(list_view(items@))),
                history@.len() == i,
                forall|j: int|
                    0 <= j < i ==> TriggerHistory::decode(#[trigger] list_view(items@)[j]) == Some(
                        history@[j],
                    ),
            decreases items.len() - i,
        {
            match TriggerHistory::from_document(&items[i]) {
                Some(mark) => {
                    history.push(mark);
                },
                None => {
                    assert(TriggerHistory::decode(list_view(items@)[i as int]) is None);
                    return None;
                },
            }
            i += 1;
        }
        assert(MessageStatsView::decode(doc@)->0.history =~= history@);
        Some(MessageStats { message_id, trigger_count: count as u32, last_triggered, history })
    }
}

/// The statistics of the message `id`, where the statistics hold an entry for
/// it that can be read.
pub fn read_message_stats(stats: &Document, id: &str) -> (read: Option<MessageStats>)
    ensures
        match read {
            Some(s) => stats@.get(id@) matches Some(entry) && MessageStatsView::decode(entry)
                == Some(s@),
            None => stats@.get(id@) matches Some(entry) ==> MessageStatsView::decode(entry)
                is None,
        },
{
    match stats.get(id) {
        Some(entry) => MessageStats::from_document(entry),
        None => None,
    }
}

} // verus!
