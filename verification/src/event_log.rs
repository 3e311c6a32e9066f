use vstd::prelude::*;

verus! {

/// One entry of the global event list: its position (counted from 1), the
/// name of the event and the ledger time at which it was emitted.
#[derive(Clone, Debug, PartialEq, Eq)]
pub struct EventRecord {
    pub index: u64,
    pub name: String,
    pub timestamp: u64,
}

/// The mathematical value of an [`EventRecord`].
pub struct RecordView {
    pub index: u64,
    pub name: Seq<char>,
    pub timestamp: u64,
}

impl View for EventRecord {
    type V = RecordView;

    open spec fn view(&self) -> RecordView {
        RecordView { index: self.index, name: self.name@, timestamp: self.timestamp }
    }
}

/// Why an event could not be recorded.
#[derive(Clone, Copy, Debug, PartialEq, Eq)]
pub enum EventLogError {
    /// The event counter already holds `u64::MAX`: one more event cannot be
    /// numbered.
    CounterOverflow,
}

/// The global event tracker as it lies in persistent storage: the counter of
/// emitted events and the list of their records. The two are kept in separate
/// storage entries, so a log read back from storage is not assumed to be
/// consistent; [`LogView::wf`] says when it is.
pub struct EventLog {
    count: u64,
    records: Vec<EventRecord>,
}

/// The mathematical value of an [`EventLog`].
pub struct LogView {
    pub count: nat,
    pub records: Seq<RecordView>,
}

impl LogView {
    /// The counter equals the number of records, and the records are
    /// numbered 1, 2, 3, ... in order.
    pub open spec fn wf(self) -> bool {
        &&& self.count == self.records.len()
        &&& forall|i: int| 0 <= i < self.records.len() ==> #[trigger] self.records[i].index == i + 1
    }

    /// The log after one more event named `name` was emitted at time `now`:
    /// the counter grows by one and a record carrying the new counter value
    /// is appended.
    pub open spec fn recorded(self, name: Seq<char>, now: u64) -> LogView {
        LogView {
            count: self.count + 1,
            records: self.records.push(
                RecordView { index: (self.count + 1) as u64, name: name, timestamp: now },
            ),
        }
    }

    /// The log that a contract holds after the events `evts` (each a name and
    /// a time) were emitted, in order, from a fresh contract.
    pub open spec fn replay(evts: Seq<(Seq<char>, u64)>) -> LogView
        decreases evts.len(),
    {
        if evts.len() == 0 {
            LogView { count: 0, records: Seq::empty() }
        } else {
            LogView::replay(evts.drop_last()).recorded(evts.last().0, evts.last().1)
        }
    }
}

impl View for EventLog {
    type V = LogView;

    closed spec fn view(&self) -> LogView {
        LogView { count: self.count as nat, records: self.records@.map_values(|r: EventRecord| r@) }
    }
}

impl EventLog {
    /// The log of a contract that has emitted no event yet.
    pub fn new() -> (log: EventLog)
        ensures
            log@.count == 0,
            log@.records == Seq::<RecordView>::empty(),
            log@.wf(),
    {
        let log = EventLog { count: 0, records: Vec::new() };
        assert(log@.records =~= Seq::<RecordView>::empty());
        log
    }

    /// The log as read from the two storage entries: a missing counter reads
    /// as 0 and a missing list as the empty list.
    pub fn load(stored_count: Option<u64>, stored_records: Option<Vec<EventRecord>>) -> (log:
        EventLog)
        ensures
            log@.count == match stored_count {
                Some(c) => c as nat,
                None => 0,
            },
            log@.records == match stored_records {
                Some(v) => v@.map_values(|r: EventRecord| r@),
                None => Seq::<RecordView>::empty(),
            },
    {
        let count = match stored_count {
            Some(c) => c,
            None => 0,
        };
        let records = match stored_records {
            Some(v) => v,
            None => Vec::new(),
        };
        let log = EventLog { count, records };
        assert(stored_records is None ==> log@.records =~= Seq::<RecordView>::empty());
        log
    }

    /// The number of events ever emitted, as the counter holds it.
    pub fn count(&self) -> (n: u64)
        ensures
            n == self@.count,
    {
        self.count
    }

    /// The full list of event records.
    pub fn records(&self) -> (s: &[EventRecord])
        ensures
            s@.map_values(|r: EventRecord| r@) == self@.records,
    {
        self.records.as_slice()
    }

    /// The counter and the list, to be written back to storage.
    pub fn into_parts(self) -> (parts: (u64, Vec<EventRecord>))
        ensures
            parts.0 == self@.count,
            parts.1@.map_values(|r: EventRecord| r@) == self@.records,
    {
        (self.count, self.records)
    }

    /// Counts one more event named `name`, emitted at ledger time `now`, and
    /// appends its record to the list. Returns the event's index: the
    /// previous counter plus one (1 for the first event). Fails, changing
    /// nothing, when the counter cannot grow.
    pub fn record_event(&mut self, name: &str, now: u64) -> (r: Result<u64, EventLogError>)
        ensures
            old(self)@.count < u64::MAX ==> r == Ok::<u64, EventLogError>(
                (old(self)@.count + 1) as u64,
            ) && final(self)@ == old(self)@.recorded(name@, now),
            old(self)@.count >= u64::MAX ==> r == Err::<u64, EventLogError>(
                EventLogError::CounterOverflow,
            ) && final(self)@ == old(self)@,
    {
        if self.count == u64::MAX {
            return Err(EventLogError::CounterOverflow);
        }
        let new_index = self.count + 1;
        self.count = new_index;
        let ghost before = self.records@;
        let rec = EventRecord { index: new_index, name: name.to_owned(), timestamp: now };
        self.records.push(rec);
        assert(self.records@.map_values(|r: EventRecord| r@) =~= before.map_values(
            |r: EventRecord| r@,
        ).push(RecordView { index: new_index, name: name@, timestamp: now }));
        Ok(new_index)
    }
}

/// Recording an event keeps a well-formed log well formed: the counter still
/// equals the number of records, and the records stay numbered 1, 2, 3, ...
pub proof fn lemma_record_keeps_wf(log: LogView, name: Seq<char>, now: u64)
    requires
        log.wf(),
        log.count < u64::MAX,
    ensures
        log.recorded(name, now).wf(),
{
    let after = log.recorded(name, now);
    assert forall|i: int| 0 <= i < after.records.len() implies #[trigger] after.records[i].index
        == i + 1 by {
        if i < log.records.len() {
            assert(after.records[i] == log.records[i]);
        }
    }
}

/// The log is append-only: recording an event leaves every earlier record as
/// it was and adds exactly one record at the end, which carries the new
/// counter value, the event's name and its time.
pub proof fn lemma_record_appends(log: LogView, name: Seq<char>, now: u64)
    ensures
        log.recorded(name, now).count == log.count + 1,
        log.recorded(name, now).records.len() == log.records.len() + 1,
        forall|i: int|
            0 <= i < log.records.len() ==> #[trigger] log.recorded(name, now).records[i]
                == log.records[i],
        log.recorded(name, now).records.last() == (RecordView {
            index: (log.count + 1) as u64,
            name: name,
            timestamp: now,
        }),
{
}

/// From a fresh contract, the log holds exactly the emitted events, in
/// emission order, the i-th (from 0) numbered i + 1, and its counter equals
/// the number of events emitted.
pub proof fn lemma_replay_numbers_events(evts: Seq<(Seq<char>, u64)>)
    requires
        evts.len() <= u64::MAX,
    ensures
        LogView::replay(evts).wf(),
        LogView::replay(evts).count == evts.len(),
        LogView::replay(evts).records.len() == evts.len(),
        forall|i: int|
            0 <= i < evts.len() ==> #[trigger] LogView::replay(evts).records[i] == (RecordView {
                index: (i + 1) as u64,
                name: evts[i].0,
                timestamp: evts[i].1,
            }),
    decreases evts.len(),
{
    if evts.len() > 0 {
        let prefix = evts.drop_last();
        lemma_replay_numbers_events(prefix);
        let before = LogView::replay(prefix);
        lemma_record_keeps_wf(before, evts.last().0, evts.last().1);
        assert forall|i: int| 0 <= i < evts.len() implies #[trigger] LogView::replay(
            evts,
        ).records[i] == (RecordView {
            index: (i + 1) as u64,
            name: evts[i].0,
            timestamp: evts[i].1,
        }) by {
            if i < prefix.len() {
                assert(prefix[i] == evts[i]);
            }
        }
    }
}

} // verus!
