//! The log record: what one log call carries.

use crate::level::LogLevel;
use crate::outside::{clone_value, unix_seconds};
use serde_json::Value;
use vstd::prelude::*;

verus! {

/// The extra fields of a record as a list of entries, each a key with its
/// value, in the order in which the keys were first added.
pub type Entries = Seq<(Seq<char>, Value)>;

/// The keys of a list of entries, in order.
pub open spec fn keys(entries: Entries) -> Seq<Seq<char>> {
    entries.map_values(|e: (Seq<char>, Value)| e.0)
}

/// Whether some entry has the key.
pub open spec fn has_key(entries: Entries, key: Seq<char>) -> bool {
    keys(entries).contains(key)
}

/// Whether no key stands in two entries.
pub open spec fn distinct_keys(entries: Entries) -> bool {
    keys(entries).no_duplicates()
}

/// The place of the entry with the key, where there is one.
pub open spec fn position(entries: Entries, key: Seq<char>) -> int {
    keys(entries).index_of(key)
}

/// The value that stands under the key.
pub open spec fn lookup(entries: Entries, key: Seq<char>) -> Option<Value> {
    if has_key(entries, key) {
        Some(entries[position(entries, key)].1)
    } else {
        None
    }
}

/// The entries after a write: the value replaces the one that stood under
/// the key, in its place; under a new key it comes last.
pub open spec fn put(entries: Entries, key: Seq<char>, value: Value) -> Entries {
    if has_key(entries, key) {
        entries.update(position(entries, key), (key, value))
    } else {
        entries.push((key, value))
    }
}

/// What a record is: the model that the contracts speak of.
pub struct LogRecordView {
    pub level: LogLevel,
    pub message: Seq<char>,
    pub timestamp: u64,
    pub fields: Entries,
    pub request_id: Option<Seq<char>>,
}

/// The model of the stored entries: each key by its characters.
pub open spec fn entries_of(stored: Seq<(String, Value)>) -> Entries {
    stored.map_values(|e: (String, Value)| (e.0@, e.1))
}

/// A structured log record containing all log information.
#[derive(Debug)]
pub struct LogRecord {
    level: LogLevel,
    message: String,
    timestamp: u64,
    fields: Vec<(String, Value)>,
    request_id: Option<String>,
}

impl View for LogRecord {
    type V = LogRecordView;

    closed spec fn view(&self) -> LogRecordView {
        LogRecordView {
            level: self.level,
            message: self.message@,
            timestamp: self.timestamp,
            fields: entries_of(self.fields@),
            request_id: match self.request_id {
                Some(id) => Some(id@),
                None => None,
            },
        }
    }
}

impl Clone for LogRecord {
    /// Copying a record duplicates all of it.
    fn clone(&self) -> (r: LogRecord)
        ensures
            r@ == self@,
    {
        proof {
            use_type_invariant(self);
        }
        let mut fields: Vec<(String, Value)> = Vec::new();
        let mut i: usize = 0;
        while i < self.fields.len()
            invariant
                i <= self.fields.len(),
                fields@.len() == i,
                forall|j: int|
                    0 <= j < i ==> (#[trigger] fields@[j]).0@ == self.fields@[j].0@ && fields@[j].1
                        == self.fields@[j].1,
            decreases self.fields.len() - i,
        {
            let entry = &self.fields[i];
            fields.push((entry.0.clone(), clone_value(&entry.1)));
            i += 1;
        }
        assert(entries_of(fields@) =~= entries_of(self.fields@));
        let request_id = match &self.request_id {
            Some(id) => Some(id.clone()),
            None => None,
        };
        LogRecord {
            level: self.level,
            message: self.message.clone(),
            timestamp: self.timestamp,
            fields,
            request_id,
        }
    }
}

impl LogRecord {
    #[verifier::type_invariant]
    spec fn keys_are_distinct(self) -> bool {
        distinct_keys(entries_of(self.fields@))
    }

    /// Create a record with the given level, message and timestamp, without
    /// fields and without a request id.
    pub fn at_time(level: LogLevel, message: &str, timestamp: u64) -> (r: LogRecord)
        ensures
            r@ == (LogRecordView {
                level,
                message: message@,
                timestamp,
                fields: Seq::empty(),
                request_id: None,
            }),
    {
        let r = LogRecord {
            level,
            message: message.to_owned(),
            timestamp,
            fields: Vec::new(),
            request_id: None,
        };
        assert(r@.fields =~= Seq::empty());
        r
    }

    /// Create a new log record with the given level and message, stamped with
    /// the time of the call in seconds since the epoch: whatever the clock of
    /// the host says, and 0 where that clock stands before the epoch.
    pub fn new(level: LogLevel, message: &str) -> (r: LogRecord)
        ensures
            r@.level == level,
            r@.message == message@,
            r@.fields == Seq::<(Seq<char>, Value)>::empty(),
            r@.request_id is None,
    {
        let timestamp = match unix_seconds() {
            Some(seconds) => seconds,
            None => 0,
        };
        LogRecord::at_time(level, message, timestamp)
    }

    /// Get the log level.
    pub fn level(&self) -> (r: LogLevel)
        ensures
            r == self@.level,
    {
        self.level
    }

    /// Get the log message.
    pub fn message(&self) -> (r: &str)
        ensures
            r@ == self@.message,
    {
        self.message.as_str()
    }

    /// Get the timestamp.
    pub fn timestamp(&self) -> (r: u64)
        ensures
            r == self@.timestamp,
    {
        self.timestamp
    }

    /// Get the request id if present.
    pub fn request_id(&self) -> (r: Option<&str>)
        ensures
            match r {
                Some(id) => self@.request_id == Some(id@),
                None => self@.request_id is None,
            },
    {
        match &self.request_id {
            Some(id) => Some(id.as_str()),
            None => None,
        }
    }

    /// Get the additional fields: one entry for each key, in the order in
    /// which the keys were first added.
    pub fn fields(&self) -> (r: &Vec<(String, Value)>)
        ensures
            entries_of(r@) == self@.fields,
            distinct_keys(self@.fields),
            r@.len() == keys(self@.fields).to_set().len(),
    {
        proof {
            use_type_invariant(self);
            lemma_as_many_entries_as_keys(self@.fields);
        }
        &self.fields
    }

    /// The place of the entry with the key, if there is one.
    fn find(&self, key: &str) -> (r: Option<usize>)
        ensures
            match r {
                Some(i) => i < self.fields.len() && has_key(self@.fields, key@) && position(
                    self@.fields,
                    key@,
                ) == i,
                None => !has_key(self@.fields, key@),
            },
    {
        proof {
            use_type_invariant(self);
        }
        let owned = key.to_owned();
        let mut i: usize = 0;
        while i < self.fields.len()
            invariant
                i <= self.fields.len(),
                owned@ == key@,
                distinct_keys(entries_of(self.fields@)),
                forall|j: int| 0 <= j < i ==> #[trigger] keys(entries_of(self.fields@))[j] != key@,
            decreases self.fields.len() - i,
        {
            if self.fields[i].0 == owned {
                proof {
                    lemma_position_of_key(entries_of(self.fields@), i as int);
                }
                return Some(i);
            }
            i += 1;
        }
        None
    }

    /// Get the value that stands under a key, if there is one.
    pub fn field(&self, key: &str) -> (r: Option<&Value>)
        ensures
            match r {
                Some(value) => lookup(self@.fields, key@) == Some(*value),
                None => lookup(self@.fields, key@) is None,
            },
    {
        match self.find(key) {
            Some(i) => Some(&self.fields[i].1),
            None => None,
        }
    }

    /// Add a field to the log record. A value under a key that the record
    /// already holds replaces the earlier value.
    pub fn add_field(&mut self, key: &str, value: Value)
        ensures
            final(self)@ == (LogRecordView {
                fields: put(old(self)@.fields, key@, value),
                ..old(self)@
            }),
            distinct_keys(final(self)@.fields),
    {
        proof {
            use_type_invariant(&*self);
            lemma_put_keeps_keys_distinct(self@.fields, key@, value);
        }
        let found = self.find(key);
        let mut fields: Vec<(String, Value)> = Vec::new();
        core::mem::swap(&mut self.fields, &mut fields);
        match found {
            Some(i) => {
                fields.set(i, (key.to_owned(), value));
            },
            None => {
                fields.push((key.to_owned(), value));
            },
        }
        assert(entries_of(fields@) =~= put(old(self)@.fields, key@, value));
        self.fields = fields;
    }

    /// Add a request id to the log record.
    pub fn with_request_id(self, request_id: String) -> (r: LogRecord)
        ensures
            r@ == (LogRecordView { request_id: Some(request_id@), ..self@ }),
    {
        proof {
            use_type_invariant(&self);
        }
        LogRecord {
            level: self.level,
            message: self.message,
            timestamp: self.timestamp,
            fields: self.fields,
            request_id: Some(request_id),
        }
    }
}

/// Where distinct keys stand, the entry at a place is the one that is found
/// under its key.
pub proof fn lemma_position_of_key(entries: Entries, i: int)
    requires
        distinct_keys(entries),
        0 <= i < entries.len(),
    ensures
        has_key(entries, entries[i].0),
        position(entries, entries[i].0) == i,
        lookup(entries, entries[i].0) == Some(entries[i].1),
{
    let ks = keys(entries);
    assert(ks[i] == entries[i].0);
    assert(ks.contains(entries[i].0));
    let p = ks.index_of(entries[i].0);
    assert(0 <= p < ks.len() && ks[p] == entries[i].0);
}

/// A write keeps the keys distinct.
pub proof fn lemma_put_keeps_keys_distinct(entries: Entries, key: Seq<char>, value: Value)
    requires
        distinct_keys(entries),
    ensures
        distinct_keys(put(entries, key, value)),
{
    let after = put(entries, key, value);
    let ks = keys(entries);
    if has_key(entries, key) {
        let p = position(entries, key);
        assert(0 <= p < ks.len() && ks[p] == key);
        assert(keys(after) =~= ks);
    } else {
        assert(keys(after) =~= ks.push(key));
        assert forall|i: int, j: int|
            0 <= i < keys(after).len() && 0 <= j < keys(after).len() && i != j implies keys(
            after,
        )[i] != keys(after)[j] by {
            if i < ks.len() && j < ks.len() {
            } else if i < ks.len() {
                assert(ks.contains(ks[i]));
            } else {
                assert(ks.contains(ks[j]));
            }
        }
    }
}

/// After a write the key holds the value written, and every other key holds
/// what it held before.
pub proof fn lemma_lookup_after_put(
    entries: Entries,
    key: Seq<char>,
    value: Value,
    other: Seq<char>,
)
    requires
        distinct_keys(entries),
    ensures
        lookup(put(entries, key, value), key) == Some(value),
        other != key ==> lookup(put(entries, key, value), other) == lookup(entries, other),
{
    let after = put(entries, key, value);
    let ks = keys(entries);
    lemma_put_keeps_keys_distinct(entries, key, value);
    if has_key(entries, key) {
        let p = position(entries, key);
        assert(0 <= p < ks.len() && ks[p] == key);
        assert(keys(after) =~= ks);
        lemma_position_of_key(after, p);
        if other != key && has_key(entries, other) {
            let q = position(entries, other);
            assert(0 <= q < ks.len() && ks[q] == other);
            lemma_position_of_key(after, q);
        }
    } else {
        assert(keys(after) =~= ks.push(key));
        lemma_position_of_key(after, entries.len() as int);
        if other != key {
            if has_key(entries, other) {
                let q = position(entries, other);
                assert(0 <= q < ks.len() && ks[q] == other);
                lemma_position_of_key(after, q);
            } else if has_key(after, other) {
                let q = position(after, other);
                assert(0 <= q < keys(after).len() && keys(after)[q] == other);
                assert(ks[q] == other);
            }
        }
    }
}

/// Writing under one key twice keeps only the later value: the entries are
/// those that the later write alone would have left.
pub proof fn lemma_put_twice_keeps_latest(
    entries: Entries,
    key: Seq<char>,
    first: Value,
    second: Value,
)
    requires
        distinct_keys(entries),
    ensures
        put(put(entries, key, first), key, second) == put(entries, key, second),
        put(put(entries, key, first), key, second).len() == put(entries, key, first).len(),
{
    let once = put(entries, key, first);
    let ks = keys(entries);
    lemma_put_keeps_keys_distinct(entries, key, first);
    if has_key(entries, key) {
        let p = position(entries, key);
        assert(0 <= p < ks.len() && ks[p] == key);
        assert(keys(once) =~= ks);
        lemma_position_of_key(once, p);
        assert(put(once, key, second) =~= put(entries, key, second));
    } else {
        assert(keys(once) =~= ks.push(key));
        lemma_position_of_key(once, entries.len() as int);
        assert(put(once, key, second) =~= put(entries, key, second));
    }
}

/// The entries after a run of writes, made one after the other.
pub open spec fn put_all(entries: Entries, writes: Entries) -> Entries
    decreases writes.len(),
{
    if writes.len() == 0 {
        entries
    } else {
        put(put_all(entries, writes.drop_last()), writes.last().0, writes.last().1)
    }
}

/// A record that started without fields holds one entry for each distinct
/// key that was written: as many entries as there are different keys among
/// the writes, however often each was written.
pub proof fn lemma_one_entry_for_each_key(writes: Entries)
    ensures
        distinct_keys(put_all(Seq::empty(), writes)),
        keys(put_all(Seq::empty(), writes)).to_set() == keys(writes).to_set(),
        put_all(Seq::empty(), writes).len() == keys(writes).to_set().len(),
    decreases writes.len(),
{
    let start: Entries = Seq::empty();
    let after = put_all(start, writes);
    if writes.len() == 0 {
        assert(keys(after) =~= Seq::<Seq<char>>::empty());
        assert(keys(after).to_set() =~= keys(writes).to_set());
    } else {
        let before = put_all(start, writes.drop_last());
        let key = writes.last().0;
        let value = writes.last().1;
        lemma_one_entry_for_each_key(writes.drop_last());
        lemma_put_keeps_keys_distinct(before, key, value);
        assert(keys(writes) =~= keys(writes.drop_last()).push(key));
        keys(writes.drop_last()).lemma_push_to_set_commute(key);
        if has_key(before, key) {
            let p = position(before, key);
            assert(0 <= p < keys(before).len() && keys(before)[p] == key);
            assert(keys(after) =~= keys(before));
            assert(keys(before).to_set().contains(key));
            assert(keys(after).to_set() =~= keys(writes).to_set());
        } else {
            assert(keys(after) =~= keys(before).push(key));
            keys(before).lemma_push_to_set_commute(key);
            assert(keys(after).to_set() =~= keys(writes).to_set());
        }
    }
    lemma_as_many_entries_as_keys(after);
}

/// Where the keys are distinct there are as many entries as keys.
pub proof fn lemma_as_many_entries_as_keys(entries: Entries)
    requires
        distinct_keys(entries),
    ensures
        entries.len() == keys(entries).to_set().len(),
{
    keys(entries).unique_seq_to_set();
}

} // verus!
