//! The JSON format: one JSON object for each record, on one line.

use crate::outside::{json_string, json_text, string_to_json, value_to_json};
use crate::record::{entries_of, Entries, LogRecord, LogRecordView};
use crate::utils::{decimal, format_level, format_timestamp, level_text};
use serde_json::Value;
use vstd::prelude::*;
use vstd::string::StringExecFns;

verus! {

/// The members of the JSON object of the fields: each key as a JSON string,
/// a colon and the JSON text of the value, with commas between the members,
/// in the order of the entries.
pub open spec fn json_members(fields: Entries) -> Seq<char>
    decreases fields.len(),
{
    if fields.len() == 0 {
        Seq::empty()
    } else if fields.len() == 1 {
        json_string(fields[0].0) + ":"@ + json_text(fields[0].1)
    } else {
        json_members(fields.drop_last()) + ","@ + json_string(fields.last().0) + ":"@ + json_text(
            fields.last().1,
        )
    }
}

/// The JSON text of the request id: a JSON string, or `null` where there is
/// none.
pub open spec fn json_request_id(request_id: Option<Seq<char>>) -> Seq<char> {
    match request_id {
        Some(id) => json_string(id),
        None => "null"@,
    }
}

/// The JSON line of a record: an object with the five members `timestamp`,
/// `level`, `message`, `fields` and `request_id`, in this order, without
/// blanks.
pub open spec fn json_line(record: LogRecordView) -> Seq<char> {
    "{\"timestamp\":"@ + decimal(record.timestamp as nat) + ",\"level\":\""@ + level_text(
        record.level,
    ) + "\",\"message\":"@ + json_string(record.message) + ",\"fields\":{"@ + json_members(
        record.fields,
    ) + "},\"request_id\":"@ + json_request_id(record.request_id) + "}"@
}

/// Adapter: structured JSON format for production.
#[derive(Debug, Clone, Copy)]
pub struct JsonLogger;

impl JsonLogger {
    /// Create a new JSON logger.
    pub fn new() -> (r: JsonLogger)
        ensures
            r == JsonLogger,
    {
        JsonLogger
    }

    /// The members of the JSON object of the fields.
    pub fn render_fields(&self, fields: &Vec<(String, Value)>) -> (r: String)
        ensures
            r@ == json_members(entries_of(fields@)),
    {
        let ghost entries = entries_of(fields@);
        let mut text = String::new();
        let mut i: usize = 0;
        while i < fields.len()
            invariant
                i <= fields.len(),
                entries == entries_of(fields@),
                text@ == json_members(entries.take(i as int)),
            decreases fields.len() - i,
        {
            let ghost before = text@;
            if i > 0 {
                text.append(",");
            }
            text.append(string_to_json(fields[i].0.as_str()).as_str());
            text.append(":");
            text.append(value_to_json(&fields[i].1).as_str());
            proof {
                let next = entries.take(i as int + 1);
                assert(next.drop_last() =~= entries.take(i as int));
                assert(next.last() == entries[i as int]);
                if i == 0 {
                    assert(before =~= Seq::<char>::empty());
                    assert(text@ =~= json_members(next));
                }
            }
            i += 1;
        }
        assert(entries.take(i as int) =~= entries);
        text
    }

    /// The line that stands for the record as JSON, without a line break.
    pub fn render(&self, record: &LogRecord) -> (r: String)
        ensures
            r@ == json_line(record@),
    {
        let mut line = String::from_str("{\"timestamp\":");
        line.append(format_timestamp(record.timestamp()).as_str());
        line.append(",\"level\":\"");
        line.append(format_level(record.level()));
        line.append("\",\"message\":");
        line.append(string_to_json(record.message()).as_str());
        line.append(",\"fields\":{");
        line.append(self.render_fields(record.fields()).as_str());
        line.append("},\"request_id\":");
        match record.request_id() {
            Some(id) => {
                line.append(string_to_json(id).as_str());
            },
            None => {
                line.append("null");
            },
        }
        line.append("}");
        line
    }
}

impl Default for JsonLogger {
    fn default() -> (r: JsonLogger)
        ensures
            r == JsonLogger,
    {
        JsonLogger::new()
    }
}

} // verus!
