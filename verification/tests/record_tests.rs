use serde_json::Value;
use tyl_logging::{LogLevel, LogRecord};

#[test]
fn a_new_record_holds_what_it_was_given() {
    let record = LogRecord::new(LogLevel::Debug, "started");
    assert_eq!(record.level(), LogLevel::Debug);
    assert_eq!(record.message(), "started");
    assert!(record.timestamp() > 0);
    assert!(record.fields().is_empty());
    assert_eq!(record.request_id(), None);
}

#[test]
fn a_record_at_a_given_time_holds_that_time() {
    let record = LogRecord::at_time(LogLevel::Trace, "then", 1234567890);
    assert_eq!(record.level(), LogLevel::Trace);
    assert_eq!(record.message(), "then");
    assert_eq!(record.timestamp(), 1234567890);
    assert!(record.fields().is_empty());
    assert_eq!(record.request_id(), None);
}

#[test]
fn the_message_is_kept_as_it_stands() {
    let empty = LogRecord::new(LogLevel::Info, "");
    assert_eq!(empty.message(), "");
    let padded = LogRecord::new(LogLevel::Info, "  Mixed Case \t with \"quotes\"\n");
    assert_eq!(padded.message(), "  Mixed Case \t with \"quotes\"\n");
}

#[test]
fn a_second_write_under_a_key_replaces_the_first() {
    let mut record = LogRecord::at_time(LogLevel::Info, "m", 1);
    record.add_field("code", Value::from(1));
    record.add_field("code", Value::from(2));
    assert_eq!(record.fields().len(), 1);
    assert_eq!(record.field("code"), Some(&Value::from(2)));
}

#[test]
fn a_record_holds_one_entry_for_each_key() {
    let mut record = LogRecord::at_time(LogLevel::Info, "m", 1);
    record.add_field("a", Value::from(1));
    record.add_field("b", Value::from(2));
    record.add_field("a", Value::from(3));
    record.add_field("c", Value::Null);
    record.add_field("b", Value::from("four"));
    assert_eq!(record.fields().len(), 3);
    assert_eq!(record.field("a"), Some(&Value::from(3)));
    assert_eq!(record.field("b"), Some(&Value::from("four")));
    assert_eq!(record.field("c"), Some(&Value::Null));
    assert_eq!(record.field("d"), None);
}

#[test]
fn entries_stand_in_the_order_in_which_their_keys_came() {
    let mut record = LogRecord::at_time(LogLevel::Info, "m", 1);
    record.add_field("zeta", Value::from(1));
    record.add_field("alpha", Value::from(2));
    record.add_field("zeta", Value::from(3));
    let fields = record.fields();
    assert_eq!(fields.len(), 2);
    assert_eq!(fields[0], ("zeta".to_string(), Value::from(3)));
    assert_eq!(fields[1], ("alpha".to_string(), Value::from(2)));
}

#[test]
fn keys_are_told_apart_exactly() {
    let mut record = LogRecord::at_time(LogLevel::Info, "m", 1);
    record.add_field("Key", Value::from(1));
    record.add_field("key", Value::from(2));
    record.add_field(" key", Value::from(3));
    record.add_field("", Value::from(4));
    assert_eq!(record.fields().len(), 4);
    assert_eq!(record.field("Key"), Some(&Value::from(1)));
    assert_eq!(record.field("key"), Some(&Value::from(2)));
    assert_eq!(record.field(" key"), Some(&Value::from(3)));
    assert_eq!(record.field(""), Some(&Value::from(4)));
    assert_eq!(record.field("KEY"), None);
}

#[test]
fn a_request_id_leaves_the_rest_of_the_record_alone() {
    let mut record = LogRecord::at_time(LogLevel::Warn, "careful", 77);
    record.add_field("n", Value::from(1));
    let before = record.clone();
    let after = record.with_request_id("abc".to_string());
    assert_eq!(after.request_id(), Some("abc"));
    assert_eq!(after.level(), before.level());
    assert_eq!(after.message(), before.message());
    assert_eq!(after.timestamp(), before.timestamp());
    assert_eq!(after.fields(), before.fields());
}

#[test]
fn a_later_request_id_takes_the_place_of_an_earlier_one() {
    let record = LogRecord::at_time(LogLevel::Info, "m", 1)
        .with_request_id("first".to_string())
        .with_request_id("second".to_string());
    assert_eq!(record.request_id(), Some("second"));
}

#[test]
fn a_copy_of_a_record_holds_the_same_and_is_its_own() {
    let mut record = LogRecord::at_time(LogLevel::Error, "boom", 5).with_request_id("r".to_string());
    record.add_field("code", Value::from(500));
    let mut copy = record.clone();
    assert_eq!(copy.level(), LogLevel::Error);
    assert_eq!(copy.message(), "boom");
    assert_eq!(copy.timestamp(), 5);
    assert_eq!(copy.request_id(), Some("r"));
    assert_eq!(copy.fields(), record.fields());
    copy.add_field("code", Value::from(501));
    copy.add_field("more", Value::from(true));
    assert_eq!(record.fields().len(), 1);
    assert_eq!(record.field("code"), Some(&Value::from(500)));
    assert_eq!(copy.fields().len(), 2);
}
