//! The boundary of the proofs: calls into other crates, and into the parts of
//! the standard library that the verifier has no specification for.
//!
//! Every contract in this file is believed, not proved. Each says what the
//! function it stands for is documented to do, and no more.

use vstd::prelude::*;

verus! {

/// `serde_json::Value`: a JSON value, carried through the library unopened.
#[verifier::external_type_specification]
#[verifier::external_body]
pub struct ExValue(serde_json::Value);

/// The compact JSON text of a value: what `Display` for `serde_json::Value`
/// writes when no alternate form is asked for.
pub uninterp spec fn json_text(value: serde_json::Value) -> Seq<char>;

/// The JSON string literal that `serde_json` writes for a text: the text in
/// double quotes, with the characters escaped that JSON wants escaped.
pub uninterp spec fn json_string(text: Seq<char>) -> Seq<char>;

/// `Value::to_string`, which goes through `Display` for `serde_json::Value`.
/// The result is the compact JSON text of the value, whatever the value holds.
#[verifier::external_body]
pub(crate) fn value_to_json(value: &serde_json::Value) -> (r: String)
    ensures
        r@ == json_text(*value),
{
    value.to_string()
}

/// `Value::from(&str)`, which makes a JSON string of the text, written out
/// with `Value::to_string`. The result depends on the text alone.
#[verifier::external_body]
pub(crate) fn string_to_json(text: &str) -> (r: String)
    ensures
        r@ == json_string(text@),
{
    serde_json::Value::from(text).to_string()
}

/// `Clone` for `serde_json::Value`: the copy is the same JSON value.
#[verifier::external_body]
pub(crate) fn clone_value(value: &serde_json::Value) -> (r: serde_json::Value)
    ensures
        r == *value,
{
    value.clone()
}

/// The lowercase form of a text, as `str::to_lowercase` gives it.
pub uninterp spec fn lowercase(text: Seq<char>) -> Seq<char>;

/// The uppercase form of a text, as `str::to_uppercase` gives it.
pub uninterp spec fn uppercase(text: Seq<char>) -> Seq<char>;

/// `str::to_lowercase`: each character replaced by its Unicode lowercase
/// equivalent. The result depends on the text alone.
#[verifier::external_body]
pub(crate) fn to_lowercase(text: &str) -> (r: String)
    ensures
        r@ == lowercase(text@),
{
    text.to_lowercase()
}

/// `str::to_uppercase`: each character replaced by its Unicode uppercase
/// equivalent. The result depends on the text alone.
#[verifier::external_body]
pub(crate) fn to_uppercase(text: &str) -> (r: String)
    ensures
        r@ == uppercase(text@),
{
    text.to_uppercase()
}

/// `SystemTime::now`, measured from `UNIX_EPOCH` with
/// `SystemTime::duration_since`, in whole seconds; `None` where the clock
/// stands before the epoch. Nothing is claimed of the number: it is whatever
/// the host's clock says.
#[verifier::external_body]
pub(crate) fn unix_seconds() -> Option<u64> {
    match std::time::SystemTime::now().duration_since(std::time::UNIX_EPOCH) {
        Ok(elapsed) => Some(elapsed.as_secs()),
        Err(_) => None,
    }
}

/// Whether a character is a decimal digit or one of the letters a to f.
pub open spec fn is_lower_hex(c: char) -> bool {
    ('0' <= c && c <= '9') || ('a' <= c && c <= 'f')
}

/// The hyphenated form of a random UUID: 36 characters, hyphens after the
/// groups of 8, 4, 4 and 4 digits, lowercase hexadecimal digits elsewhere,
/// the version digit 4 and a variant digit of 8, 9, a or b.
pub open spec fn is_random_uuid_text(text: Seq<char>) -> bool {
    &&& text.len() == 36
    &&& forall|i: int|
        0 <= i < 36 ==> if i == 8 || i == 13 || i == 18 || i == 23 {
            #[trigger] text[i] == '-'
        } else {
            is_lower_hex(text[i])
        }
    &&& text[14] == '4'
    &&& (text[19] == '8' || text[19] == '9' || text[19] == 'a' || text[19] == 'b')
}

/// `Uuid::new_v4`, written out with `Uuid::to_string`. Which identifier comes
/// back is a matter of chance; its shape is not.
#[verifier::external_body]
pub(crate) fn random_uuid_text() -> (r: String)
    ensures
        is_random_uuid_text(r@),
{
    uuid::Uuid::new_v4().to_string()
}

} // verus!
