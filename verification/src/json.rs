//! JSON objects of numbers, written by the serializer of the gateway library.

use crate::decimal::decimal;
use poise::serenity_prelude::json::{to_vec, JsonMap, Value};
use vstd::prelude::*;

verus! {

/// The bytes of a text of ASCII characters: one byte per character.
pub open spec fn ascii_bytes(text: Seq<char>) -> Seq<u8> {
    Seq::new(text.len(), |i: int| text[i] as u8)
}

/// One number of a JSON object, under its name.
#[derive(Debug, Clone, Copy, PartialEq, Eq)]
pub struct JsonField {
    pub name: &'static str,
    pub value: u64,
}

/// A name that is written between quotes just as it is: printable ASCII
/// without the quote and the backslash.
pub open spec fn is_plain_name(name: Seq<char>) -> bool {
    forall|i: int|
        0 <= i < name.len() ==> ' ' <= #[trigger] name[i] <= '~' && name[i] != '"' && name[i]
            != '\\'
}

/// Whether `a` comes before `b` in the order of strings: at the first place
/// where they differ `a` has the smaller character, or `a` ends there.
pub open spec fn precedes(a: Seq<char>, b: Seq<char>) -> bool {
    exists|k: int|
        0 <= k <= a.len() && k < b.len() && #[trigger] a.take(k) == b.take(k) && (k < a.len()
            ==> a[k] < b[k])
}

/// Whether the names are plain and each comes before the next, so that none
/// occurs twice.
pub open spec fn plainly_named(fields: Seq<(Seq<char>, nat)>) -> bool {
    &&& forall|i: int| 0 <= i < fields.len() ==> is_plain_name(#[trigger] fields[i].0)
    &&& forall|i: int, j: int|
        0 <= i < j < fields.len() ==> precedes(#[trigger] fields[i].0, #[trigger] fields[j].0)
}

/// One field of a JSON object: the name between quotes, a colon, the number
/// in decimal.
pub open spec fn field_text(name: Seq<char>, value: nat) -> Seq<char> {
    seq!['"'] + name + seq!['"', ':'] + decimal(value)
}

/// The fields of a JSON object, with a comma between one and the next.
pub open spec fn fields_text(fields: Seq<(Seq<char>, nat)>) -> Seq<char>
    decreases fields.len(),
{
    if fields.len() == 0 {
        Seq::empty()
    } else if fields.len() == 1 {
        field_text(fields[0].0, fields[0].1)
    } else {
        fields_text(fields.drop_last()) + seq![','] + field_text(fields.last().0, fields.last().1)
    }
}

/// A JSON object of numbers in its shortest form: no space, no line break.
pub open spec fn object_text(fields: Seq<(Seq<char>, nat)>) -> Seq<char> {
    seq!['{'] + fields_text(fields) + seq!['}']
}

/// The names and numbers of the fields.
pub open spec fn field_models(fields: Seq<JsonField>) -> Seq<(Seq<char>, nat)> {
    Seq::new(fields.len(), |i: int| (fields[i].name@, fields[i].value as nat))
}

/// The JSON text that `serenity::json::to_vec`, which is `serde_json::to_vec`,
/// writes for an object with these fields.
///
/// With names that are plain and in ascending order the serializer writes the
/// fields in the order given, whichever map the object is kept in: an opening
/// brace, each name between quotes with a colon and its number in decimal
/// after it, a comma between two fields, a closing brace, and nothing else.
/// It cannot fail on such an object.
#[verifier::external_body]
pub(crate) fn json_object(fields: &Vec<JsonField>) -> (bytes: Vec<u8>)
    requires
        plainly_named(field_models(fields@)),
    ensures
        bytes@ == ascii_bytes(object_text(field_models(fields@))),
{
    let object: JsonMap =
        fields.iter().map(|field| (String::from(field.name), Value::from(field.value))).collect();
    to_vec(&Value::Object(object)).unwrap()
}

} // verus!
