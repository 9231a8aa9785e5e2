//! The editor's dynamic values, and the operations of `nvim_oxi` that build
//! them.
//!
//! An object, a dictionary or an array of `nvim_oxi` is opaque to the
//! verifier. What each holds is named by `object_value`, `dictionary_entries`
//! and `array_items`, over `Value`, and the contracts of the trusted items in
//! this file say how each operation of `nvim_oxi` builds or changes it. They
//! are stated from the source of `nvim_oxi`; nothing here proves them.

use nvim_oxi::{Array, Dictionary, Object};
use vstd::prelude::*;

verus! {

/// Mathematical model of an editor object.
pub enum Value {
    /// The nil object.
    Nil,
    /// A string object.
    Text(Seq<char>),
    /// An integer object.
    Integer(int),
    /// A float object, identified by the IEEE-754 bit pattern of the double
    /// that it holds.
    Number(u64),
    /// An array object: objects in order.
    List(Seq<Value>),
    /// A dictionary object: key-value pairs in order.
    Record(Seq<(Seq<char>, Value)>),
}

/// The pairs of a record: keys with their values, in order.
pub type Fields = Seq<(Seq<char>, Value)>;

/// `nvim_oxi::Dictionary`, the editor's dictionary: a list of pairs of a
/// string key and an object. Nothing is claimed of it here; what it holds is
/// named by `dictionary_entries`.
#[verifier::external_type_specification]
#[verifier::external_body]
pub struct ExDictionary(nvim_oxi::Dictionary);

/// `nvim_oxi::Array`, the editor's array: a list of objects. Nothing is
/// claimed of it here; what it holds is named by `array_items`.
#[verifier::external_type_specification]
#[verifier::external_body]
pub struct ExArray(nvim_oxi::Array);

/// `nvim_oxi::Object`, one value of the editor. Nothing is claimed of it
/// here; what it holds is named by `object_value`.
#[verifier::external_type_specification]
#[verifier::external_body]
pub struct ExObject(nvim_oxi::Object);

/// What an object holds.
pub uninterp spec fn object_value(object: Object) -> Value;

/// The key-value pairs that a dictionary holds, in insertion order.
pub uninterp spec fn dictionary_entries(dict: Dictionary) -> Seq<(Seq<char>, Value)>;

/// The objects that an array holds, in order.
pub uninterp spec fn array_items(array: Array) -> Seq<Value>;

/// `Dictionary::new` returns a dictionary without pairs.
pub assume_specification[ nvim_oxi::Dictionary::new ]() -> (dict: Dictionary)
    ensures
        dictionary_entries(dict) == Seq::<(Seq<char>, Value)>::empty(),
;

/// `Array::new` returns an array without objects.
pub assume_specification[ nvim_oxi::Array::new ]() -> (array: Array)
    ensures
        array_items(array) == Seq::<Value>::empty(),
;

/// `Object::from` on a `&str` gives a string object with the same text.
#[verifier::external_body]
pub(crate) fn text_object(text: &str) -> (object: Object)
    ensures
        object_value(object) == Value::Text(text@),
{
    Object::from(text)
}

/// `Object::from` on an `i64` gives an integer object with the same number.
#[verifier::external_body]
pub(crate) fn integer_object(number: i64) -> (object: Object)
    ensures
        object_value(object) == Value::Integer(number as int),
{
    Object::from(number)
}

/// `Object::from` on a double, given here by its bit pattern, gives a float
/// object that holds the double with these bits.
#[verifier::external_body]
pub(crate) fn number_object(bits: u64) -> (object: Object)
    ensures
        object_value(object) == Value::Number(bits),
{
    Object::from(nvim_oxi::Float::from_bits(bits))
}

/// `Object::from` on a dictionary gives a dictionary object with the same
/// pairs.
#[verifier::external_body]
pub(crate) fn record_object(dict: Dictionary) -> (object: Object)
    ensures
        object_value(object) == Value::Record(dictionary_entries(dict)),
{
    Object::from(dict)
}

/// `Object::from` on an array gives an array object with the same objects.
#[verifier::external_body]
pub(crate) fn list_object(array: Array) -> (object: Object)
    ensures
        object_value(object) == Value::List(array_items(array)),
{
    Object::from(array)
}

/// `Dictionary::insert` appends the pair of the key and the object behind
/// the pairs that are there, unless the object is nil: then it does nothing.
/// A pair with the same key is neither replaced nor removed.
#[verifier::external_body]
pub(crate) fn insert(dict: &mut Dictionary, key: &str, value: Object)
    ensures
        dictionary_entries(*final(dict)) == if object_value(value) is Nil {
            dictionary_entries(*old(dict))
        } else {
            dictionary_entries(*old(dict)).push((key@, object_value(value)))
        },
{
    dict.insert(key, value);
}

/// `Array::push` appends the object behind the objects that are there,
/// unless the object is nil: then it does nothing.
#[verifier::external_body]
pub(crate) fn push(array: &mut Array, value: Object)
    ensures
        array_items(*final(array)) == if object_value(value) is Nil {
            array_items(*old(array))
        } else {
            array_items(*old(array)).push(object_value(value))
        },
{
    array.push(value);
}

/// Appends the pair of `key` and a string.
pub(crate) fn insert_text(dict: &mut Dictionary, key: &str, value: &str)
    ensures
        dictionary_entries(*final(dict)) == dictionary_entries(*old(dict)).push(
            (key@, Value::Text(value@)),
        ),
{
    insert(dict, key, text_object(value));
}

/// Appends the pair of `key` and an integer.
pub(crate) fn insert_integer(dict: &mut Dictionary, key: &str, value: i64)
    ensures
        dictionary_entries(*final(dict)) == dictionary_entries(*old(dict)).push(
            (key@, Value::Integer(value as int)),
        ),
{
    insert(dict, key, integer_object(value));
}

/// Appends the pair of `key` and the double with the bit pattern `bits`.
pub(crate) fn insert_number(dict: &mut Dictionary, key: &str, bits: u64)
    ensures
        dictionary_entries(*final(dict)) == dictionary_entries(*old(dict)).push(
            (key@, Value::Number(bits)),
        ),
{
    insert(dict, key, number_object(bits));
}

/// Appends the pair of `key` and a dictionary.
pub(crate) fn insert_record(dict: &mut Dictionary, key: &str, value: Dictionary)
    ensures
        dictionary_entries(*final(dict)) == dictionary_entries(*old(dict)).push(
            (key@, Value::Record(dictionary_entries(value))),
        ),
{
    insert(dict, key, record_object(value));
}

/// Appends the pair of `key` and an array.
pub(crate) fn insert_list(dict: &mut Dictionary, key: &str, value: Array)
    ensures
        dictionary_entries(*final(dict)) == dictionary_entries(*old(dict)).push(
            (key@, Value::List(array_items(value))),
        ),
{
    insert(dict, key, list_object(value));
}

/// Appends a string to an array.
pub(crate) fn push_text(array: &mut Array, value: &str)
    ensures
        array_items(*final(array)) == array_items(*old(array)).push(Value::Text(value@)),
{
    push(array, text_object(value));
}

/// Appends a dictionary to an array.
pub(crate) fn push_record(array: &mut Array, value: Dictionary)
    ensures
        array_items(*final(array)) == array_items(*old(array)).push(
            Value::Record(dictionary_entries(value)),
        ),
{
    push(array, record_object(value));
}

/// The pair of `key` and `value` where there is a value, no pair otherwise.
pub open spec fn optional_field(key: Seq<char>, value: Option<Value>) -> Fields {
    match value {
        Some(value) => seq![(key, value)],
        None => Seq::empty(),
    }
}

/// The pair of `key` and a string where there is one, no pair otherwise.
pub open spec fn optional_text(key: Seq<char>, text: Option<String>) -> Fields {
    match text {
        Some(text) => seq![(key, Value::Text(text@))],
        None => Seq::empty(),
    }
}

/// Inserts the pair of `key` and a string where there is one, and nothing
/// otherwise.
pub(crate) fn insert_optional_text(dict: &mut Dictionary, key: &str, text: &Option<String>)
    ensures
        dictionary_entries(*final(dict)) == dictionary_entries(*old(dict)) + optional_text(
            key@,
            *text,
        ),
{
    if let Some(text) = text {
        insert_text(dict, key, text.as_str());
    }
    assert(dictionary_entries(*dict) =~= dictionary_entries(*old(dict)) + optional_text(
        key@,
        *text,
    ));
}

/// Whether some pair of `fields` has the key `key`.
pub open spec fn has_key(fields: Fields, key: Seq<char>) -> bool {
    exists|i: int| 0 <= i < fields.len() && #[trigger] fields[i].0 == key
}

} // verus!
