//! The record of a content block's annotations.

use crate::apc::protocol::content::{Annotations, Role};
use crate::nvim::value::{
    array_items, dictionary_entries, insert_list, insert_number, insert_text, optional_field,
    optional_text, push_text, Fields, Value,
};
use nvim_oxi::{Array, Dictionary};
use vstd::prelude::*;

verus! {

/// The roles of an audience as a list of their names.
pub open spec fn audience_values(roles: Seq<Role>) -> Seq<Value> {
    Seq::new(roles.len(), |i: int| Value::Text(roles[i].name()))
}

/// The record of annotations: `audience`, `lastModified` and `priority`, each
/// present exactly when the annotations hold it.
pub open spec fn annotations_fields(annotations: Annotations) -> Fields {
    optional_field(
        "audience"@,
        match annotations.audience {
            Some(roles) => Some(Value::List(audience_values(roles@))),
            None => None,
        },
    ) + optional_text("lastModified"@, annotations.last_modified) + optional_field(
        "priority"@,
        match annotations.priority {
            Some(bits) => Some(Value::Number(bits)),
            None => None,
        },
    )
}

/// The record of an optional `annotations` field.
pub open spec fn optional_annotations(annotations: Option<Annotations>) -> Fields {
    match annotations {
        Some(annotations) => seq![("annotations"@, Value::Record(annotations_fields(annotations)))],
        None => Seq::empty(),
    }
}

pub(crate) fn audience_array(roles: &Vec<Role>) -> (array: Array)
    ensures
        array_items(array) == audience_values(roles@),
{
    let mut array = Array::new();
    let mut i: usize = 0;
    while i < roles.len()
        invariant
            i <= roles.len(),
            array_items(array) == audience_values(roles@.take(i as int)),
        decreases roles.len() - i,
    {
        push_text(&mut array, roles[i].as_str());
        i += 1;
        assert(array_items(array) =~= audience_values(roles@.take(i as int)));
    }
    assert(roles@.take(roles.len() as int) =~= roles@);
    array
}

pub(crate) fn annotations_dictionary(annotations: &Annotations) -> (dict: Dictionary)
    ensures
        dictionary_entries(dict) == annotations_fields(*annotations),
{
    let mut dict = Dictionary::new();
    if let Some(roles) = &annotations.audience {
        let array = audience_array(roles);
        insert_list(&mut dict, "audience", array);
    }
    if let Some(last_modified) = &annotations.last_modified {
        insert_text(&mut dict, "lastModified", last_modified.as_str());
    }
    if let Some(bits) = annotations.priority {
        insert_number(&mut dict, "priority", bits);
    }
    assert(dictionary_entries(dict) =~= annotations_fields(*annotations));
    dict
}

/// Translates annotations into their record.
pub fn parse_annotations(annotations: Annotations) -> (dict: Dictionary)
    ensures
        dictionary_entries(dict) == annotations_fields(annotations),
{
    annotations_dictionary(&annotations)
}

} // verus!
