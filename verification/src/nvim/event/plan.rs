//! The record of a plan.

use crate::apc::error::ProtocolError;
use crate::apc::protocol::plan::{Plan, PlanEntry};
use crate::nvim::value::{
    array_items, dictionary_entries, insert_list, insert_text, optional_text, push_record, Fields,
    Value,
};
use nvim_oxi::{Array, Dictionary};
use vstd::prelude::*;

verus! {

/// The record of a plan entry: `content` and `priority`.
pub open spec fn plan_entry_fields(entry: PlanEntry) -> Fields {
    seq![
        ("content"@, Value::Text(entry.content@)),
        ("priority"@, Value::Text(entry.priority.name())),
    ]
}

/// The records of plan entries, in order.
pub open spec fn plan_entry_values(entries: Seq<PlanEntry>) -> Seq<Value> {
    Seq::new(entries.len(), |i: int| Value::Record(plan_entry_fields(entries[i])))
}

/// The record of a plan: `entries`, then `meta` where the plan has it.
pub open spec fn plan_fields(plan: Plan) -> Fields {
    seq![("entries"@, Value::List(plan_entry_values(plan.entries@)))] + optional_text(
        "meta"@,
        plan.meta,
    )
}

/// Translates a plan into its record. It never fails.
pub fn plan_event(plan: Plan) -> (result: Result<Dictionary, ProtocolError>)
    ensures
        result is Ok,
        dictionary_entries(result->Ok_0) == plan_fields(plan),
{
    let mut entries = Array::new();
    let mut i: usize = 0;
    while i < plan.entries.len()
        invariant
            i <= plan.entries.len(),
            array_items(entries) == plan_entry_values(plan.entries@.take(i as int)),
        decreases plan.entries.len() - i,
    {
        let entry = &plan.entries[i];
        let mut dict = Dictionary::new();
        insert_text(&mut dict, "content", entry.content.as_str());
        insert_text(&mut dict, "priority", entry.priority.as_str());
        assert(dictionary_entries(dict) =~= plan_entry_fields(*entry));
        push_record(&mut entries, dict);
        i += 1;
        assert(array_items(entries) =~= plan_entry_values(plan.entries@.take(i as int)));
    }
    assert(plan.entries@.take(plan.entries.len() as int) =~= plan.entries@);
    let mut data = Dictionary::new();
    insert_list(&mut data, "entries", entries);
    if let Some(meta) = &plan.meta {
        insert_text(&mut data, "meta", meta.as_str());
    }
    assert(dictionary_entries(data) =~= plan_fields(plan));
    Ok(data)
}

} // verus!
