//! The record of a change of mode.

use crate::apc::error::ProtocolError;
use crate::apc::protocol::session::CurrentModeUpdate;
use crate::nvim::value::{dictionary_entries, insert_text, optional_text, Fields, Value};
use nvim_oxi::Dictionary;
use vstd::prelude::*;

verus! {

/// The record of the update: `id`, then `meta` where the update has it.
pub open spec fn current_mode_fields(update: CurrentModeUpdate) -> Fields {
    seq![("id"@, Value::Text(update.current_mode_id@))] + optional_text("meta"@, update.meta)
}

/// Translates a change of mode into its record. It never fails.
pub fn current_mode_event(update: CurrentModeUpdate) -> (result: Result<Dictionary, ProtocolError>)
    ensures
        result is Ok,
        dictionary_entries(result->Ok_0) == current_mode_fields(update),
{
    let mut data = Dictionary::new();
    insert_text(&mut data, "id", update.current_mode_id.as_str());
    if let Some(meta) = &update.meta {
        insert_text(&mut data, "meta", meta.as_str());
    }
    assert(dictionary_entries(data) =~= current_mode_fields(update));
    Ok(data)
}

} // verus!
