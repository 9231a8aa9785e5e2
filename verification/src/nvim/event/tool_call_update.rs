//! The record of a change to a tool call.

use crate::apc::error::{ProtocolError, ProtocolFailure};
use crate::apc::protocol::tool_call::{ToolCallContent, ToolCallLocation, ToolCallUpdate};
use crate::nvim::event::tool_call_content::{
    content_array, content_paths, items_outcome, location_paths, locations_array,
    locations_outcome, FileRead,
};
use crate::nvim::value::{
    array_items, dictionary_entries, insert_list, insert_optional_text, insert_text,
    optional_field, optional_text, Fields, Value,
};
use nvim_oxi::Dictionary;
use vstd::prelude::*;

verus! {

/// The items that an update gives for the content; none where it leaves the
/// content as it was.
pub open spec fn updated_content(update: ToolCallUpdate) -> Seq<ToolCallContent> {
    match update.fields.content {
        Some(items) => items@,
        None => Seq::empty(),
    }
}

/// The locations that an update gives; none where it leaves them as they
/// were.
pub open spec fn updated_locations(update: ToolCallUpdate) -> Seq<ToolCallLocation> {
    match update.fields.locations {
        Some(locations) => locations@,
        None => Seq::empty(),
    }
}

/// The files that the translation of an update needs, in the order in which
/// it uses their reads.
pub open spec fn update_paths(update: ToolCallUpdate) -> Seq<Seq<char>> {
    content_paths(updated_content(update), updated_content(update).len() as int) + location_paths(
        updated_locations(update),
        updated_locations(update).len() as int,
    )
}

/// The record of an update whose content and locations came to `content` and
/// `locations`: `id`, then each of `title`, `kind`, `status`, `fields` (the
/// content), `locations`, `input`, `output` and `meta` that the update holds.
pub open spec fn update_fields(update: ToolCallUpdate, content: Seq<Value>, locations: Seq<Value>) -> Fields {
    seq![("id"@, Value::Text(update.tool_call_id@))] + optional_text(
        "title"@,
        update.fields.title,
    ) + optional_field(
        "kind"@,
        match update.fields.kind {
            Some(kind) => Some(Value::Text(kind.name())),
            None => None,
        },
    ) + optional_field(
        "status"@,
        match update.fields.status {
            Some(status) => Some(Value::Text(status.name())),
            None => None,
        },
    ) + optional_field(
        "fields"@,
        match update.fields.content {
            Some(_) => Some(Value::List(content)),
            None => None,
        },
    ) + optional_field(
        "locations"@,
        match update.fields.locations {
            Some(_) => Some(Value::List(locations)),
            None => None,
        },
    ) + optional_text("input"@, update.fields.raw_input) + optional_text(
        "output"@,
        update.fields.raw_output,
    ) + optional_text("meta"@, update.meta)
}

/// What the translation of an update comes to, given the outcomes of reading
/// the files of `update_paths`.
pub open spec fn update_outcome(update: ToolCallUpdate, reads: Seq<FileRead>) -> Result<
    Fields,
    ProtocolFailure,
> {
    let items = updated_content(update);
    let places = updated_locations(update);
    match items_outcome(items, reads, 0, items.len() as int) {
        Err(failure) => Err(failure),
        Ok(content) => match locations_outcome(
            places,
            reads,
            content_paths(items, items.len() as int).len() as int,
            places.len() as int,
        ) {
            Err(failure) => Err(failure),
            Ok(locations) => Ok(update_fields(update, content, locations)),
        },
    }
}

/// The paths of the files whose contents the translation of `update` needs.
pub fn required_update_paths(update: &ToolCallUpdate) -> (paths: Vec<String>)
    ensures
        paths@.len() == update_paths(*update).len(),
        forall|k: int| 0 <= k < paths@.len() ==> (#[trigger] paths@[k])@ == update_paths(*update)[k],
{
    let mut paths: Vec<String> = Vec::new();
    if let Some(items) = &update.fields.content {
        let mut i: usize = 0;
        while i < items.len()
            invariant
                i <= items.len(),
                paths@.len() == content_paths(items@, i as int).len(),
                forall|k: int|
                    0 <= k < paths@.len() ==> (#[trigger] paths@[k])@ == content_paths(
                        items@,
                        i as int,
                    )[k],
            decreases items.len() - i,
        {
            if let ToolCallContent::Diff(diff) = &items[i] {
                paths.push(diff.path.clone());
            }
            i += 1;
        }
    }
    let ghost from_content = content_paths(
        updated_content(*update),
        updated_content(*update).len() as int,
    );
    if let Some(locations) = &update.fields.locations {
        let mut j: usize = 0;
        while j < locations.len()
            invariant
                j <= locations.len(),
                paths@.len() == (from_content + location_paths(locations@, j as int)).len(),
                forall|k: int|
                    0 <= k < paths@.len() ==> (#[trigger] paths@[k])@ == (from_content
                        + location_paths(locations@, j as int))[k],
            decreases locations.len() - j,
        {
            paths.push(locations[j].path.clone());
            j += 1;
        }
    }
    paths
}

/// Translates a change to a tool call into its record, given the outcomes of
/// reading the files named by `required_update_paths`, in that order. It
/// fails as `tool_call_event` does.
pub fn tool_call_update_event(update: ToolCallUpdate, reads: Vec<FileRead>) -> (result: Result<
    Dictionary,
    ProtocolError,
>)
    ensures
        match update_outcome(update, reads@) {
            Ok(fields) => result is Ok && dictionary_entries(result->Ok_0) == fields,
            Err(failure) => result is Err && result->Err_0@ == failure,
        },
{
    let mut data = Dictionary::new();
    insert_text(&mut data, "id", update.tool_call_id.as_str());
    insert_optional_text(&mut data, "title", &update.fields.title);
    let ghost titled = dictionary_entries(data);
    if let Some(kind) = &update.fields.kind {
        insert_text(&mut data, "kind", kind.as_str());
    }
    let ghost kinded = dictionary_entries(data);
    assert(kinded =~= titled + optional_field(
        "kind"@,
        match update.fields.kind {
            Some(kind) => Some(Value::Text(kind.name())),
            None => None,
        },
    ));
    if let Some(status) = &update.fields.status {
        insert_text(&mut data, "status", status.as_str());
    }
    let ghost statused = dictionary_entries(data);
    assert(statused =~= kinded + optional_field(
        "status"@,
        match update.fields.status {
            Some(status) => Some(Value::Text(status.name())),
            None => None,
        },
    ));
    let mut next: usize = 0;
    let ghost mut content_values: Seq<Value> = Seq::empty();
    if let Some(items) = &update.fields.content {
        let (content, used) = match content_array(items, &reads, 0) {
            Ok(translated) => translated,
            Err(error) => {
                return Err(error);
            },
        };
        proof {
            content_values = array_items(content);
        }
        next = used;
        insert_list(&mut data, "fields", content);
    }
    let ghost contented = dictionary_entries(data);
    assert(contented =~= statused + optional_field(
        "fields"@,
        match update.fields.content {
            Some(_) => Some(Value::List(content_values)),
            None => None,
        },
    ));
    let ghost mut location_values: Seq<Value> = Seq::empty();
    if let Some(locations) = &update.fields.locations {
        let translated = match locations_array(locations, &reads, next) {
            Ok(translated) => translated,
            Err(error) => {
                return Err(error);
            },
        };
        proof {
            location_values = array_items(translated);
        }
        insert_list(&mut data, "locations", translated);
    }
    assert(dictionary_entries(data) =~= contented + optional_field(
        "locations"@,
        match update.fields.locations {
            Some(_) => Some(Value::List(location_values)),
            None => None,
        },
    ));
    insert_optional_text(&mut data, "input", &update.fields.raw_input);
    insert_optional_text(&mut data, "output", &update.fields.raw_output);
    insert_optional_text(&mut data, "meta", &update.meta);
    Ok(data)
}

} // verus!
