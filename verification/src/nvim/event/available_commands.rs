//! The record of the commands that an agent offers.

use crate::apc::error::ProtocolError;
use crate::apc::protocol::session::{
    AvailableCommand, AvailableCommandInput, AvailableCommandsUpdate,
};
use crate::nvim::value::{
    array_items, dictionary_entries, insert_list, insert_record, insert_text, optional_field,
    optional_text, push_record, Fields, Value,
};
use nvim_oxi::{Array, Dictionary};
use vstd::prelude::*;

verus! {

/// The record of a command's input: `hint`.
pub open spec fn command_input_fields(input: AvailableCommandInput) -> Fields {
    match input {
        AvailableCommandInput::Unstructured(unstructured) => seq![
            ("hint"@, Value::Text(unstructured.hint@)),
        ],
    }
}

/// The record of a command: `name` and `description`, then `input` where the
/// command takes one.
pub open spec fn command_fields(command: AvailableCommand) -> Fields {
    seq![
        ("name"@, Value::Text(command.name@)),
        ("description"@, Value::Text(command.description@)),
    ] + optional_field(
        "input"@,
        match command.input {
            Some(input) => Some(Value::Record(command_input_fields(input))),
            None => None,
        },
    )
}

/// The records of commands, in order.
pub open spec fn command_values(commands: Seq<AvailableCommand>) -> Seq<Value> {
    Seq::new(commands.len(), |i: int| Value::Record(command_fields(commands[i])))
}

/// The record of the update: `availableCommands`, then `meta` where the
/// update has it.
pub open spec fn available_commands_fields(update: AvailableCommandsUpdate) -> Fields {
    seq![("availableCommands"@, Value::List(command_values(update.available_commands@)))]
        + optional_text("meta"@, update.meta)
}

fn command_dictionary(command: &AvailableCommand) -> (dict: Dictionary)
    ensures
        dictionary_entries(dict) == command_fields(*command),
{
    let mut dict = Dictionary::new();
    insert_text(&mut dict, "name", command.name.as_str());
    insert_text(&mut dict, "description", command.description.as_str());
    if let Some(input) = &command.input {
        let mut inner = Dictionary::new();
        match input {
            AvailableCommandInput::Unstructured(unstructured) => {
                insert_text(&mut inner, "hint", unstructured.hint.as_str());
            },
        }
        assert(dictionary_entries(inner) =~= command_input_fields(*input));
        insert_record(&mut dict, "input", inner);
    }
    assert(dictionary_entries(dict) =~= command_fields(*command));
    dict
}

/// Translates the commands that an agent offers into their record. It never
/// fails. The key `availableCommands` is always there: where the agent offers
/// no command, its value is the empty list.
pub fn available_commands_event(update: AvailableCommandsUpdate) -> (result: Result<
    Dictionary,
    ProtocolError,
>)
    ensures
        result is Ok,
        dictionary_entries(result->Ok_0) == available_commands_fields(update),
        dictionary_entries(result->Ok_0).len() > 0,
        dictionary_entries(result->Ok_0)[0].0 == "availableCommands"@,
        update.available_commands@.len() == 0 ==> dictionary_entries(result->Ok_0)[0].1
            == Value::List(Seq::empty()),
{
    let mut commands = Array::new();
    let mut i: usize = 0;
    while i < update.available_commands.len()
        invariant
            i <= update.available_commands.len(),
            array_items(commands) == command_values(update.available_commands@.take(i as int)),
        decreases update.available_commands.len() - i,
    {
        let dict = command_dictionary(&update.available_commands[i]);
        push_record(&mut commands, dict);
        i += 1;
        assert(array_items(commands) =~= command_values(
            update.available_commands@.take(i as int),
        ));
    }
    assert(update.available_commands@.take(update.available_commands.len() as int)
        =~= update.available_commands@);
    let mut data = Dictionary::new();
    insert_list(&mut data, "availableCommands", commands);
    if let Some(meta) = &update.meta {
        insert_text(&mut data, "meta", meta.as_str());
    }
    assert(dictionary_entries(data) =~= available_commands_fields(update));
    proof {
        if update.available_commands@.len() == 0 {
            assert(command_values(update.available_commands@) =~= Seq::<Value>::empty());
        }
    }
    Ok(data)
}

} // verus!
