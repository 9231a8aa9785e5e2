//! The record of the session's configuration options.

use crate::apc::error::ProtocolError;
use crate::apc::protocol::session::{
    ConfigOptionUpdate, SessionConfigKind, SessionConfigOption, SessionConfigSelect,
    SessionConfigSelectGroup, SessionConfigSelectOption, SessionConfigSelectOptions,
};
use crate::nvim::value::{
    array_items, dictionary_entries, has_key, insert_list, insert_optional_text, insert_record,
    insert_text, optional_field, optional_text, push_record, Fields, Value,
};
use nvim_oxi::{Array, Dictionary};
use vstd::prelude::*;

verus! {

/// The record of one value of a select option: `value` and `name`, then
/// `description` where the value has one.
pub open spec fn select_option_fields(option: SessionConfigSelectOption) -> Fields {
    seq![("value"@, Value::Text(option.value@)), ("name"@, Value::Text(option.name@))]
        + optional_text("description"@, option.description)
}

/// The records of the values of a select option, in order.
pub open spec fn select_option_values(options: Seq<SessionConfigSelectOption>) -> Seq<Value> {
    Seq::new(options.len(), |i: int| Value::Record(select_option_fields(options[i])))
}

/// The record of a group of values: the group's id under `group`, its `name`,
/// and the records of its values under `options`.
pub open spec fn select_group_fields(group: SessionConfigSelectGroup) -> Fields {
    seq![
        ("group"@, Value::Text(group.group@)),
        ("name"@, Value::Text(group.name@)),
        ("options"@, Value::List(select_option_values(group.options@))),
    ]
}

/// The records of groups of values, in order.
pub open spec fn select_group_values(groups: Seq<SessionConfigSelectGroup>) -> Seq<Value> {
    Seq::new(groups.len(), |i: int| Value::Record(select_group_fields(groups[i])))
}

/// The list under `options` of a select option: the records of its values
/// where they are ungrouped, the records of its groups where they are grouped.
pub open spec fn select_options_values(options: SessionConfigSelectOptions) -> Seq<Value> {
    match options {
        SessionConfigSelectOptions::Ungrouped(options) => select_option_values(options@),
        SessionConfigSelectOptions::Grouped(groups) => select_group_values(groups@),
    }
}

/// The record of a select option's kind: `currentValue`, the type `select`,
/// and `options`.
pub open spec fn select_fields(select: SessionConfigSelect) -> Fields {
    seq![
        ("currentValue"@, Value::Text(select.current_value@)),
        ("type"@, Value::Text("select"@)),
        ("options"@, Value::List(select_options_values(select.options))),
    ]
}

/// The record of a configuration option: `id` and `name`, then `description`
/// and `category` where the option has them, then `kind` where the option is
/// a select.
pub open spec fn config_option_fields(option: SessionConfigOption) -> Fields {
    seq![("id"@, Value::Text(option.id@)), ("name"@, Value::Text(option.name@))] + optional_text(
        "description"@,
        option.description,
    ) + optional_field(
        "category"@,
        match option.category {
            Some(category) => Some(Value::Text(category.name())),
            None => None,
        },
    ) + optional_field(
        "kind"@,
        match option.kind {
            SessionConfigKind::Select(select) => Some(Value::Record(select_fields(select))),
            SessionConfigKind::Other => None,
        },
    )
}

/// The records of configuration options, in order.
pub open spec fn config_option_values(options: Seq<SessionConfigOption>) -> Seq<Value> {
    Seq::new(options.len(), |i: int| Value::Record(config_option_fields(options[i])))
}

/// The record of the update: `configOptions`, then `meta` where the update
/// has it.
pub open spec fn config_option_update_fields(update: ConfigOptionUpdate) -> Fields {
    seq![("configOptions"@, Value::List(config_option_values(update.config_options@)))]
        + optional_text("meta"@, update.meta)
}

/// Grouped values keep their groups: the list under `options` has one record
/// for each group, in order, and that record holds the group's id, its name
/// and, nested under `options`, the records of the group's own values.
pub proof fn lemma_grouped_select_keeps_groups(select: SessionConfigSelect, index: int)
    requires
        select.options is Grouped,
        0 <= index < select.options->Grouped_0@.len(),
    ensures
        select_fields(select)[2] == ("options"@, Value::List(select_options_values(select.options))),
        select_options_values(select.options).len() == select.options->Grouped_0@.len(),
        select_options_values(select.options)[index] == Value::Record(
            seq![
                ("group"@, Value::Text(select.options->Grouped_0@[index].group@)),
                ("name"@, Value::Text(select.options->Grouped_0@[index].name@)),
                (
                    "options"@,
                    Value::List(select_option_values(select.options->Grouped_0@[index].options@)),
                ),
            ],
        ),
{
}

/// Ungrouped values stay flat: the list under `options` has one record for
/// each value, in order, and no such record has a `group` or an `options`
/// key.
pub proof fn lemma_ungrouped_select_is_flat(select: SessionConfigSelect, index: int)
    requires
        select.options is Ungrouped,
        0 <= index < select.options->Ungrouped_0@.len(),
    ensures
        select_options_values(select.options).len() == select.options->Ungrouped_0@.len(),
        select_options_values(select.options)[index] == Value::Record(
            select_option_fields(select.options->Ungrouped_0@[index]),
        ),
        !has_key(select_option_fields(select.options->Ungrouped_0@[index]), "group"@),
        !has_key(select_option_fields(select.options->Ungrouped_0@[index]), "options"@),
{
    reveal_strlit("group");
    reveal_strlit("options");
    reveal_strlit("value");
    reveal_strlit("name");
    reveal_strlit("description");
    let option = select.options->Ungrouped_0@[index];
    let fields = select_option_fields(option);
    assert("group"@.len() == 5);
    assert("options"@.len() == 7);
    assert("value"@.len() == 5);
    assert("name"@.len() == 4);
    assert("description"@.len() == 11);
    assert("value"@[0] == 'v');
    assert("group"@[0] == 'g');
    assert forall|i: int| 0 <= i < fields.len() implies (#[trigger] fields[i]).0 != "group"@
        && fields[i].0 != "options"@ by {
        if i >= 2 {
            assert(fields[i] == optional_text("description"@, option.description)[i - 2]);
        }
    }
}

fn select_option_array(options: &Vec<SessionConfigSelectOption>) -> (array: Array)
    ensures
        array_items(array) == select_option_values(options@),
{
    let mut array = Array::new();
    let mut i: usize = 0;
    while i < options.len()
        invariant
            i <= options.len(),
            array_items(array) == select_option_values(options@.take(i as int)),
        decreases options.len() - i,
    {
        let option = &options[i];
        let mut dict = Dictionary::new();
        insert_text(&mut dict, "value", option.value.as_str());
        insert_text(&mut dict, "name", option.name.as_str());
        insert_optional_text(&mut dict, "description", &option.description);
        assert(dictionary_entries(dict) =~= select_option_fields(*option));
        push_record(&mut array, dict);
        i += 1;
        assert(array_items(array) =~= select_option_values(options@.take(i as int)));
    }
    assert(options@.take(options.len() as int) =~= options@);
    array
}

fn select_group_array(groups: &Vec<SessionConfigSelectGroup>) -> (array: Array)
    ensures
        array_items(array) == select_group_values(groups@),
{
    let mut array = Array::new();
    let mut i: usize = 0;
    while i < groups.len()
        invariant
            i <= groups.len(),
            array_items(array) == select_group_values(groups@.take(i as int)),
        decreases groups.len() - i,
    {
        let group = &groups[i];
        let mut dict = Dictionary::new();
        insert_text(&mut dict, "group", group.group.as_str());
        insert_text(&mut dict, "name", group.name.as_str());
        insert_list(&mut dict, "options", select_option_array(&group.options));
        assert(dictionary_entries(dict) =~= select_group_fields(*group));
        push_record(&mut array, dict);
        i += 1;
        assert(array_items(array) =~= select_group_values(groups@.take(i as int)));
    }
    assert(groups@.take(groups.len() as int) =~= groups@);
    array
}

fn select_dictionary(select: &SessionConfigSelect) -> (dict: Dictionary)
    ensures
        dictionary_entries(dict) == select_fields(*select),
{
    let mut dict = Dictionary::new();
    insert_text(&mut dict, "currentValue", select.current_value.as_str());
    insert_text(&mut dict, "type", "select");
    let options = match &select.options {
        SessionConfigSelectOptions::Ungrouped(options) => select_option_array(options),
        SessionConfigSelectOptions::Grouped(groups) => select_group_array(groups),
    };
    insert_list(&mut dict, "options", options);
    assert(dictionary_entries(dict) =~= select_fields(*select));
    dict
}

fn config_option_dictionary(option: &SessionConfigOption) -> (dict: Dictionary)
    ensures
        dictionary_entries(dict) == config_option_fields(*option),
{
    let mut dict = Dictionary::new();
    insert_text(&mut dict, "id", option.id.as_str());
    insert_text(&mut dict, "name", option.name.as_str());
    insert_optional_text(&mut dict, "description", &option.description);
    let ghost described = dictionary_entries(dict);
    if let Some(category) = &option.category {
        let name = category.to_string();
        insert_text(&mut dict, "category", name.as_str());
    }
    let ghost categorized = dictionary_entries(dict);
    assert(categorized =~= described + optional_field(
        "category"@,
        match option.category {
            Some(category) => Some(Value::Text(category.name())),
            None => None,
        },
    ));
    if let SessionConfigKind::Select(select) = &option.kind {
        insert_record(&mut dict, "kind", select_dictionary(select));
    }
    assert(dictionary_entries(dict) =~= categorized + optional_field(
        "kind"@,
        match option.kind {
            SessionConfigKind::Select(select) => Some(Value::Record(select_fields(select))),
            SessionConfigKind::Other => None,
        },
    ));
    dict
}

/// Translates the session's configuration options into their record. It
/// never fails.
pub fn config_option_event(update: ConfigOptionUpdate) -> (result: Result<Dictionary, ProtocolError>)
    ensures
        result is Ok,
        dictionary_entries(result->Ok_0) == config_option_update_fields(update),
{
    let mut options = Array::new();
    let mut i: usize = 0;
    while i < update.config_options.len()
        invariant
            i <= update.config_options.len(),
            array_items(options) == config_option_values(update.config_options@.take(i as int)),
        decreases update.config_options.len() - i,
    {
        let dict = config_option_dictionary(&update.config_options[i]);
        push_record(&mut options, dict);
        i += 1;
        assert(array_items(options) =~= config_option_values(
            update.config_options@.take(i as int),
        ));
    }
    assert(update.config_options@.take(update.config_options.len() as int)
        =~= update.config_options@);
    let mut data = Dictionary::new();
    insert_list(&mut data, "configOptions", options);
    insert_optional_text(&mut data, "meta", &update.meta);
    Ok(data)
}

} // verus!
