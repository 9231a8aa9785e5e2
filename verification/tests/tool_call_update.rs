use hermes::apc::protocol::content::{ContentBlock, TextContent};
use hermes::apc::protocol::tool_call::{
    Content, ToolCallContent, ToolCallUpdate, ToolCallUpdateFields,
};
use hermes::nvim::event::tool_call_update_event;

#[test]
fn test_tool_call_update_event_ok() {
    let fields = ToolCallUpdateFields::new();
    let update = ToolCallUpdate::new("call_001", fields);

    let result = tool_call_update_event(update, vec![]);
    assert_eq!(result.is_ok(), true);
}

#[test]
fn test_tool_call_update_event_id() {
    let fields = ToolCallUpdateFields::new();
    let update = ToolCallUpdate::new("call_001", fields);

    let result = tool_call_update_event(update, vec![]).unwrap();
    let id = result.get("id").unwrap();
    assert_eq!(*id, nvim_oxi::Object::from("call_001"));
}

#[test]
fn test_tool_call_update_event_id_different_value() {
    let fields = ToolCallUpdateFields::new();
    let update = ToolCallUpdate::new("call_999", fields);

    let result = tool_call_update_event(update, vec![]).unwrap();
    let id = result.get("id").unwrap();
    assert_eq!(*id, nvim_oxi::Object::from("call_999"));
}

#[test]
fn test_tool_call_update_event_without_fields_content() {
    let fields = ToolCallUpdateFields::new();
    let update = ToolCallUpdate::new("call_002", fields);

    let result = tool_call_update_event(update, vec![]).unwrap();
    assert_eq!(result.get("fields").is_some(), false);
}

#[test]
fn test_tool_call_update_event_with_empty_content() {
    let fields = ToolCallUpdateFields::new().content(vec![]);
    let update = ToolCallUpdate::new("call_003", fields);

    let result = tool_call_update_event(update, vec![]).unwrap();
    let fields_arr = result.get("fields").unwrap();
    assert_eq!(*fields_arr, nvim_oxi::Object::from(nvim_oxi::Array::new()));
}

#[test]
fn test_tool_call_update_event_with_text_content() {
    let text_content = TextContent::new("Hello, world!");
    let content_block = ContentBlock::Text(text_content);
    let content = Content::new(content_block);
    let fields = ToolCallUpdateFields::new().content(vec![ToolCallContent::Content(content)]);
    let update = ToolCallUpdate::new("call_004", fields);

    let result = tool_call_update_event(update, vec![]).unwrap();
    let fields_arr = result.get("fields").unwrap();

    let mut expected_dict = nvim_oxi::Dictionary::new();
    expected_dict.insert("text", "Hello, world!");
    expected_dict.insert("type", "text");
    let expected = nvim_oxi::Array::from_iter([nvim_oxi::Object::from(expected_dict)]);

    assert_eq!(*fields_arr, nvim_oxi::Object::from(expected));
}

#[test]
fn test_tool_call_update_event_without_meta() {
    let fields = ToolCallUpdateFields::new();
    let update = ToolCallUpdate::new("call_005", fields);

    let result = tool_call_update_event(update, vec![]).unwrap();
    assert_eq!(result.get("meta").is_some(), false);
}

#[test]
fn test_tool_call_update_event_with_meta() {
    let fields = ToolCallUpdateFields::new();
    let meta = "{\"source\": String(\"agent\")}".to_string();
    let update = ToolCallUpdate::new("call_006", fields).meta(meta);

    let result = tool_call_update_event(update, vec![]).unwrap();
    assert_eq!(result.get("meta").is_some(), true);
}
