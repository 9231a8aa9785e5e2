use hermes::apc::protocol::content::{ContentBlock, TextContent};
use hermes::apc::protocol::tool_call::{
    Content, ToolCall, ToolCallContent, ToolCallLocation, ToolCallStatus, ToolKind,
};
use hermes::nvim::event::tool_call::required_paths;
use hermes::nvim::event::tool_call_content::FileRead;
use hermes::nvim::event::tool_call_event;

#[test]
fn test_tool_call_event_ok() {
    let tool_call = ToolCall::new("call_001", "Reading file")
        .kind(ToolKind::Read)
        .status(ToolCallStatus::Pending);

    let result = tool_call_event(tool_call, vec![]);
    assert_eq!(result.is_ok(), true);
}

#[test]
fn test_tool_call_event_contains_id() {
    let tool_call = ToolCall::new("call_001", "Reading file")
        .kind(ToolKind::Read)
        .status(ToolCallStatus::Pending);

    let result = tool_call_event(tool_call, vec![]).unwrap();
    let id = result.get("id").unwrap();
    assert_eq!(*id, nvim_oxi::Object::from("call_001"));
}

#[test]
fn test_tool_call_event_with_input_output() {
    let tool_call = ToolCall::new("call_002", "Writing file")
        .kind(ToolKind::Edit)
        .status(ToolCallStatus::InProgress)
        .raw_input(r#"{"path":"/test/file.txt"}"#.to_string())
        .raw_output(r#"{"bytes_written":100}"#.to_string());

    let result = tool_call_event(tool_call, vec![]);
    assert_eq!(result.is_ok(), true);
}

#[test]
fn test_tool_call_event_title() {
    let tool_call = ToolCall::new("call_003", "Analyzing code")
        .kind(ToolKind::Read)
        .status(ToolCallStatus::Pending);

    let result = tool_call_event(tool_call, vec![]).unwrap();
    let title = result.get("title").unwrap();
    assert_eq!(*title, nvim_oxi::Object::from("Analyzing code"));
}

#[test]
fn test_tool_call_event_kind_read() {
    let tool_call = ToolCall::new("call_004", "Read file")
        .kind(ToolKind::Read)
        .status(ToolCallStatus::Pending);

    let result = tool_call_event(tool_call, vec![]).unwrap();
    let kind = result.get("kind").unwrap();
    assert_eq!(*kind, nvim_oxi::Object::from("Read"));
}

#[test]
fn test_tool_call_event_kind_edit() {
    let tool_call = ToolCall::new("call_005", "Edit file")
        .kind(ToolKind::Edit)
        .status(ToolCallStatus::Pending);

    let result = tool_call_event(tool_call, vec![]).unwrap();
    let kind = result.get("kind").unwrap();
    assert_eq!(*kind, nvim_oxi::Object::from("Edit"));
}

#[test]
fn test_tool_call_event_status_pending() {
    let tool_call = ToolCall::new("call_006", "Task")
        .kind(ToolKind::Read)
        .status(ToolCallStatus::Pending);

    let result = tool_call_event(tool_call, vec![]).unwrap();
    let status = result.get("status").unwrap();
    assert_eq!(*status, nvim_oxi::Object::from("Pending"));
}

#[test]
fn test_tool_call_event_status_in_progress() {
    let tool_call = ToolCall::new("call_007", "Task")
        .kind(ToolKind::Read)
        .status(ToolCallStatus::InProgress);

    let result = tool_call_event(tool_call, vec![]).unwrap();
    let status = result.get("status").unwrap();
    assert_eq!(*status, nvim_oxi::Object::from("InProgress"));
}

#[test]
fn test_tool_call_event_status_completed() {
    let tool_call = ToolCall::new("call_008", "Task")
        .kind(ToolKind::Read)
        .status(ToolCallStatus::Completed);

    let result = tool_call_event(tool_call, vec![]).unwrap();
    let status = result.get("status").unwrap();
    assert_eq!(*status, nvim_oxi::Object::from("Completed"));
}

#[test]
fn test_tool_call_event_input() {
    let tool_call = ToolCall::new("call_009", "Task")
        .kind(ToolKind::Read)
        .status(ToolCallStatus::Pending)
        .raw_input(r#"{"file":"/path/to/file.txt"}"#.to_string());

    let result = tool_call_event(tool_call, vec![]).unwrap();
    let input = result.get("input").unwrap();
    assert_eq!(
        *input,
        nvim_oxi::Object::from(r#"{"file":"/path/to/file.txt"}"#)
    );
}

#[test]
fn test_tool_call_event_output() {
    let tool_call = ToolCall::new("call_010", "Task")
        .kind(ToolKind::Read)
        .status(ToolCallStatus::Completed)
        .raw_output(r#"{"result":"success"}"#.to_string());

    let result = tool_call_event(tool_call, vec![]).unwrap();
    let output = result.get("output").unwrap();
    assert_eq!(*output, nvim_oxi::Object::from(r#"{"result":"success"}"#));
}

#[test]
fn test_tool_call_event_contains_content_array() {
    let tool_call = ToolCall::new("call_011", "Task")
        .kind(ToolKind::Read)
        .status(ToolCallStatus::Pending);

    let result = tool_call_event(tool_call, vec![]).unwrap();
    let content = result.get("content").unwrap();
    assert_eq!(*content, nvim_oxi::Object::from(nvim_oxi::Array::new()));
}

#[test]
fn test_tool_call_event_contains_locations_array() {
    let tool_call = ToolCall::new("call_012", "Task")
        .kind(ToolKind::Read)
        .status(ToolCallStatus::Pending);

    let result = tool_call_event(tool_call, vec![]).unwrap();
    let locations = result.get("locations").unwrap();
    assert_eq!(*locations, nvim_oxi::Object::from(nvim_oxi::Array::new()));
}

#[test]
fn test_tool_call_event_with_text_content() {
    let text_content = TextContent::new("Hello, world!");
    let content_block = ContentBlock::Text(text_content);
    let content = Content::new(content_block);
    let tool_call = ToolCall::new("call_013", "Task")
        .kind(ToolKind::Read)
        .status(ToolCallStatus::Pending)
        .content(vec![ToolCallContent::Content(content)]);

    let result = tool_call_event(tool_call, vec![]).unwrap();
    let content_arr = result.get("content").unwrap();

    let mut expected_dict = nvim_oxi::Dictionary::new();
    expected_dict.insert("text", "Hello, world!");
    expected_dict.insert("type", "text");
    let expected = nvim_oxi::Array::from_iter([nvim_oxi::Object::from(expected_dict)]);

    assert_eq!(*content_arr, nvim_oxi::Object::from(expected));
}

#[test]
fn test_tool_call_event_with_location() {
    let path = "/tmp/located.txt";

    let location = ToolCallLocation::new(path);
    let tool_call = ToolCall::new("call_014", "Task")
        .kind(ToolKind::Read)
        .status(ToolCallStatus::Pending)
        .locations(vec![location]);

    assert_eq!(required_paths(&tool_call), vec![path.to_string()]);
    let reads = vec![FileRead::Contents("file contents".to_string())];
    let result = tool_call_event(tool_call, reads).unwrap();
    let locations = result.get("locations").unwrap();

    let mut expected_dict = nvim_oxi::Dictionary::new();
    expected_dict.insert("path", path);
    expected_dict.insert("contents", "file contents");
    let expected = nvim_oxi::Array::from_iter([nvim_oxi::Object::from(expected_dict)]);

    assert_eq!(*locations, nvim_oxi::Object::from(expected));
}
