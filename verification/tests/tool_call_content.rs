use hermes::apc::error::ProtocolError;
use hermes::apc::protocol::content::{AudioContent, ContentBlock, ImageContent, TextContent};
use hermes::apc::protocol::tool_call::{Content, Diff, Terminal, ToolCallContent};
use hermes::nvim::event::parse_tool_call_content;
use hermes::nvim::event::tool_call_content::FileRead;

#[test]
fn test_parse_tool_call_content_ok() {
    let content =
        ToolCallContent::Content(Content::new(ContentBlock::Text(TextContent::new("Hello"))));
    let result = parse_tool_call_content(content, None);
    assert!(result.is_ok());
}

#[test]
fn test_parse_tool_call_content_text_content() {
    let content = ToolCallContent::Content(Content::new(ContentBlock::Text(TextContent::new(
        "Hello world",
    ))));
    let dict = parse_tool_call_content(content, None).unwrap();

    let text = dict.get("text").unwrap();
    assert_eq!(*text, nvim_oxi::Object::from("Hello world"));

    let type_field = dict.get("type").unwrap();
    assert_eq!(*type_field, nvim_oxi::Object::from("text"));
}

#[test]
fn test_parse_tool_call_content_image_content() {
    let content = ToolCallContent::Content(Content::new(ContentBlock::Image(
        ImageContent::new("base64data", "image/png"),
    )));
    let dict = parse_tool_call_content(content, None).unwrap();

    let type_field = dict.get("type").unwrap();
    assert_eq!(*type_field, nvim_oxi::Object::from("image"));
}

#[test]
fn test_parse_tool_call_content_terminal() {
    let terminal = Terminal::new("term_123");
    let content = ToolCallContent::Terminal(terminal);
    let dict = parse_tool_call_content(content, None).unwrap();

    let id = dict.get("id").unwrap();
    assert_eq!(*id, nvim_oxi::Object::from("term_123"));

    let type_field = dict.get("type").unwrap();
    assert_eq!(*type_field, nvim_oxi::Object::from("terminal"));
}

#[test]
fn test_parse_tool_call_content_diff_without_old_text() {
    let path = "/tmp/changed.txt";

    let diff = Diff::new(path, "new content");
    let content = ToolCallContent::Diff(diff);
    let read = FileRead::Contents("original content".to_string());
    let dict = parse_tool_call_content(content, Some(read)).unwrap();

    let type_field = dict.get("type").unwrap();
    assert_eq!(*type_field, nvim_oxi::Object::from("diff"));

    let path_field = dict.get("path").unwrap();
    assert_eq!(*path_field, nvim_oxi::Object::from(path));

    let contents = dict.get("contents").unwrap();
    assert_eq!(*contents, nvim_oxi::Object::from("original content"));

    let new_text = dict.get("newText").unwrap();
    assert_eq!(*new_text, nvim_oxi::Object::from("new content"));

    assert!(dict.get("oldText").is_none());
}

#[test]
fn test_parse_tool_call_content_diff_with_old_text() {
    let path = "/tmp/changed.txt";

    let diff = Diff::new(path, "new content").old_text(Some("old content".to_string()));
    let content = ToolCallContent::Diff(diff);
    let read = FileRead::Contents("old content".to_string());
    let dict = parse_tool_call_content(content, Some(read)).unwrap();

    let type_field = dict.get("type").unwrap();
    assert_eq!(*type_field, nvim_oxi::Object::from("diff"));

    let old_text = dict.get("oldText").unwrap();
    assert_eq!(*old_text, nvim_oxi::Object::from("old content"));

    let new_text = dict.get("newText").unwrap();
    assert_eq!(*new_text, nvim_oxi::Object::from("new content"));
}

#[test]
fn diff_of_a_file_with_old_content_keeps_path_and_contents_apart() {
    let diff = Diff::new("/tmp/a.txt", "new content");
    let read = FileRead::Contents("old content".to_string());
    let dict = parse_tool_call_content(ToolCallContent::Diff(diff), Some(read)).unwrap();

    let mut expected = nvim_oxi::Dictionary::new();
    expected.insert("type", "diff");
    expected.insert("path", "/tmp/a.txt");
    expected.insert("contents", "old content");
    expected.insert("newText", "new content");
    assert_eq!(dict, expected);
}

#[test]
fn diff_with_old_text_ends_with_it() {
    let diff = Diff::new("/tmp/a.txt", "new content").old_text(Some("before".to_string()));
    let read = FileRead::Contents("old content".to_string());
    let dict = parse_tool_call_content(ToolCallContent::Diff(diff), Some(read)).unwrap();

    let mut expected = nvim_oxi::Dictionary::new();
    expected.insert("type", "diff");
    expected.insert("path", "/tmp/a.txt");
    expected.insert("contents", "old content");
    expected.insert("newText", "new content");
    expected.insert("oldText", "before");
    assert_eq!(dict, expected);
}

#[test]
fn diff_whose_file_could_not_be_read_fails() {
    let diff = Diff::new("/tmp/missing.txt", "new content");
    let read = FileRead::Failed("No such file or directory".to_string());
    let error = parse_tool_call_content(ToolCallContent::Diff(diff), Some(read)).unwrap_err();

    assert!(matches!(
        error,
        ProtocolError::Internal(ref message)
            if message == "/tmp/missing.txt: No such file or directory"
    ));
}

#[test]
fn diff_without_a_read_fails() {
    let diff = Diff::new("/tmp/unread.txt", "new content");
    let error = parse_tool_call_content(ToolCallContent::Diff(diff), None).unwrap_err();

    assert!(matches!(
        error,
        ProtocolError::Internal(ref message) if message == "/tmp/unread.txt: file was not read"
    ));
}

#[test]
fn audio_inside_a_tool_call_is_not_found() {
    let audio = ContentBlock::Audio(AudioContent::new("base64data", "audio/wav"));
    let content = ToolCallContent::Content(Content::new(audio));
    let error = parse_tool_call_content(content, None).unwrap_err();

    assert!(matches!(error, ProtocolError::MethodNotFound));
}
