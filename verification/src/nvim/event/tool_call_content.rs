//! The records of what a tool call produced and of the places it touches.
//!
//! A diff and a location each refer to a file whose current contents belong
//! in the record. Reading is the caller's part: the caller reads the files
//! named by `content_paths` and `location_paths`, in that order, and hands
//! the outcomes over as a list of `FileRead`. A file without an outcome in the
//! list counts as not read, and fails the translation as a failed read does.

use crate::apc::error::{ProtocolError, ProtocolFailure, TranslationError};
use crate::apc::protocol::content::ContentBlock;
use crate::apc::protocol::tool_call::{Diff, Terminal, ToolCallContent, ToolCallLocation};
use crate::nvim::event::communication::{content_dictionary, content_fields};
use crate::nvim::value::{
    array_items, dictionary_entries, has_key, insert_text, optional_text, push_record, Fields,
    Value,
};
use nvim_oxi::{Array, Dictionary};
use vstd::prelude::*;

verus! {

/// The outcome of reading one file.
#[derive(Debug, Clone)]
pub enum FileRead {
    /// The file's contents.
    Contents(String),
    /// Why the file could not be read.
    Failed(String),
}

/// The cause that is reported for a file without an outcome.
pub open spec fn not_read() -> Seq<char> {
    "file was not read"@
}

/// The outcome at position `index` of a list of reads, if the list reaches
/// that far.
pub open spec fn read_at(reads: Seq<FileRead>, index: int) -> Option<FileRead> {
    if 0 <= index < reads.len() {
        Some(reads[index])
    } else {
        None
    }
}

/// The failure that is reported when the file at `path` could not be read.
pub open spec fn read_failure(path: Seq<char>, cause: Seq<char>) -> ProtocolFailure {
    ProtocolFailure::Internal(path + ": "@ + cause)
}

/// The type tag of a content block inside a tool call: the name of its kind
/// in lower case.
pub open spec fn content_type(content: ContentBlock) -> Seq<char> {
    match content {
        ContentBlock::Text(_) => "text"@,
        ContentBlock::Image(_) => "image"@,
        ContentBlock::ResourceLink(_) => "resourcelink"@,
        ContentBlock::Resource(_) => "resource"@,
        ContentBlock::Audio(_) => "audio"@,
    }
}

/// The record of a content block inside a tool call: the block's own record,
/// then `type`.
pub open spec fn tagged_content_fields(content: ContentBlock) -> Fields {
    content_fields(content).push(("type"@, Value::Text(content_type(content))))
}

/// The record of a terminal: `id` and the type `terminal`.
pub open spec fn terminal_fields(terminal: Terminal) -> Fields {
    seq![("id"@, Value::Text(terminal.terminal_id@)), ("type"@, Value::Text("terminal"@))]
}

/// The record of a diff whose file holds `contents`: the type `diff`, the
/// path as it was given, the file's contents, the new text, and the old text
/// where the diff has it.
pub open spec fn diff_fields(diff: Diff, contents: Seq<char>) -> Fields {
    seq![
        ("type"@, Value::Text("diff"@)),
        ("path"@, Value::Text(diff.path@)),
        ("contents"@, Value::Text(contents)),
        ("newText"@, Value::Text(diff.new_text@)),
    ] + optional_text("oldText"@, diff.old_text)
}

/// The record of a diff keeps the path and the file's contents apart: `path`
/// holds the path as it was given, `contents` what the file holds. Without an
/// old text the record ends with `newText` and has no `oldText` key; with one,
/// `oldText` follows with the text that was supplied.
pub proof fn lemma_diff_record(diff: Diff, contents: Seq<char>)
    ensures
        diff_fields(diff, contents)[0] == ("type"@, Value::Text("diff"@)),
        diff_fields(diff, contents)[1] == ("path"@, Value::Text(diff.path@)),
        diff_fields(diff, contents)[2] == ("contents"@, Value::Text(contents)),
        diff_fields(diff, contents)[3] == ("newText"@, Value::Text(diff.new_text@)),
        diff.old_text is None ==> diff_fields(diff, contents).len() == 4 && !has_key(
            diff_fields(diff, contents),
            "oldText"@,
        ),
        diff.old_text is Some ==> diff_fields(diff, contents).len() == 5 && diff_fields(
            diff,
            contents,
        )[4] == ("oldText"@, Value::Text(diff.old_text->0@)),
{
    reveal_strlit("type");
    reveal_strlit("path");
    reveal_strlit("contents");
    reveal_strlit("newText");
    reveal_strlit("oldText");
    assert("type"@.len() == 4);
    assert("path"@.len() == 4);
    assert("contents"@.len() == 8);
    assert("newText"@.len() == 7);
    assert("oldText"@.len() == 7);
    assert("newText"@[0] == 'n');
    assert("oldText"@[0] == 'o');
}

/// The record of a location whose file holds `contents`: the path as it was
/// given and the file's contents.
pub open spec fn location_fields(location: ToolCallLocation, contents: Seq<char>) -> Fields {
    seq![("path"@, Value::Text(location.path@)), ("contents"@, Value::Text(contents))]
}

/// What the translation of one item comes to. Only a diff looks at `read`.
pub open spec fn item_outcome(item: ToolCallContent, read: Option<FileRead>) -> Result<
    Fields,
    ProtocolFailure,
> {
    match item {
        ToolCallContent::Content(wrapped) => match wrapped.content {
            ContentBlock::Audio(_) => Err(ProtocolFailure::MethodNotFound),
            _ => Ok(tagged_content_fields(wrapped.content)),
        },
        ToolCallContent::Terminal(terminal) => Ok(terminal_fields(terminal)),
        ToolCallContent::Diff(diff) => match read {
            Some(FileRead::Contents(contents)) => Ok(diff_fields(diff, contents@)),
            Some(FileRead::Failed(cause)) => Err(read_failure(diff.path@, cause@)),
            None => Err(read_failure(diff.path@, not_read())),
        },
    }
}

/// What the translation of one location comes to.
pub open spec fn location_outcome(location: ToolCallLocation, read: Option<FileRead>) -> Result<
    Fields,
    ProtocolFailure,
> {
    match read {
        Some(FileRead::Contents(contents)) => Ok(location_fields(location, contents@)),
        Some(FileRead::Failed(cause)) => Err(read_failure(location.path@, cause@)),
        None => Err(read_failure(location.path@, not_read())),
    }
}

/// The paths of the diffs among the first `count` items, in order: the files
/// that their translation needs.
pub open spec fn content_paths(items: Seq<ToolCallContent>, count: int) -> Seq<Seq<char>>
    decreases count,
{
    if count <= 0 {
        Seq::empty()
    } else {
        let before = content_paths(items, count - 1);
        match items[count - 1] {
            ToolCallContent::Diff(diff) => before.push(diff.path@),
            _ => before,
        }
    }
}

/// The paths of the first `count` locations, in order.
pub open spec fn location_paths(locations: Seq<ToolCallLocation>, count: int) -> Seq<Seq<char>>
    decreases count,
{
    if count <= 0 {
        Seq::empty()
    } else {
        location_paths(locations, count - 1).push(locations[count - 1].path@)
    }
}

/// What the translation of the first `count` items comes to, where the reads
/// for them start at position `first` of `reads`: the records in order, or the
/// failure of the first item that fails.
pub open spec fn items_outcome(
    items: Seq<ToolCallContent>,
    reads: Seq<FileRead>,
    first: int,
    count: int,
) -> Result<Seq<Value>, ProtocolFailure>
    decreases count,
{
    if count <= 0 {
        Ok(Seq::empty())
    } else {
        match items_outcome(items, reads, first, count - 1) {
            Err(failure) => Err(failure),
            Ok(records) => match item_outcome(
                items[count - 1],
                read_at(reads, first + content_paths(items, count - 1).len()),
            ) {
                Err(failure) => Err(failure),
                Ok(fields) => Ok(records.push(Value::Record(fields))),
            },
        }
    }
}

/// What the translation of the first `count` locations comes to, where the
/// reads for them start at position `first` of `reads`.
pub open spec fn locations_outcome(
    locations: Seq<ToolCallLocation>,
    reads: Seq<FileRead>,
    first: int,
    count: int,
) -> Result<Seq<Value>, ProtocolFailure>
    decreases count,
{
    if count <= 0 {
        Ok(Seq::empty())
    } else {
        match locations_outcome(locations, reads, first, count - 1) {
            Err(failure) => Err(failure),
            Ok(records) => match location_outcome(
                locations[count - 1],
                read_at(reads, first + count - 1),
            ) {
                Err(failure) => Err(failure),
                Ok(fields) => Ok(records.push(Value::Record(fields))),
            },
        }
    }
}

/// Once an item has failed, the items behind it change nothing.
pub proof fn lemma_items_failure_stays(
    items: Seq<ToolCallContent>,
    reads: Seq<FileRead>,
    first: int,
    failed: int,
    count: int,
)
    requires
        0 <= failed <= count,
        items_outcome(items, reads, first, failed) is Err,
    ensures
        items_outcome(items, reads, first, count) == items_outcome(items, reads, first, failed),
    decreases count - failed,
{
    if failed < count {
        lemma_items_failure_stays(items, reads, first, failed, count - 1);
    }
}

/// Once a location has failed, the locations behind it change nothing.
pub proof fn lemma_locations_failure_stays(
    locations: Seq<ToolCallLocation>,
    reads: Seq<FileRead>,
    first: int,
    failed: int,
    count: int,
)
    requires
        0 <= failed <= count,
        locations_outcome(locations, reads, first, failed) is Err,
    ensures
        locations_outcome(locations, reads, first, count) == locations_outcome(
            locations,
            reads,
            first,
            failed,
        ),
    decreases count - failed,
{
    if failed < count {
        lemma_locations_failure_stays(locations, reads, first, failed, count - 1);
    }
}

/// The failure for a file that could not be read, or was not.
fn failed_read(path: &String, read: Option<&FileRead>) -> (error: ProtocolError)
    requires
        !(read matches Some(FileRead::Contents(_))),
    ensures
        error@ == read_failure(
            path@,
            match read {
                Some(FileRead::Failed(cause)) => cause@,
                _ => not_read(),
            },
        ),
{
    let cause = match read {
        Some(FileRead::Failed(cause)) => cause.clone(),
        _ => "file was not read".to_owned(),
    };
    let failure = TranslationError::Io { path: path.clone(), cause };
    failure.into_protocol_error()
}

fn read_of(reads: &Vec<FileRead>, index: usize) -> (read: Option<&FileRead>)
    ensures
        match read {
            Some(read) => read_at(reads@, index as int) == Some(*read),
            None => read_at(reads@, index as int) is None,
        },
{
    if index < reads.len() {
        Some(&reads[index])
    } else {
        None
    }
}

pub(crate) fn item_dictionary(item: &ToolCallContent, read: Option<&FileRead>) -> (result: Result<
    Dictionary,
    ProtocolError,
>)
    ensures
        match item_outcome(
            *item,
            match read {
                Some(read) => Some(*read),
                None => None,
            },
        ) {
            Ok(fields) => result is Ok && dictionary_entries(result->Ok_0) == fields,
            Err(failure) => result is Err && result->Err_0@ == failure,
        },
{
    match item {
        ToolCallContent::Content(wrapped) => {
            match content_dictionary(&wrapped.content) {
                Ok((mut dict, _)) => {
                    let tag = match &wrapped.content {
                        ContentBlock::Text(_) => "text",
                        ContentBlock::Image(_) => "image",
                        ContentBlock::ResourceLink(_) => "resourcelink",
                        ContentBlock::Resource(_) => "resource",
                        ContentBlock::Audio(_) => "audio",
                    };
                    insert_text(&mut dict, "type", tag);
                    Ok(dict)
                },
                Err(error) => Err(error),
            }
        },
        ToolCallContent::Terminal(terminal) => {
            let mut dict = Dictionary::new();
            insert_text(&mut dict, "id", terminal.terminal_id.as_str());
            insert_text(&mut dict, "type", "terminal");
            assert(dictionary_entries(dict) =~= terminal_fields(*terminal));
            Ok(dict)
        },
        ToolCallContent::Diff(diff) => {
            match read {
                Some(FileRead::Contents(contents)) => {
                    let mut dict = Dictionary::new();
                    insert_text(&mut dict, "type", "diff");
                    insert_text(&mut dict, "path", diff.path.as_str());
                    insert_text(&mut dict, "contents", contents.as_str());
                    insert_text(&mut dict, "newText", diff.new_text.as_str());
                    if let Some(old_text) = &diff.old_text {
                        insert_text(&mut dict, "oldText", old_text.as_str());
                    }
                    assert(dictionary_entries(dict) =~= diff_fields(*diff, contents@));
                    Ok(dict)
                },
                _ => Err(failed_read(&diff.path, read)),
            }
        },
    }
}

pub(crate) fn location_dictionary(location: &ToolCallLocation, read: Option<&FileRead>) -> (result:
    Result<Dictionary, ProtocolError>)
    ensures
        match location_outcome(
            *location,
            match read {
                Some(read) => Some(*read),
                None => None,
            },
        ) {
            Ok(fields) => result is Ok && dictionary_entries(result->Ok_0) == fields,
            Err(failure) => result is Err && result->Err_0@ == failure,
        },
{
    match read {
        Some(FileRead::Contents(contents)) => {
            let mut dict = Dictionary::new();
            insert_text(&mut dict, "path", location.path.as_str());
            insert_text(&mut dict, "contents", contents.as_str());
            assert(dictionary_entries(dict) =~= location_fields(*location, contents@));
            Ok(dict)
        },
        _ => Err(failed_read(&location.path, read)),
    }
}

/// Translates the items of a tool call. Returns the array of their records
/// and the position of the first read that they did not use.
pub(crate) fn content_array(items: &Vec<ToolCallContent>, reads: &Vec<FileRead>, first: usize) -> (result:
    Result<(Array, usize), ProtocolError>)
    requires
        first <= reads.len(),
    ensures
        match items_outcome(items@, reads@, first as int, items.len() as int) {
            Ok(records) => result is Ok && array_items(result->Ok_0.0) == records
                && result->Ok_0.1 == first + content_paths(items@, items.len() as int).len()
                && result->Ok_0.1 <= reads.len(),
            Err(failure) => result is Err && result->Err_0@ == failure,
        },
{
    let mut array = Array::new();
    let mut next = first;
    let mut i: usize = 0;
    while i < items.len()
        invariant
            i <= items.len(),
            next <= reads.len(),
            next == first + content_paths(items@, i as int).len(),
            items_outcome(items@, reads@, first as int, i as int) == Ok::<
                Seq<Value>,
                ProtocolFailure,
            >(array_items(array)),
        decreases items.len() - i,
    {
        let item = &items[i];
        let read = read_of(reads, next);
        match item_dictionary(item, read) {
            Ok(dict) => {
                push_record(&mut array, dict);
                if let ToolCallContent::Diff(_) = item {
                    next += 1;
                }
            },
            Err(error) => {
                proof {
                    lemma_items_failure_stays(
                        items@,
                        reads@,
                        first as int,
                        i + 1,
                        items.len() as int,
                    );
                }
                return Err(error);
            },
        }
        i += 1;
    }
    Ok((array, next))
}

/// Translates the locations of a tool call, whose reads start at position
/// `first`.
pub(crate) fn locations_array(
    locations: &Vec<ToolCallLocation>,
    reads: &Vec<FileRead>,
    first: usize,
) -> (result: Result<Array, ProtocolError>)
    requires
        first <= reads.len(),
    ensures
        match locations_outcome(locations@, reads@, first as int, locations.len() as int) {
            Ok(records) => result is Ok && array_items(result->Ok_0) == records,
            Err(failure) => result is Err && result->Err_0@ == failure,
        },
{
    let mut array = Array::new();
    let mut next = first;
    let mut i: usize = 0;
    while i < locations.len()
        invariant
            i <= locations.len(),
            next <= reads.len(),
            next == first + i,
            locations_outcome(locations@, reads@, first as int, i as int) == Ok::<
                Seq<Value>,
                ProtocolFailure,
            >(array_items(array)),
        decreases locations.len() - i,
    {
        let read = read_of(reads, next);
        match location_dictionary(&locations[i], read) {
            Ok(dict) => {
                push_record(&mut array, dict);
                next += 1;
            },
            Err(error) => {
                proof {
                    lemma_locations_failure_stays(
                        locations@,
                        reads@,
                        first as int,
                        i + 1,
                        locations.len() as int,
                    );
                }
                return Err(error);
            },
        }
        i += 1;
    }
    Ok(array)
}

/// Translates one item of a tool call into its record. A diff needs the
/// outcome of reading its file; the other items ignore `read`.
///
/// Fails with `MethodNotFound` for audio content, and with an internal error
/// that names the path and the cause for a diff whose file was not read.
pub fn parse_tool_call_content(content: ToolCallContent, read: Option<FileRead>) -> (result: Result<
    Dictionary,
    ProtocolError,
>)
    ensures
        match item_outcome(content, read) {
            Ok(fields) => result is Ok && dictionary_entries(result->Ok_0) == fields,
            Err(failure) => result is Err && result->Err_0@ == failure,
        },
{
    match &read {
        Some(read) => item_dictionary(&content, Some(read)),
        None => item_dictionary(&content, None),
    }
}

} // verus!
