//! The Neovim backend: what is sent to an instance, and how its answers
//! are read.

pub mod buffer;
pub mod lua;

use crate::action::{ActionError, EditorContext};
use crate::text::{push_signed_decimal, replace_char, replaced, signed_decimal};
use vstd::prelude::*;
use vstd::string::*;

verus! {

/// The Neovim instances of a directory, by their sockets.
pub struct NeovimAction {
    pub socket_paths: Vec<String>,
}

impl NeovimAction {
    pub fn new(socket_paths: Vec<String>) -> (action: Self)
        ensures
            action.socket_paths == socket_paths,
    {
        NeovimAction { socket_paths }
    }
}

/// The command that prints `message`: the message between single quotes,
/// each single quote in it doubled.
pub open spec fn echo_command_text(message: Seq<char>) -> Seq<char> {
    "echo '"@ + replaced(message, '\'', "''"@) + "'"@
}

/// The editor command that prints `message` in the message area.
pub fn echo_command(message: &str) -> (command: String)
    ensures
        command@ == echo_command_text(message@),
{
    let quoted = replace_char(message, '\'', "''");
    let mut command = String::from_str("echo '");
    command.append(quoted.as_str());
    command.append("'");
    command
}

/// The command that closes buffer `buf_number`.
pub open spec fn delete_command_text(buf_number: int) -> Seq<char> {
    "bdelete "@ + signed_decimal(buf_number)
}

/// The editor command that closes a buffer.
pub fn delete_command(buf_number: i64) -> (command: String)
    ensures
        command@ == delete_command_text(buf_number as int),
{
    let mut command = String::from_str("bdelete ");
    push_signed_decimal(&mut command, buf_number);
    command
}

/// Whether the parts of a reported selection make up a selection: the
/// buffer has a file, and the lines are counted from one, in order, and
/// fit the line numbers of an `EditorContext`.
pub open spec fn is_selection(file_path: Seq<char>, start_line: u64, end_line: u64) -> bool {
    file_path.len() > 0 && 1 <= start_line <= end_line <= u32::MAX
}

/// The selection that an instance reported, from the parts of its
/// answer. Parts that make up no selection give `None`.
pub fn selection_from_parts(
    file_path: String,
    start_line: u64,
    end_line: u64,
    content: String,
) -> (selection: Option<EditorContext>)
    ensures
        match selection {
            Some(context) => is_selection(file_path@, start_line, end_line) && context.is_valid()
                && context.file_path == file_path && context.start_line == start_line
                && context.end_line == end_line && context.content == content,
            None => !is_selection(file_path@, start_line, end_line),
        },
{
    if file_path.as_str().is_empty() || start_line < 1 || start_line > end_line || end_line
        > u32::MAX as u64 {
        None
    } else {
        Some(
            EditorContext {
                file_path,
                start_line: start_line as u32,
                end_line: end_line as u32,
                content,
            },
        )
    }
}

/// What the reply to the selection script comes to. The reply is the
/// four parts of a selection, or something that says that there is none.
pub open spec fn reply_selection(
    reply: Option<(Option<String>, Option<u64>, Option<u64>, Option<String>)>,
    out: Result<Option<EditorContext>, ActionError>,
) -> bool {
    match reply {
        None => out == Ok::<Option<EditorContext>, ActionError>(None),
        Some((Some(file_path), Some(start_line), Some(end_line), Some(content))) => match out {
            Ok(Some(context)) => is_selection(file_path@, start_line, end_line)
                && context.is_valid() && context.file_path == file_path && context.start_line
                == start_line && context.end_line == end_line && context.content == content,
            Ok(None) => !is_selection(file_path@, start_line, end_line),
            Err(_) => false,
        },
        Some(_) => out == Err::<Option<EditorContext>, ActionError>(ActionError::CallFailed),
    }
}

/// Reads the reply to the selection script. A reply that is no table
/// (`None`) says that nothing is selected. A table holds the four parts
/// of a selection; one that lacks a part is a failed call, and parts
/// that make up no selection give none.
pub fn selection_from_reply(
    reply: Option<(Option<String>, Option<u64>, Option<u64>, Option<String>)>,
) -> (out: Result<Option<EditorContext>, ActionError>)
    ensures
        reply_selection(reply, out),
{
    match reply {
        None => Ok(None),
        Some((Some(file_path), Some(start_line), Some(end_line), Some(content))) => Ok(
            selection_from_parts(file_path, start_line, end_line, content),
        ),
        Some(_) => Err(ActionError::CallFailed),
    }
}

} // verus!
