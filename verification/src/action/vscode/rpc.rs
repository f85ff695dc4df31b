//! The requests that are sent to a VSCode instance, and the reading of
//! its responses.
//!
//! The exchange is one JSON object per line in each direction.
//!
//! ```text
//! { "id": 1, "method": "buffer_status", "params": { "file_path": "/path/to/file" } }
//! { "id": 1, "result": { "is_current": true, "has_unsaved_changes": false } }
//! ```
//!
//! A response that carries an error is a failure, whatever else it
//! carries; so is one that carries neither an error nor a result, and one
//! that names another request than the one it was read for.

use crate::action::{ActionError, BufferStatus, EditorContext};
use crate::text::{push_char, push_signed_decimal, signed_decimal};
use vstd::prelude::*;
use vstd::string::*;

verus! {

/// A request.
#[derive(Debug)]
pub struct RPCRequest<T> {
    pub id: u64,
    pub method: String,
    pub params: Option<T>,
}

/// A response.
#[derive(Debug)]
pub struct RPCResponse<T> {
    pub id: Option<u64>,
    pub result: Option<T>,
    pub error: Option<RPCError>,
}

/// The error of a response.
#[derive(Debug)]
pub struct RPCError {
    pub code: i32,
    pub message: String,
}

/// The parameters of `buffer_status`.
#[derive(Debug)]
pub struct BufferStatusParams {
    pub file_path: String,
}

/// The result of `buffer_status`.
#[derive(Debug)]
pub struct BufferStatusResult {
    pub is_current: bool,
    pub has_unsaved_changes: bool,
}

/// The parameters of `refresh_buffer`.
#[derive(Debug)]
pub struct RefreshBufferParams {
    pub file_path: String,
}

/// The result of `refresh_buffer`.
#[derive(Debug)]
pub struct RefreshBufferResult {
    pub success: bool,
}

/// The parameters of `send_message`.
#[derive(Debug)]
pub struct SendMessageParams {
    pub message: String,
}

/// The result of `send_message`.
#[derive(Debug)]
pub struct SendMessageResult {
    pub success: bool,
}

/// The result of `get_visual_selection`, where there is a selection.
#[derive(Debug)]
pub struct VisualSelectionResult {
    pub file_path: String,
    pub start_line: u32,
    pub end_line: u32,
    pub content: String,
}

/// Why a response is no answer.
#[derive(Debug)]
pub enum RPCFailure {
    /// The response carries an error.
    Rejected(RPCError),
    /// The response carries neither an error nor a result.
    MissingResult,
    /// The response names another request than the one it was read for.
    WrongId,
}

/// The source of request ids: each id is one more than the one before,
/// starting from one. After the largest id the count starts again at
/// zero.
pub struct RequestIds {
    pub next: u64,
}

impl RequestIds {
    /// A source whose first id is one.
    pub fn new() -> (ids: Self)
        ensures
            ids.next == 1,
    {
        RequestIds { next: 1 }
    }

    /// Hands out the next id.
    pub fn next_id(&mut self) -> (id: u64)
        ensures
            id == old(self).next,
            final(self).next == (if old(self).next == u64::MAX {
                0
            } else {
                old(self).next + 1
            }),
    {
        let id = self.next;
        self.next = if id == u64::MAX {
            0
        } else {
            id + 1
        };
        id
    }
}

/// The request for the status of the buffer of `file_path`.
pub fn buffer_status_request(id: u64, file_path: &str) -> (request: RPCRequest<BufferStatusParams>)
    ensures
        request.id == id,
        request.method@ == "buffer_status"@,
        request.params matches Some(params) && params.file_path@ == file_path@,
{
    RPCRequest {
        id,
        method: String::from_str("buffer_status"),
        params: Some(BufferStatusParams { file_path: String::from_str(file_path) }),
    }
}

/// The request to reload the buffer of `file_path` from disk.
pub fn refresh_buffer_request(id: u64, file_path: &str) -> (request: RPCRequest<
    RefreshBufferParams,
>)
    ensures
        request.id == id,
        request.method@ == "refresh_buffer"@,
        request.params matches Some(params) && params.file_path@ == file_path@,
{
    RPCRequest {
        id,
        method: String::from_str("refresh_buffer"),
        params: Some(RefreshBufferParams { file_path: String::from_str(file_path) }),
    }
}

/// The request to show `message`.
pub fn send_message_request(id: u64, message: &str) -> (request: RPCRequest<SendMessageParams>)
    ensures
        request.id == id,
        request.method@ == "send_message"@,
        request.params matches Some(params) && params.message@ == message@,
{
    RPCRequest {
        id,
        method: String::from_str("send_message"),
        params: Some(SendMessageParams { message: String::from_str(message) }),
    }
}

/// The request for the selection of the active editor. It has no
/// parameters.
pub fn get_visual_selection_request(id: u64) -> (request: RPCRequest<()>)
    ensures
        request.id == id,
        request.method@ == "get_visual_selection"@,
        request.params is None,
{
    RPCRequest { id, method: String::from_str("get_visual_selection"), params: None }
}

/// A request as it goes over the socket: its JSON on one line, closed by
/// a newline.
pub fn frame_request(json: &str) -> (line: String)
    ensures
        line@ == json@.push('\n'),
{
    let mut line = String::from_str(json);
    push_char(&mut line, '\n');
    line
}

/// What a response comes to: its error if it carries one, whatever else
/// it carries; else its result; and a failure if it carries neither.
pub open spec fn response_result<T>(response: RPCResponse<T>) -> Result<T, RPCFailure> {
    match (response.error, response.result) {
        (Some(error), _) => Err(RPCFailure::Rejected(error)),
        (None, Some(value)) => Ok(value),
        (None, None) => Err(RPCFailure::MissingResult),
    }
}

impl<T> RPCResponse<T> {
    /// Whether the response can belong to request `request_id`: it names
    /// that id, or none.
    pub fn answers(&self, request_id: u64) -> (b: bool)
        ensures
            b == (self.id is None || self.id == Some(request_id)),
    {
        match self.id {
            None => true,
            Some(id) => id == request_id,
        }
    }

    /// The result of the response. An error wins over a result; a
    /// response without either is a failure too.
    pub fn into_result(self) -> (out: Result<T, RPCFailure>)
        ensures
            out == response_result(self),
    {
        match self.error {
            Some(error) => Err(RPCFailure::Rejected(error)),
            None => match self.result {
                Some(value) => Ok(value),
                None => Err(RPCFailure::MissingResult),
            },
        }
    }
}

/// What the request `request_id` comes to, given the response that was
/// read for it: a response that names another request is a failure; one
/// that names this request, or none, is read as every response is.
pub open spec fn request_result<T>(response: RPCResponse<T>, request_id: u64) -> Result<
    T,
    RPCFailure,
> {
    if response.id is Some && response.id != Some(request_id) {
        Err(RPCFailure::WrongId)
    } else {
        response_result(response)
    }
}

/// What the request `request_id` comes to, given the response that was
/// read for it. The id is checked and nothing else is done with it: a
/// response that names another request fails the call, and no further
/// response is looked for.
pub fn result_for<T>(response: RPCResponse<T>, request_id: u64) -> (out: Result<T, RPCFailure>)
    ensures
        out == request_result(response, request_id),
{
    if response.answers(request_id) {
        response.into_result()
    } else {
        Err(RPCFailure::WrongId)
    }
}

/// What a failure reads as.
pub open spec fn failure_text(failure: RPCFailure) -> Seq<char> {
    match failure {
        RPCFailure::Rejected(error) => "RPC error "@ + signed_decimal(error.code as int) + ": "@
            + error.message@,
        RPCFailure::MissingResult => "RPC response missing result"@,
        RPCFailure::WrongId => "RPC response names another request"@,
    }
}

impl RPCFailure {
    /// The failure in words.
    pub fn describe(&self) -> (text: String)
        ensures
            text@ == failure_text(*self),
    {
        match self {
            RPCFailure::Rejected(error) => {
                let mut text = String::from_str("RPC error ");
                push_signed_decimal(&mut text, error.code as i64);
                text.append(": ");
                text.append(error.message.as_str());
                text
            },
            RPCFailure::MissingResult => String::from_str("RPC response missing result"),
            RPCFailure::WrongId => String::from_str("RPC response names another request"),
        }
    }

    /// Every failure of the protocol is a failed call.
    pub fn to_action_error(&self) -> (error: ActionError)
        ensures
            error == ActionError::CallFailed,
    {
        ActionError::CallFailed
    }
}

impl BufferStatusResult {
    /// The status that the result reports.
    pub fn to_status(&self) -> (status: BufferStatus)
        ensures
            status.is_current == self.is_current,
            status.has_unsaved_changes == self.has_unsaved_changes,
    {
        BufferStatus {
            is_current: self.is_current,
            has_unsaved_changes: self.has_unsaved_changes,
        }
    }
}

impl VisualSelectionResult {
    /// Whether the lines are those of a selection: counted from one, the
    /// first not after the last.
    pub open spec fn has_valid_lines(&self) -> bool {
        1 <= self.start_line <= self.end_line
    }

    /// The selection as an `EditorContext`, field by field. A result
    /// whose lines are not those of a selection gives none.
    pub fn into_context(self) -> (context: Option<EditorContext>)
        ensures
            match context {
                Some(selection) => self.has_valid_lines() && selection.is_valid()
                    && selection.file_path == self.file_path && selection.start_line
                    == self.start_line && selection.end_line == self.end_line
                    && selection.content == self.content,
                None => !self.has_valid_lines(),
            },
    {
        if self.start_line < 1 || self.start_line > self.end_line {
            None
        } else {
            Some(
                EditorContext {
                    file_path: self.file_path,
                    start_line: self.start_line,
                    end_line: self.end_line,
                    content: self.content,
                },
            )
        }
    }
}

} // verus!
