//! The event that the automation caller sends, and the answer it gets.
//!
//! An event names what is about to happen or has happened: a tool is
//! about to run, a tool has run, or a prompt was submitted. The answer is
//! a set of optional fields; with none of them set it means "proceed".
//! Reading an event from JSON and writing an answer as JSON is done where
//! the bytes are; here the values are built and inspected.

use vstd::prelude::*;
use vstd::string::*;

verus! {

/// The kind of event.
#[non_exhaustive]
#[derive(Debug, Clone, Copy, PartialEq, Eq, Structural)]
pub enum HookEvent {
    PreToolUse,
    PostToolUse,
    UserPromptSubmit,
}

/// What a tool that works on one file was called with.
#[derive(Debug)]
pub struct FileToolInput {
    pub file_path: String,
    pub content: Option<String>,
    pub old_string: Option<String>,
    pub new_string: Option<String>,
}

/// What the shell tool was called with.
#[derive(Debug)]
pub struct BashToolInput {
    pub command: String,
    pub description: String,
}

/// The tool of an event, with its input.
#[non_exhaustive]
#[derive(Debug)]
pub enum Tool {
    Read(FileToolInput),
    Write(FileToolInput),
    Edit(FileToolInput),
    MultiEdit(FileToolInput),
    Bash(BashToolInput),
}

impl Tool {
    /// The file that the tool writes to, if it writes to one.
    pub open spec fn modified_file(&self) -> Option<Seq<char>> {
        match self {
            Tool::Write(input) | Tool::Edit(input) | Tool::MultiEdit(input) => Some(
                input.file_path@,
            ),
            _ => None,
        }
    }

    /// The file that the tool writes to: `Write`, `Edit` and `MultiEdit`
    /// have one, the other tools have none.
    pub fn file_to_modify(&self) -> (path: Option<&str>)
        ensures
            match path {
                Some(p) => self.modified_file() == Some(p@),
                None => self.modified_file() is None,
            },
    {
        match self {
            Tool::Write(input) | Tool::Edit(input) | Tool::MultiEdit(input) => Some(
                input.file_path.as_str(),
            ),
            _ => None,
        }
    }
}

/// An event as it arrives. Tool events carry the tool; a submitted prompt
/// carries its text.
#[derive(Debug)]
pub struct Hook {
    pub session_id: String,
    pub transcript_path: String,
    pub cwd: String,
    pub hook_event_name: HookEvent,
    pub tool: Option<Tool>,
    pub prompt: Option<String>,
}

impl Hook {
    /// Whether the event has what its kind asks for: an event about a
    /// tool names the tool.
    pub fn names_its_tool(&self) -> (b: bool)
        ensures
            b == (self.hook_event_name == HookEvent::UserPromptSubmit || self.tool is Some),
    {
        match self.hook_event_name {
            HookEvent::UserPromptSubmit => true,
            _ => self.tool.is_some(),
        }
    }
}

/// Whether a tool may run.
#[non_exhaustive]
#[derive(Debug, Clone, Copy, PartialEq, Eq, Structural)]
pub enum PermissionDecision {
    Allow,
    Deny,
    Ask,
}

/// The part of an answer that belongs to one kind of event.
#[derive(Debug, Clone)]
pub struct HookSpecificOutput {
    pub hook_event_name: String,
    pub permission_decision: Option<PermissionDecision>,
    pub permission_decision_reason: Option<String>,
    pub additional_context: Option<String>,
}

/// The answer to an event.
#[derive(Debug, Clone)]
pub struct HookOutput {
    pub continue_execution: Option<bool>,
    pub stop_reason: Option<String>,
    pub suppress_output: Option<bool>,
    pub system_message: Option<String>,
    pub decision: Option<String>,
    pub reason: Option<String>,
    pub hook_specific_output: Option<HookSpecificOutput>,
}

/// The text of an optional string.
pub open spec fn text_of(s: Option<String>) -> Option<Seq<char>> {
    match s {
        Some(t) => Some(t@),
        None => None,
    }
}

/// What a `HookSpecificOutput` holds.
pub struct HookSpecificOutputView {
    pub hook_event_name: Seq<char>,
    pub permission_decision: Option<PermissionDecision>,
    pub permission_decision_reason: Option<Seq<char>>,
    pub additional_context: Option<Seq<char>>,
}

impl View for HookSpecificOutput {
    type V = HookSpecificOutputView;

    open spec fn view(&self) -> HookSpecificOutputView {
        HookSpecificOutputView {
            hook_event_name: self.hook_event_name@,
            permission_decision: self.permission_decision,
            permission_decision_reason: text_of(self.permission_decision_reason),
            additional_context: text_of(self.additional_context),
        }
    }
}

/// What a `HookOutput` holds.
pub struct HookOutputView {
    pub continue_execution: Option<bool>,
    pub stop_reason: Option<Seq<char>>,
    pub suppress_output: Option<bool>,
    pub system_message: Option<Seq<char>>,
    pub decision: Option<Seq<char>>,
    pub reason: Option<Seq<char>>,
    pub hook_specific_output: Option<HookSpecificOutputView>,
}

impl View for HookOutput {
    type V = HookOutputView;

    open spec fn view(&self) -> HookOutputView {
        HookOutputView {
            continue_execution: self.continue_execution,
            stop_reason: text_of(self.stop_reason),
            suppress_output: self.suppress_output,
            system_message: text_of(self.system_message),
            decision: text_of(self.decision),
            reason: text_of(self.reason),
            hook_specific_output: match self.hook_specific_output {
                Some(specific) => Some(specific@),
                None => None,
            },
        }
    }
}

/// The answer with no field set: proceed, nothing to add.
pub open spec fn empty_output() -> HookOutputView {
    HookOutputView {
        continue_execution: None,
        stop_reason: None,
        suppress_output: None,
        system_message: None,
        decision: None,
        reason: None,
        hook_specific_output: None,
    }
}

impl HookOutput {
    /// An answer with no field set.
    pub fn new() -> (out: Self)
        ensures
            out@ == empty_output(),
    {
        HookOutput {
            continue_execution: None,
            stop_reason: None,
            suppress_output: None,
            system_message: None,
            decision: None,
            reason: None,
            hook_specific_output: None,
        }
    }

    /// Whether no field is set.
    pub fn is_empty(&self) -> (b: bool)
        ensures
            b == (self@ == empty_output()),
    {
        self.continue_execution.is_none() && self.stop_reason.is_none()
            && self.suppress_output.is_none() && self.system_message.is_none()
            && self.decision.is_none() && self.reason.is_none()
            && self.hook_specific_output.is_none()
    }

    /// Says whether the caller is to go on.
    pub fn with_continue(self, continue_execution: bool) -> (out: Self)
        ensures
            out@ == (HookOutputView { continue_execution: Some(continue_execution), ..self@ }),
    {
        let mut out = self;
        out.continue_execution = Some(continue_execution);
        out
    }

    /// Says why the caller is to stop.
    pub fn with_stop_reason(self, reason: &str) -> (out: Self)
        ensures
            out@ == (HookOutputView { stop_reason: Some(reason@), ..self@ }),
    {
        let mut out = self;
        out.stop_reason = Some(String::from_str(reason));
        out
    }

    /// Says whether the caller is to hide the tool's output.
    pub fn with_suppress_output(self, suppress: bool) -> (out: Self)
        ensures
            out@ == (HookOutputView { suppress_output: Some(suppress), ..self@ }),
    {
        let mut out = self;
        out.suppress_output = Some(suppress);
        out
    }

    /// Adds a message for the user.
    pub fn with_system_message(self, message: &str) -> (out: Self)
        ensures
            out@ == (HookOutputView { system_message: Some(message@), ..self@ }),
    {
        let mut out = self;
        out.system_message = Some(String::from_str(message));
        out
    }

    /// Sets the decision on a tool that is about to run, with its reason.
    /// A part that was set for another kind of event is replaced.
    pub fn with_permission_decision(
        self,
        decision: PermissionDecision,
        reason: Option<String>,
    ) -> (out: Self)
        ensures
            out@ == (HookOutputView {
                hook_specific_output: Some(
                    HookSpecificOutputView {
                        hook_event_name: "PreToolUse"@,
                        permission_decision: Some(decision),
                        permission_decision_reason: text_of(reason),
                        additional_context: None,
                    },
                ),
                ..self@
            }),
    {
        let mut out = self;
        out.hook_specific_output = Some(
            HookSpecificOutput {
                hook_event_name: String::from_str("PreToolUse"),
                permission_decision: Some(decision),
                permission_decision_reason: reason,
                additional_context: None,
            },
        );
        out
    }

    /// Attaches text that the caller is to read along with a submitted
    /// prompt. A part that was set for another kind of event is replaced.
    pub fn with_additional_context(self, context: String) -> (out: Self)
        ensures
            out@ == (HookOutputView {
                hook_specific_output: Some(
                    HookSpecificOutputView {
                        hook_event_name: "UserPromptSubmit"@,
                        permission_decision: None,
                        permission_decision_reason: None,
                        additional_context: Some(context@),
                    },
                ),
                ..self@
            }),
    {
        let mut out = self;
        out.hook_specific_output = Some(
            HookSpecificOutput {
                hook_event_name: String::from_str("UserPromptSubmit"),
                permission_decision: None,
                permission_decision_reason: None,
                additional_context: Some(context),
            },
        );
        out
    }
}

impl Default for HookOutput {
    fn default() -> (out: Self)
        ensures
            out@ == empty_output(),
    {
        HookOutput::new()
    }
}

} // verus!
