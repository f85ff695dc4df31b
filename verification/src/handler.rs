//! The policy: what is asked of the editors for an event, and what is
//! answered to the caller.
//!
//! - Before a tool writes to a file, the editors are asked for the status
//!   of that file. If it is shown somewhere with unsaved changes, the
//!   tool is denied and the editors are told so.
//! - After a tool has written to a file, the editors are asked to reload
//!   it. Nothing is answered.
//! - When a prompt is submitted, the selections of the editors are
//!   attached to it.
//!
//! Whatever fails on the way, the caller gets an answer: where the
//! editors give nothing, the answer is the empty one.

use crate::action::neovim::NeovimAction;
use crate::action::vscode::VSCodeAction;
use crate::action::{Action, ActionError, BufferStatus, EditorContext};
use crate::hook::{
    empty_output, Hook, HookEvent, HookOutput, HookOutputView, HookSpecificOutputView,
    PermissionDecision, Tool,
};
use crate::text::{decimal, push_decimal};
use vstd::prelude::*;
use vstd::string::*;

verus! {

/// Whether a status forbids writing to the file: it is shown in an
/// editor, and what is shown has unsaved changes.
pub open spec fn denies(status: Result<BufferStatus, ActionError>) -> bool {
    status matches Ok(s) && s.has_unsaved_changes && s.is_current
}

/// The answer that denies a tool. The reason speaks of the file and names
/// no caller: the answer goes to whoever sent the event.
pub open spec fn deny_output() -> HookOutputView {
    HookOutputView {
        hook_specific_output: Some(
            HookSpecificOutputView {
                hook_event_name: "PreToolUse"@,
                permission_decision: Some(PermissionDecision::Deny),
                permission_decision_reason: Some("File has unsaved changes in the editor"@),
                additional_context: None,
            },
        ),
        ..empty_output()
    }
}

/// The answer to "may the file be written?" for a status.
pub open spec fn modification_answer(status: Result<BufferStatus, ActionError>) -> HookOutputView {
    if denies(status) {
        deny_output()
    } else {
        empty_output()
    }
}

/// The answer to a submitted prompt for what the editors gave as their
/// selections: they are attached as context; where there are none, or
/// they could not be obtained, the answer is empty.
pub open spec fn selections_answer(
    found: Result<Vec<EditorContext>, ActionError>,
) -> HookOutputView {
    match found {
        Ok(selections) => if selections@.len() == 0 {
            empty_output()
        } else {
            context_output(rendered_all(selections@))
        },
        Err(_) => empty_output(),
    }
}

/// The answer that attaches `context` to a prompt.
pub open spec fn context_output(context: Seq<char>) -> HookOutputView {
    HookOutputView {
        hook_specific_output: Some(
            HookSpecificOutputView {
                hook_event_name: "UserPromptSubmit"@,
                permission_decision: None,
                permission_decision_reason: None,
                additional_context: Some(context),
            },
        ),
        ..empty_output()
    }
}

/// What the editors are told when a tool was denied. Like the reason of
/// the denial, it names the file and no caller.
pub open spec fn edit_notice_text(file_path: Seq<char>) -> Seq<char> {
    "Edit held back, unsaved changes in: "@ + file_path
}

/// One selection as it is shown to the caller: a line that names the
/// file and the lines, then the text between fences.
pub open spec fn rendered(selection: EditorContext) -> Seq<char> {
    "[Selected from "@ + selection.file_path@ + ":"@ + decimal(selection.start_line as nat) + "-"@
        + decimal(selection.end_line as nat) + "]\n```\n"@ + selection.content@ + "\n```"@
}

/// The selections as they are shown to the caller: one after the other,
/// with a blank line between two of them.
pub open spec fn rendered_all(selections: Seq<EditorContext>) -> Seq<char>
    decreases selections.len(),
{
    if selections.len() == 0 {
        Seq::empty()
    } else if selections.len() == 1 {
        rendered(selections[0])
    } else {
        rendered_all(selections.drop_last()) + "\n\n"@ + rendered(selections.last())
    }
}

/// The Neovim backend for the sockets that were found, if any was.
pub fn get_neovim_action(socket_paths: Vec<String>) -> (action: Option<NeovimAction>)
    ensures
        match action {
            Some(neovim) => socket_paths@.len() > 0 && neovim.socket_paths == socket_paths,
            None => socket_paths@.len() == 0,
        },
{
    if socket_paths.len() == 0 {
        None
    } else {
        Some(NeovimAction::new(socket_paths))
    }
}

/// The VSCode backend for the sockets that were found, if any was.
pub fn get_vscode_action(socket_paths: Vec<String>) -> (action: Option<VSCodeAction>)
    ensures
        match action {
            Some(vscode) => socket_paths@.len() > 0 && vscode.socket_paths == socket_paths,
            None => socket_paths@.len() == 0,
        },
{
    if socket_paths.len() == 0 {
        None
    } else {
        Some(VSCodeAction::new(socket_paths))
    }
}

/// The answer to "may the file be written?" for the status that the
/// editors gave. A status that could not be obtained denies nothing.
pub fn decide_modification(status: &Result<BufferStatus, ActionError>) -> (out: HookOutput)
    ensures
        out@ == modification_answer(*status),
{
    match status {
        Ok(s) => {
            if s.has_unsaved_changes && s.is_current {
                HookOutput::new().with_permission_decision(
                    PermissionDecision::Deny,
                    Some(String::from_str("File has unsaved changes in the editor")),
                )
            } else {
                HookOutput::new()
            }
        },
        Err(_) => HookOutput::new(),
    }
}

/// The message for the editors about a denied write to `file_path`.
pub fn edit_notice(file_path: &str) -> (message: String)
    ensures
        message@ == edit_notice_text(file_path@),
{
    let mut message = String::from_str("Edit held back, unsaved changes in: ");
    message.append(file_path);
    message
}

/// Appends one selection as it is shown to the caller.
fn push_rendered(text: &mut String, selection: &EditorContext)
    ensures
        final(text)@ == old(text)@ + rendered(*selection),
{
    let ghost before = text@;
    text.append("[Selected from ");
    text.append(selection.file_path.as_str());
    text.append(":");
    push_decimal(text, selection.start_line as u64);
    text.append("-");
    push_decimal(text, selection.end_line as u64);
    text.append("]\n```\n");
    text.append(selection.content.as_str());
    text.append("\n```");
    assert(text@ =~= before + rendered(*selection));
}

/// The selections as one text.
pub fn render_selections(selections: &Vec<EditorContext>) -> (text: String)
    ensures
        text@ == rendered_all(selections@),
{
    let mut text = String::new();
    let mut i: usize = 0;
    while i < selections.len()
        invariant
            i <= selections.len(),
            text@ == rendered_all(selections@.take(i as int)),
        decreases selections.len() - i,
    {
        proof {
            assert(selections@.take(i + 1).drop_last() =~= selections@.take(i as int));
            assert(selections@.take(i + 1).last() == selections@[i as int]);
            assert(selections@.take(i + 1)[0] == selections@[0]);
        }
        if i > 0 {
            text.append("\n\n");
        }
        push_rendered(&mut text, &selections[i]);
        i += 1;
    }
    proof {
        assert(selections@.take(selections@.len() as int) =~= selections@);
    }
    text
}

/// The answer to a submitted prompt for the selections that the editors
/// gave: they are attached as context, and without any the answer is
/// empty.
pub fn attach_selections(selections: &Vec<EditorContext>) -> (out: HookOutput)
    ensures
        out@ == selections_answer(Ok(*selections)),
{
    if selections.len() == 0 {
        HookOutput::new()
    } else {
        HookOutput::new().with_additional_context(render_selections(selections))
    }
}

/// Whether the editors, if there are any, were sent the notice about a
/// denied write to `file_path`.
pub open spec fn notice_was_sent<A: Action>(action: Option<&A>, file_path: Seq<char>) -> bool {
    match action {
        None => true,
        Some(editors) => exists|message: &str, sent: Result<(), ActionError>|
            message@ == edit_notice_text(file_path) && #[trigger] call_ensures(
                A::send_message,
                (editors, message),
                sent,
            ),
    }
}

/// Whether the editors, if there are any, were asked to reload
/// `file_path`.
pub open spec fn refresh_was_asked<A: Action>(action: Option<&A>, file_path: Seq<char>) -> bool {
    match action {
        None => true,
        Some(editors) => exists|path: &str, refreshed: Result<(), ActionError>|
            path@ == file_path && #[trigger] call_ensures(
                A::refresh_buffer,
                (editors, path),
                refreshed,
            ),
    }
}

/// Whether `out` is the answer to a write to `file_path` that the
/// editors allow for: without editors the empty answer, else the answer
/// to a status that they can give for that file; and where it is a
/// denial, the editors were sent the notice.
pub open spec fn is_modification_answer<A: Action>(
    action: Option<&A>,
    file_path: Seq<char>,
    out: HookOutputView,
) -> bool {
    &&& match action {
        None => out == empty_output(),
        Some(editors) => exists|path: &str, status: Result<BufferStatus, ActionError>|
            path@ == file_path && #[trigger] call_ensures(
                A::buffer_status,
                (editors, path),
                status,
            ) && out == modification_answer(status),
    }
    &&& out == deny_output() ==> notice_was_sent(action, file_path)
}

/// Whether `out` is the answer to a submitted prompt that the editors
/// allow for: without editors the empty answer, else the answer to what
/// they can give as their selections.
pub open spec fn is_prompt_answer<A: Action>(action: Option<&A>, out: HookOutputView) -> bool {
    match action {
        None => out == empty_output(),
        Some(editors) => exists|found: Result<Vec<EditorContext>, ActionError>| #[trigger]
            call_ensures(A::get_visual_selections, (editors,), found) && out == selections_answer(
                found,
            ),
    }
}

/// Asks the editors whether `file_path` may be written, and tells them
/// when it may not. Whether they could be told does not change the
/// answer.
pub fn check_buffer_modifications<A: Action>(action: Option<&A>, file_path: &str) -> (out:
    HookOutput)
    ensures
        is_modification_answer(action, file_path@, out@),
{
    match action {
        None => HookOutput::new(),
        Some(editors) => {
            let status = editors.buffer_status(file_path);
            let out = decide_modification(&status);
            assert(call_ensures(A::buffer_status, (editors, file_path), status) && out@
                == modification_answer(status));
            if !out.is_empty() {
                let message = edit_notice(file_path);
                let notice = message.as_str();
                let sent = editors.send_message(notice);
                assert(notice@ == edit_notice_text(file_path@) && call_ensures(
                    A::send_message,
                    (editors, notice),
                    sent,
                ));
            }
            out
        },
    }
}

/// Asks the editors to reload `file_path`. The answer is empty whether
/// or not any of them did.
pub fn refresh_buffer<A: Action>(action: Option<&A>, file_path: &str) -> (out: HookOutput)
    ensures
        out@ == empty_output(),
        refresh_was_asked(action, file_path@),
{
    match action {
        None => {},
        Some(editors) => {
            let refreshed = editors.refresh_buffer(file_path);
            assert(call_ensures(A::refresh_buffer, (editors, file_path), refreshed));
        },
    }
    HookOutput::new()
}

/// Answers the event that a tool is about to run: a tool that writes to
/// a file is checked against the editors, any other tool may proceed.
pub fn handle_pre_tool_use<A: Action>(tool: &Tool, action: Option<&A>, event: HookEvent) -> (out:
    HookOutput)
    requires
        event == HookEvent::PreToolUse,
    ensures
        match tool.modified_file() {
            Some(file_path) => is_modification_answer(action, file_path, out@),
            None => out@ == empty_output(),
        },
{
    match tool.file_to_modify() {
        Some(file_path) => check_buffer_modifications(action, file_path),
        None => HookOutput::new(),
    }
}

/// Answers the event that a tool has run: after a tool that writes to a
/// file, the editors are asked to reload it. The answer is always empty.
pub fn handle_post_tool_use<A: Action>(tool: &Tool, action: Option<&A>, event: HookEvent) -> (out:
    HookOutput)
    requires
        event == HookEvent::PostToolUse,
    ensures
        out@ == empty_output(),
        match tool.modified_file() {
            Some(file_path) => refresh_was_asked(action, file_path),
            None => true,
        },
{
    match tool.file_to_modify() {
        Some(file_path) => refresh_buffer(action, file_path),
        None => HookOutput::new(),
    }
}

/// Answers the event that a prompt was submitted: the selections of the
/// editors are attached to it.
pub fn handle_user_prompt_submit<A: Action>(action: Option<&A>) -> (out: HookOutput)
    ensures
        is_prompt_answer(action, out@),
{
    match action {
        None => HookOutput::new(),
        Some(editors) => {
            let found = editors.get_visual_selections();
            let out = match &found {
                Ok(selections) => attach_selections(selections),
                Err(_) => HookOutput::new(),
            };
            assert(call_ensures(A::get_visual_selections, (editors,), found) && out@
                == selections_answer(found));
            out
        },
    }
}

/// What `handle_hook` answers to an event, given the editors: a tool
/// event without a tool, or with a tool that writes to no file, gets the
/// empty answer, as every event does after a tool has run; and after a
/// tool that writes to a file, the editors were asked to reload it.
pub open spec fn is_hook_answer<A: Action>(
    hook: Hook,
    action: Option<&A>,
    out: HookOutputView,
) -> bool {
    match hook.hook_event_name {
        HookEvent::PreToolUse => match hook.tool {
            Some(tool) => match tool.modified_file() {
                Some(file_path) => is_modification_answer(action, file_path, out),
                None => out == empty_output(),
            },
            None => out == empty_output(),
        },
        HookEvent::PostToolUse => out == empty_output() && match hook.tool {
            Some(tool) => match tool.modified_file() {
                Some(file_path) => refresh_was_asked(action, file_path),
                None => true,
            },
            None => true,
        },
        HookEvent::UserPromptSubmit => is_prompt_answer(action, out),
    }
}

/// Answers an event.
pub fn handle_hook<A: Action>(hook: &Hook, action: Option<&A>) -> (out: HookOutput)
    ensures
        is_hook_answer(*hook, action, out@),
{
    match hook.hook_event_name {
        HookEvent::PreToolUse => match &hook.tool {
            Some(tool) => handle_pre_tool_use(tool, action, hook.hook_event_name),
            None => HookOutput::new(),
        },
        HookEvent::PostToolUse => match &hook.tool {
            Some(tool) => handle_post_tool_use(tool, action, hook.hook_event_name),
            None => HookOutput::new(),
        },
        HookEvent::UserPromptSubmit => handle_user_prompt_submit(action),
    }
}

/// An answer to an event is the empty one, a denial, or attached context;
/// and without editors it is the empty one.
pub proof fn law_answer_is_proceed_deny_or_context<A: Action>(
    hook: Hook,
    action: Option<&A>,
    out: HookOutputView,
)
    requires
        is_hook_answer(hook, action, out),
    ensures
        out == empty_output() || out == deny_output() || exists|selections: Seq<EditorContext>|
            selections.len() > 0 && out == context_output(#[trigger] rendered_all(selections)),
        action is None ==> out == empty_output(),
        out == deny_output() ==> hook.hook_event_name == HookEvent::PreToolUse,
{
    if hook.hook_event_name == HookEvent::UserPromptSubmit && action is Some {
        let found = choose|found: Result<Vec<EditorContext>, ActionError>| #[trigger]
            call_ensures(A::get_visual_selections, (action->0,), found) && out
                == selections_answer(found);
        if found is Ok && found->Ok_0@.len() > 0 {
            assert(out == context_output(rendered_all(found->Ok_0@)));
        }
    }
}

} // verus!
