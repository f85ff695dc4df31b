//! Events and answers.

use sidekick::hook::{
    BashToolInput, FileToolInput, HookOutput, PermissionDecision, Tool,
};

fn file_input(path: &str) -> FileToolInput {
    FileToolInput {
        file_path: path.to_string(),
        content: None,
        old_string: None,
        new_string: None,
    }
}

#[test]
fn new_output_is_empty() {
    let output = HookOutput::new();

    assert!(output.is_empty());
    assert_eq!(output.continue_execution, None);
    assert_eq!(output.stop_reason, None);
    assert_eq!(output.suppress_output, None);
    assert_eq!(output.system_message, None);
    assert_eq!(output.decision, None);
    assert_eq!(output.reason, None);
    assert!(output.hook_specific_output.is_none());
}

#[test]
fn default_output_is_empty() {
    assert!(HookOutput::default().is_empty());
}

#[test]
fn output_with_permission_decision() {
    let output = HookOutput::new().with_permission_decision(
        PermissionDecision::Deny,
        Some("File has unsaved changes".to_string()),
    );

    assert!(!output.is_empty());
    let specific = output.hook_specific_output.expect("a decision was set");
    assert_eq!(specific.permission_decision, Some(PermissionDecision::Deny));
    assert_eq!(
        specific.permission_decision_reason,
        Some("File has unsaved changes".to_string())
    );
    assert_eq!(specific.hook_event_name, "PreToolUse");
    assert_eq!(specific.additional_context, None);
    assert_eq!(output.system_message, None);
}

#[test]
fn output_with_permission_decision_without_reason() {
    let output = HookOutput::new().with_permission_decision(PermissionDecision::Ask, None);
    let specific = output.hook_specific_output.expect("a decision was set");
    assert_eq!(specific.permission_decision, Some(PermissionDecision::Ask));
    assert_eq!(specific.permission_decision_reason, None);
}

#[test]
fn output_with_system_message() {
    let output = HookOutput::new().with_system_message("Test message");

    assert_eq!(output.system_message, Some("Test message".to_string()));
    assert!(!output.is_empty());
    assert!(output.hook_specific_output.is_none());
}

#[test]
fn output_builders_set_one_field_each() {
    let output = HookOutput::new()
        .with_continue(false)
        .with_stop_reason("stop")
        .with_suppress_output(true);

    assert_eq!(output.continue_execution, Some(false));
    assert_eq!(output.stop_reason, Some("stop".to_string()));
    assert_eq!(output.suppress_output, Some(true));
    assert_eq!(output.system_message, None);
    assert_eq!(output.decision, None);
    assert_eq!(output.reason, None);
}

#[test]
fn output_with_additional_context() {
    let output = HookOutput::new()
        .with_system_message("kept")
        .with_additional_context("some text".to_string());

    let specific = output.hook_specific_output.expect("context was set");
    assert_eq!(specific.hook_event_name, "UserPromptSubmit");
    assert_eq!(specific.additional_context, Some("some text".to_string()));
    assert_eq!(specific.permission_decision, None);
    assert_eq!(specific.permission_decision_reason, None);
    assert_eq!(output.system_message, Some("kept".to_string()));
}

#[test]
fn later_specific_part_replaces_the_earlier() {
    let output = HookOutput::new()
        .with_additional_context("text".to_string())
        .with_permission_decision(PermissionDecision::Allow, None);
    let specific = output.hook_specific_output.expect("a decision was set");
    assert_eq!(specific.hook_event_name, "PreToolUse");
    assert_eq!(specific.additional_context, None);
}

#[test]
fn tools_that_write_name_their_file() {
    assert_eq!(Tool::Write(file_input("a.txt")).file_to_modify(), Some("a.txt"));
    assert_eq!(Tool::Edit(file_input("b.txt")).file_to_modify(), Some("b.txt"));
    assert_eq!(Tool::MultiEdit(file_input("c.txt")).file_to_modify(), Some("c.txt"));
    assert_eq!(Tool::Read(file_input("d.txt")).file_to_modify(), None);
    let bash = Tool::Bash(BashToolInput {
        command: "ls -la".to_string(),
        description: "List files".to_string(),
    });
    assert_eq!(bash.file_to_modify(), None);
}
