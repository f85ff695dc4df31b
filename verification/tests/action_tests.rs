//! Folding the answers of many instances, and what is sent to one.

use sidekick::action::aggregate::{aggregate_status, combine_status, settle_status};
use sidekick::action::connection::{
    any_success_result, collect_all, for_each_instance, try_fold_instances, Fold,
};
use sidekick::action::neovim::buffer::{find_buffer, get_buffer_status};
use sidekick::action::neovim::lua::{
    refresh_buffer_lua, send_notification_lua, visual_selection_lua,
};
use sidekick::action::neovim::{
    delete_command, echo_command, selection_from_parts, selection_from_reply, NeovimAction,
};
use sidekick::action::vscode::rpc::{
    buffer_status_request, frame_request, get_visual_selection_request, refresh_buffer_request,
    result_for, send_message_request, BufferStatusResult, RPCError, RPCFailure, RPCResponse, RequestIds,
    VisualSelectionResult,
};
use sidekick::action::vscode::VSCodeAction;
use sidekick::action::{ActionError, BufferStatus, EditorContext};
use sidekick::constants::{NEOVIM_RPC_TIMEOUT_SECS, VSCODE_RPC_TIMEOUT_SECS};

fn status(is_current: bool, has_unsaved_changes: bool) -> BufferStatus {
    BufferStatus { is_current, has_unsaved_changes }
}

fn answered(is_current: bool, has_unsaved_changes: bool) -> Result<BufferStatus, ActionError> {
    Ok(status(is_current, has_unsaved_changes))
}

// any-success

#[test]
fn for_each_instance_is_true_with_one_success() {
    let outcomes: Vec<Result<(), ActionError>> =
        vec![Err(ActionError::NotConnected), Ok(()), Err(ActionError::CallFailed)];
    assert!(for_each_instance(&outcomes));
}

#[test]
fn for_each_instance_is_false_without_success() {
    let none: Vec<Result<(), ActionError>> = Vec::new();
    assert!(!for_each_instance(&none));
    let failed: Vec<Result<(), ActionError>> =
        vec![Err(ActionError::NotConnected), Err(ActionError::BufferNotFound)];
    assert!(!for_each_instance(&failed));
}

#[test]
fn any_success_result_maps_the_flag() {
    assert_eq!(any_success_result(true), Ok(()));
    assert_eq!(any_success_result(false), Err(ActionError::CallFailed));
}

// collect-all

#[test]
fn collect_all_keeps_order_and_drops_failures_and_nones() {
    let outcomes = vec![
        Ok(Some("A")),
        Err(ActionError::CallFailed),
        Ok(Some("B")),
        Ok(None),
    ];
    assert_eq!(collect_all(outcomes), vec!["A", "B"]);
}

#[test]
fn collect_all_of_nothing_is_empty() {
    let outcomes: Vec<Result<Option<u8>, ActionError>> = Vec::new();
    assert!(collect_all(outcomes).is_empty());
    let only_failures: Vec<Result<Option<u8>, ActionError>> =
        vec![Err(ActionError::NotConnected), Ok(None)];
    assert!(collect_all(only_failures).is_empty());
}

// accumulate with early exit

#[test]
fn try_fold_distinguishes_nothing_processed_from_unchanged() {
    let none: Vec<Result<u32, ActionError>> = vec![Err(ActionError::NotConnected)];
    assert_eq!(try_fold_instances(&none, 5u32, |acc, _n: &u32| (acc, true)), None);
    let one: Vec<Result<u32, ActionError>> = vec![Ok(1)];
    assert_eq!(try_fold_instances(&one, 5u32, |acc, _n: &u32| (acc, true)), Some(5));
}

#[test]
fn try_fold_stops_when_told_to() {
    let outcomes: Vec<Result<u32, ActionError>> =
        vec![Ok(1), Err(ActionError::CallFailed), Ok(2), Ok(4), Ok(8)];
    let sum_until_three = |acc: u32, n: &u32| (acc + *n, acc + *n < 3);
    assert_eq!(try_fold_instances(&outcomes, 0, sum_until_three), Some(3));
    let sum_all = |acc: u32, n: &u32| (acc + *n, true);
    assert_eq!(try_fold_instances(&outcomes, 0, sum_all), Some(15));
}

#[test]
fn fold_state_machine_steps() {
    let fold = Fold::new(0u32);
    assert!(fold.wants_more());
    let add = |acc: u32, n: &u32| (acc + *n, *n != 0);

    let fold = fold.feed(&Err(ActionError::NotConnected), &add);
    assert!(fold.wants_more());
    assert!(!fold.any_processed);

    let fold = fold.feed(&Ok(3), &add);
    assert!(fold.wants_more());
    assert!(fold.any_processed);
    assert_eq!(fold.acc, 3);

    let fold = fold.feed(&Ok(0), &add);
    assert!(!fold.wants_more());

    // a fold that has halted takes nothing in
    let fold = fold.feed(&Ok(5), &add);
    assert!(!fold.wants_more());
    assert_eq!(fold.acc, 3);
    assert_eq!(fold.finish(), Some(3));

    assert_eq!(Fold::new(9u32).finish(), None);
}

#[test]
fn early_exit_fold_never_queries_after_unsaved_changes() {
    // a transport that counts what it is asked
    let answers = vec![
        Err(ActionError::NotConnected),
        answered(false, false),
        answered(false, true),
        answered(true, false),
        answered(true, true),
    ];
    let mut queries = 0;
    let mut fold = Fold::new(status(false, false));
    for answer in &answers {
        if !fold.wants_more() {
            break;
        }
        queries += 1;
        fold = fold.feed(answer, &combine_status);
    }
    assert_eq!(queries, 3);
    assert_eq!(settle_status(fold.finish()), status(false, true));
    // the fold over all outcomes at once arrives at the same status
    assert_eq!(aggregate_status(&answers), status(false, true));
}

// status

#[test]
fn combine_status_is_a_logical_or() {
    assert_eq!(
        combine_status(status(false, false), &status(false, false)),
        (status(false, false), true)
    );
    assert_eq!(
        combine_status(status(true, false), &status(false, false)),
        (status(true, false), true)
    );
    assert_eq!(
        combine_status(status(false, false), &status(true, true)),
        (status(true, true), false)
    );
    assert_eq!(
        combine_status(status(false, true), &status(false, false)),
        (status(false, true), false)
    );
}

#[test]
fn settle_status_defaults_to_no_signal() {
    assert_eq!(settle_status(None), status(false, false));
    assert_eq!(settle_status(Some(status(true, false))), status(true, false));
}

#[test]
fn aggregate_status_without_reachable_instance_is_no_signal() {
    assert_eq!(aggregate_status(&Vec::new()), status(false, false));
    let unreachable = vec![Err(ActionError::NotConnected), Err(ActionError::CallFailed)];
    assert_eq!(aggregate_status(&unreachable), status(false, false));
}

#[test]
fn aggregate_status_is_order_independent_without_unsaved_changes() {
    let a = vec![answered(false, false), Err(ActionError::CallFailed), answered(true, false)];
    let b = vec![answered(true, false), answered(false, false), Err(ActionError::CallFailed)];
    let c = vec![Err(ActionError::CallFailed), answered(true, false), answered(false, false)];
    assert_eq!(aggregate_status(&a), status(true, false));
    assert_eq!(aggregate_status(&b), status(true, false));
    assert_eq!(aggregate_status(&c), status(true, false));
}

#[test]
fn aggregate_status_reports_unsaved_changes_in_any_order() {
    let a = vec![answered(false, true), answered(true, false)];
    let b = vec![answered(true, false), answered(false, true)];
    assert!(aggregate_status(&a).has_unsaved_changes);
    assert!(aggregate_status(&b).has_unsaved_changes);
    // the instance behind the first unsaved buffer is not consulted
    assert_eq!(aggregate_status(&a), status(false, true));
    assert_eq!(aggregate_status(&b), status(true, true));
}

// Neovim

#[test]
fn neovim_action_holds_its_sockets() {
    let action = NeovimAction::new(vec!["/tmp/a.sock".to_string()]);
    assert_eq!(action.socket_paths, vec!["/tmp/a.sock".to_string()]);
}

#[test]
fn find_buffer_returns_the_first_match() {
    let names = vec![
        Ok("/a".to_string()),
        Ok(String::new()),
        Ok("/b".to_string()),
        Ok("/b".to_string()),
    ];
    assert_eq!(find_buffer(&names, "/b"), Ok(2));
    assert_eq!(find_buffer(&names, "/a"), Ok(0));
}

#[test]
fn find_buffer_without_match_is_buffer_not_found() {
    let names = vec![Ok("/a".to_string()), Ok(String::new())];
    assert_eq!(find_buffer(&names, "/c"), Err(ActionError::BufferNotFound));
    assert_eq!(find_buffer(&Vec::new(), "/c"), Err(ActionError::BufferNotFound));
}

#[test]
fn find_buffer_skips_buffers_without_a_name() {
    let names = vec![Ok(String::new())];
    assert_eq!(find_buffer(&names, ""), Err(ActionError::BufferNotFound));
}

#[test]
fn find_buffer_fails_at_a_name_that_could_not_be_read() {
    let names = vec![Ok("/a".to_string()), Err(ActionError::CallFailed), Ok("/b".to_string())];
    assert_eq!(find_buffer(&names, "/b"), Err(ActionError::CallFailed));
    // a match before the failure is found
    assert_eq!(find_buffer(&names, "/a"), Ok(0));
    let unreachable = vec![Err(ActionError::NotConnected)];
    assert_eq!(find_buffer(&unreachable, "/a"), Err(ActionError::CallFailed));
}

#[test]
fn get_buffer_status_reads_the_modified_flag() {
    assert_eq!(get_buffer_status(true, Some(true)), status(true, true));
    assert_eq!(get_buffer_status(true, Some(false)), status(true, false));
    assert_eq!(get_buffer_status(false, None), status(false, false));
    assert_eq!(get_buffer_status(false, Some(true)), status(false, true));
}

#[test]
fn refresh_buffer_lua_names_the_buffer() {
    let script = refresh_buffer_lua(42);
    assert!(script.starts_with("\n        local buf = 42\n        local cursor_positions = {}\n"));
    assert!(script.contains("if vim.api.nvim_win_get_buf(win) == buf then"));
    assert!(script.contains("vim.cmd('checktime')"));
    assert!(script.contains("pcall(vim.api.nvim_win_set_cursor, win, pos)"));
    assert!(script.ends_with("if is_current_buf then\n            vim.cmd('redraw')\n        end\n        "));
    assert_eq!(refresh_buffer_lua(7), script.replace("local buf = 42", "local buf = 7"));
}

#[test]
fn refresh_buffer_lua_renders_negative_and_extreme_numbers() {
    assert!(refresh_buffer_lua(-1).starts_with("\n        local buf = -1\n"));
    assert!(refresh_buffer_lua(0).starts_with("\n        local buf = 0\n"));
    assert!(refresh_buffer_lua(i64::MAX).starts_with("\n        local buf = 9223372036854775807\n"));
    assert!(refresh_buffer_lua(i64::MIN).starts_with("\n        local buf = -9223372036854775808\n"));
}

#[test]
fn send_notification_lua_escapes_double_quotes() {
    assert_eq!(send_notification_lua("hello"), "vim.notify(\"hello\", vim.log.levels.WARN)");
    assert_eq!(
        send_notification_lua("say \"hi\""),
        "vim.notify(\"say \\\"hi\\\"\", vim.log.levels.WARN)"
    );
    assert_eq!(send_notification_lua(""), "vim.notify(\"\", vim.log.levels.WARN)");
}

#[test]
fn visual_selection_lua_reads_the_selection() {
    let script = visual_selection_lua();
    assert!(script.contains("vim.fn.getpos('v')[2]"));
    assert!(script.contains("vim.fn.getpos(\"'<\")[2]"));
    assert!(script.contains("if first == 0 or last == 0 then\n            return vim.NIL"));
    assert!(script.contains("if file_path == '' then\n            return vim.NIL"));
    assert!(script.contains("math.min(first, last)"));
    assert!(script.contains("math.max(first, last)"));
    assert!(script.contains("table.concat(lines, '\\n')"));
    assert_eq!(script, visual_selection_lua());
}

#[test]
fn echo_command_doubles_single_quotes() {
    assert_eq!(echo_command("hello"), "echo 'hello'");
    assert_eq!(echo_command("it's"), "echo 'it''s'");
    assert_eq!(echo_command(""), "echo ''");
}

#[test]
fn selection_from_parts_checks_the_lines() {
    let selection = selection_from_parts("/a.rs".to_string(), 3, 5, "x\ny\nz".to_string());
    assert_eq!(
        selection,
        Some(EditorContext {
            file_path: "/a.rs".to_string(),
            start_line: 3,
            end_line: 5,
            content: "x\ny\nz".to_string(),
        })
    );
    assert!(selection_from_parts("/a.rs".to_string(), 1, 1, String::new()).is_some());
    assert_eq!(selection_from_parts("/a.rs".to_string(), 0, 5, String::new()), None);
    assert_eq!(selection_from_parts("/a.rs".to_string(), 6, 5, String::new()), None);
    assert_eq!(selection_from_parts(String::new(), 3, 5, String::new()), None);
    assert_eq!(selection_from_parts("/a.rs".to_string(), 1, 4294967296, String::new()), None);
    assert!(selection_from_parts("/a.rs".to_string(), 1, 4294967295, String::new()).is_some());
}

#[test]
fn selection_from_reply_reads_the_reply() {
    // no table: nothing is selected
    assert_eq!(selection_from_reply(None), Ok(None));
    // a table with all parts
    let full = Some((Some("/a.rs".to_string()), Some(3), Some(5), Some("x".to_string())));
    assert_eq!(
        selection_from_reply(full),
        Ok(Some(EditorContext {
            file_path: "/a.rs".to_string(),
            start_line: 3,
            end_line: 5,
            content: "x".to_string(),
        }))
    );
    // parts that make up no selection
    let unset = Some((Some("/a.rs".to_string()), Some(0), Some(5), Some(String::new())));
    assert_eq!(selection_from_reply(unset), Ok(None));
    // a table that lacks a part
    let no_path = Some((None, Some(3), Some(5), Some("x".to_string())));
    assert_eq!(selection_from_reply(no_path), Err(ActionError::CallFailed));
    let no_start = Some((Some("/a.rs".to_string()), None, Some(5), Some("x".to_string())));
    assert_eq!(selection_from_reply(no_start), Err(ActionError::CallFailed));
    let no_end = Some((Some("/a.rs".to_string()), Some(3), None, Some("x".to_string())));
    assert_eq!(selection_from_reply(no_end), Err(ActionError::CallFailed));
    let no_content = Some((Some("/a.rs".to_string()), Some(3), Some(5), None));
    assert_eq!(selection_from_reply(no_content), Err(ActionError::CallFailed));
    assert_eq!(selection_from_reply(Some((None, None, None, None))), Err(ActionError::CallFailed));
}

#[test]
fn delete_command_names_the_buffer() {
    assert_eq!(delete_command(12), "bdelete 12");
    assert_eq!(delete_command(-3), "bdelete -3");
}

// VSCode

#[test]
fn vscode_action_holds_its_sockets() {
    let action = VSCodeAction::new(vec!["/tmp/b.sock".to_string()]);
    assert_eq!(action.socket_paths, vec!["/tmp/b.sock".to_string()]);
}

#[test]
fn response_with_error_and_result_is_a_failure() {
    let response = RPCResponse {
        id: Some(1),
        result: Some(BufferStatusResult { is_current: true, has_unsaved_changes: false }),
        error: Some(RPCError { code: -32000, message: "boom".to_string() }),
    };
    match response.into_result() {
        Err(RPCFailure::Rejected(error)) => {
            assert_eq!(error.code, -32000);
            assert_eq!(error.message, "boom");
        }
        other => panic!("expected the error to win, got {:?}", other),
    }
}

#[test]
fn response_with_neither_error_nor_result_is_a_failure() {
    let response: RPCResponse<BufferStatusResult> =
        RPCResponse { id: Some(1), result: None, error: None };
    assert!(matches!(response.into_result(), Err(RPCFailure::MissingResult)));
}

#[test]
fn response_with_result_only_succeeds() {
    let response = RPCResponse {
        id: None,
        result: Some(BufferStatusResult { is_current: true, has_unsaved_changes: true }),
        error: None,
    };
    let result = response.into_result().expect("a result");
    assert_eq!(result.to_status(), status(true, true));
}

#[test]
fn result_for_refuses_a_response_to_another_request() {
    let other = RPCResponse { id: Some(5), result: Some(7u8), error: None };
    assert!(matches!(result_for(other, 4), Err(RPCFailure::WrongId)));
    // the id is looked at before the error is
    let other_rejected = RPCResponse {
        id: Some(5),
        result: Some(7u8),
        error: Some(RPCError { code: 1, message: "no".to_string() }),
    };
    assert!(matches!(result_for(other_rejected, 4), Err(RPCFailure::WrongId)));
    let other_empty: RPCResponse<u8> = RPCResponse { id: Some(0), result: None, error: None };
    assert!(matches!(result_for(other_empty, 4), Err(RPCFailure::WrongId)));
}

#[test]
fn result_for_reads_a_response_to_this_request_or_to_none() {
    let matching = RPCResponse { id: Some(4), result: Some(7u8), error: None };
    assert!(matches!(result_for(matching, 4), Ok(7)));
    let unnamed = RPCResponse { id: None, result: Some(7u8), error: None };
    assert!(matches!(result_for(unnamed, 4), Ok(7)));
    let rejected = RPCResponse {
        id: Some(4),
        result: Some(7u8),
        error: Some(RPCError { code: 1, message: "no".to_string() }),
    };
    assert!(matches!(result_for(rejected, 4), Err(RPCFailure::Rejected(_))));
    let empty: RPCResponse<u8> = RPCResponse { id: Some(4), result: None, error: None };
    assert!(matches!(result_for(empty, 4), Err(RPCFailure::MissingResult)));
    let unnamed_empty: RPCResponse<u8> = RPCResponse { id: None, result: None, error: None };
    assert!(matches!(result_for(unnamed_empty, 4), Err(RPCFailure::MissingResult)));
}

#[test]
fn response_answers_its_request_or_any() {
    let named: RPCResponse<()> = RPCResponse { id: Some(4), result: None, error: None };
    assert!(named.answers(4));
    assert!(!named.answers(5));
    let unnamed: RPCResponse<()> = RPCResponse { id: None, result: None, error: None };
    assert!(unnamed.answers(5));
}

#[test]
fn failures_read_as_text() {
    let rejected = RPCFailure::Rejected(RPCError { code: 404, message: "no buffer".to_string() });
    assert_eq!(rejected.describe(), "RPC error 404: no buffer");
    let negative = RPCFailure::Rejected(RPCError { code: -32601, message: String::new() });
    assert_eq!(negative.describe(), "RPC error -32601: ");
    let lowest = RPCFailure::Rejected(RPCError { code: i32::MIN, message: "x".to_string() });
    assert_eq!(lowest.describe(), "RPC error -2147483648: x");
    assert_eq!(RPCFailure::MissingResult.describe(), "RPC response missing result");
    assert_eq!(RPCFailure::WrongId.describe(), "RPC response names another request");
    assert_eq!(RPCFailure::WrongId.to_action_error(), ActionError::CallFailed);
    assert_eq!(rejected.to_action_error(), ActionError::CallFailed);
    assert_eq!(RPCFailure::MissingResult.to_action_error(), ActionError::CallFailed);
}

#[test]
fn request_ids_count_up_from_one() {
    let mut ids = RequestIds::new();
    assert_eq!(ids.next_id(), 1);
    assert_eq!(ids.next_id(), 2);
    assert_eq!(ids.next_id(), 3);
}

#[test]
fn request_ids_start_again_after_the_largest() {
    let mut ids = RequestIds { next: u64::MAX };
    assert_eq!(ids.next_id(), u64::MAX);
    assert_eq!(ids.next_id(), 0);
    assert_eq!(ids.next_id(), 1);
}

#[test]
fn requests_name_their_method_and_parameters() {
    let request = buffer_status_request(7, "/a.rs");
    assert_eq!(request.id, 7);
    assert_eq!(request.method, "buffer_status");
    assert_eq!(request.params.expect("parameters").file_path, "/a.rs");

    let request = refresh_buffer_request(8, "/b.rs");
    assert_eq!(request.id, 8);
    assert_eq!(request.method, "refresh_buffer");
    assert_eq!(request.params.expect("parameters").file_path, "/b.rs");

    let request = send_message_request(9, "hello");
    assert_eq!(request.id, 9);
    assert_eq!(request.method, "send_message");
    assert_eq!(request.params.expect("parameters").message, "hello");

    let request = get_visual_selection_request(10);
    assert_eq!(request.id, 10);
    assert_eq!(request.method, "get_visual_selection");
    assert!(request.params.is_none());
}

#[test]
fn a_request_is_one_line() {
    assert_eq!(frame_request("{\"id\":1}"), "{\"id\":1}\n");
    assert_eq!(frame_request(""), "\n");
}

#[test]
fn visual_selection_becomes_an_editor_context() {
    let selection = VisualSelectionResult {
        file_path: "/a.rs".to_string(),
        start_line: 2,
        end_line: 4,
        content: "b\nc\nd".to_string(),
    };
    assert_eq!(
        selection.into_context(),
        Some(EditorContext {
            file_path: "/a.rs".to_string(),
            start_line: 2,
            end_line: 4,
            content: "b\nc\nd".to_string(),
        })
    );
}

#[test]
fn visual_selection_with_lines_that_are_none_gives_no_context() {
    let lines = |start_line: u32, end_line: u32| VisualSelectionResult {
        file_path: "/a.rs".to_string(),
        start_line,
        end_line,
        content: String::new(),
    };
    assert_eq!(lines(0, 4).into_context(), None);
    assert_eq!(lines(0, 0).into_context(), None);
    assert_eq!(lines(5, 4).into_context(), None);
    assert!(lines(1, 1).into_context().is_some());
    assert!(lines(4, 4).into_context().is_some());
    assert!(lines(1, u32::MAX).into_context().is_some());
}

#[test]
fn calls_are_given_up_after_two_seconds() {
    assert_eq!(NEOVIM_RPC_TIMEOUT_SECS, 2);
    assert_eq!(VSCODE_RPC_TIMEOUT_SECS, 2);
}
