//! The scripts that are run inside a Neovim instance.
//!
//! A script is text with at most one hole: the buffer number, or the
//! message. What fills the hole is rendered here, so that a script is a
//! value that can be compared with what is expected.

use crate::text::{push_signed_decimal, replace_char, replaced, signed_decimal};
use vstd::prelude::*;
use vstd::string::*;

verus! {

/// The refresh script up to the buffer number.
pub const REFRESH_SCRIPT_HEAD: &'static str = r#"
        local buf = "#;

/// The refresh script after the buffer number: it records the cursor of
/// every window that shows the buffer, reloads the buffer from disk,
/// puts the cursors back where the windows are still valid, and redraws
/// if the buffer is the current one.
pub const REFRESH_SCRIPT_TAIL: &'static str = r#"
        local cursor_positions = {}
        local is_current_buf = vim.api.nvim_get_current_buf() == buf

        -- Save cursor positions for all windows displaying this buffer
        for _, win in ipairs(vim.api.nvim_list_wins()) do
            if vim.api.nvim_win_get_buf(win) == buf then
                cursor_positions[win] = vim.api.nvim_win_get_cursor(win)
            end
        end

        -- Refresh the buffer (checktime triggers file change detection)
        vim.api.nvim_buf_call(buf, function()
            vim.cmd('checktime')
            vim.cmd('edit')
        end)

        -- Restore cursor positions
        for win, pos in pairs(cursor_positions) do
            if vim.api.nvim_win_is_valid(win) then
                pcall(vim.api.nvim_win_set_cursor, win, pos)
            end
        end

        -- Force redraw only if this is the current buffer
        if is_current_buf then
            vim.cmd('redraw')
        end
        "#;

/// The script that reports the selection: the one in progress if there
/// is one, else the last one made; `vim.NIL` if there is none or the
/// buffer has no file.
pub const SELECTION_SCRIPT: &'static str = r#"
        local mode = vim.fn.mode()
        local first, last

        -- Prefer a selection that is in progress, else the last one made
        if mode == 'v' or mode == 'V' or mode == '\22' then
            first = vim.fn.getpos('v')[2]
            last = vim.fn.getpos('.')[2]
        else
            first = vim.fn.getpos("'<")[2]
            last = vim.fn.getpos("'>")[2]
        end

        -- A mark that was never set has line 0
        if first == 0 or last == 0 then
            return vim.NIL
        end

        local file_path = vim.api.nvim_buf_get_name(0)
        if file_path == '' then
            return vim.NIL
        end

        local start_line = math.min(first, last)
        local end_line = math.max(first, last)
        local lines = vim.api.nvim_buf_get_lines(0, start_line - 1, end_line, false)

        return {
            file_path = file_path,
            start_line = start_line,
            end_line = end_line,
            content = table.concat(lines, '\n'),
        }
        "#;

/// The notification script up to the message.
pub const NOTIFY_SCRIPT_HEAD: &'static str = "vim.notify(\"";

/// The notification script after the message.
pub const NOTIFY_SCRIPT_TAIL: &'static str = "\", vim.log.levels.WARN)";

/// The text of the script that reloads buffer `buf_number`.
pub open spec fn refresh_script(buf_number: int) -> Seq<char> {
    REFRESH_SCRIPT_HEAD@ + signed_decimal(buf_number) + REFRESH_SCRIPT_TAIL@
}

/// The text of the script that shows `message` as a warning: every
/// double quote of the message is escaped with a backslash.
pub open spec fn notification_script(message: Seq<char>) -> Seq<char> {
    NOTIFY_SCRIPT_HEAD@ + replaced(message, '"', "\\\""@) + NOTIFY_SCRIPT_TAIL@
}

/// Lua code that reloads a buffer from disk and keeps the cursor of every
/// window that shows it.
pub fn refresh_buffer_lua(buf_number: i64) -> (script: String)
    ensures
        script@ == refresh_script(buf_number as int),
{
    let mut script = String::from_str(REFRESH_SCRIPT_HEAD);
    push_signed_decimal(&mut script, buf_number);
    script.append(REFRESH_SCRIPT_TAIL);
    script
}

/// Lua code that shows `message` as a warning.
pub fn send_notification_lua(message: &str) -> (script: String)
    ensures
        script@ == notification_script(message@),
{
    let escaped = replace_char(message, '"', "\\\"");
    let mut script = String::from_str(NOTIFY_SCRIPT_HEAD);
    script.append(escaped.as_str());
    script.append(NOTIFY_SCRIPT_TAIL);
    script
}

/// Lua code that reports the selection of the active buffer.
pub fn visual_selection_lua() -> (script: String)
    ensures
        script@ == SELECTION_SCRIPT@,
{
    String::from_str(SELECTION_SCRIPT)
}

} // verus!
