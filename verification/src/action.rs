//! What can be asked of the editors, and what they answer.

pub mod aggregate;
pub mod connection;
pub mod neovim;
pub mod vscode;

use vstd::prelude::*;

verus! {

/// One instance's answer about one file: whether the file is in the
/// buffer that is shown, and whether that buffer differs from the disk.
#[derive(Debug, Clone, Copy, PartialEq, Eq, Structural)]
pub struct BufferStatus {
    pub is_current: bool,
    pub has_unsaved_changes: bool,
}

/// Why an operation on an instance gave nothing.
#[derive(Debug, Clone, Copy, PartialEq, Eq, Structural)]
pub enum ActionError {
    /// The instance could not be reached.
    NotConnected,
    /// The instance has no buffer for the file.
    BufferNotFound,
    /// The instance was reached and the call failed, timed out or answered
    /// with something that is no answer.
    CallFailed,
}

/// A selection in an editor: the file, the lines it spans (counted from
/// one, both ends included) and the text of those lines.
#[derive(Debug, Clone, PartialEq, Eq)]
pub struct EditorContext {
    pub file_path: String,
    pub start_line: u32,
    pub end_line: u32,
    pub content: String,
}

impl EditorContext {
    /// The lines are counted from one and the range is not empty.
    pub open spec fn is_valid(&self) -> bool {
        1 <= self.start_line <= self.end_line
    }
}

/// The operations that every editor backend offers.
pub trait Action {
    /// The status of the buffer that holds `file_path`.
    fn buffer_status(&self, file_path: &str) -> Result<BufferStatus, ActionError>;

    /// Reloads the buffer that holds `file_path` from disk.
    fn refresh_buffer(&self, file_path: &str) -> Result<(), ActionError>;

    /// Shows `message` in the editor.
    fn send_message(&self, message: &str) -> Result<(), ActionError>;

    /// Closes the buffer that holds `file_path`.
    fn delete_buffer(&self, file_path: &str) -> Result<(), ActionError>;

    /// The selections that are active in the editor.
    fn get_visual_selections(&self) -> Result<Vec<EditorContext>, ActionError>;
}

} // verus!
