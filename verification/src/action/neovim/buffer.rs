//! Finding the buffer of a file among the buffers of an instance.
//!
//! The instance is asked for the name of each of its buffers. A name is
//! the path of the file behind the buffer, or empty for a buffer without
//! a file. Names and the path that is looked for are compared as they
//! are given: they are expected in canonical form.

use crate::action::{ActionError, BufferStatus};
use vstd::prelude::*;
use vstd::string::*;

verus! {

/// Whether the name of a buffer was obtained and is the path `target`.
/// A buffer without a name matches nothing.
pub open spec fn names_file(entry: Result<String, ActionError>, target: Seq<char>) -> bool {
    entry matches Ok(name) && name@.len() > 0 && name@ == target
}

/// The position of the first buffer whose name is `target`.
///
/// The buffers are taken in order. The search ends with the first buffer
/// that matches; it fails with `CallFailed` at the first buffer whose
/// name could not be obtained, and with `BufferNotFound` when no buffer
/// is left.
pub fn find_buffer(names: &Vec<Result<String, ActionError>>, file_path: &str) -> (found: Result<
    usize,
    ActionError,
>)
    ensures
        match found {
            Ok(i) => i < names@.len() && names_file(names@[i as int], file_path@) && forall|j: int|
                0 <= j < i ==> names@[j] is Ok && !names_file(names@[j], file_path@),
            Err(ActionError::CallFailed) => exists|k: int|
                0 <= k < names@.len() && names@[k] is Err && forall|j: int|
                    0 <= j < k ==> names@[j] is Ok && !names_file(names@[j], file_path@),
            Err(ActionError::BufferNotFound) => forall|j: int|
                0 <= j < names@.len() ==> names@[j] is Ok && !names_file(names@[j], file_path@),
            Err(ActionError::NotConnected) => false,
        },
{
    let target = String::from_str(file_path);
    let mut i: usize = 0;
    while i < names.len()
        invariant
            i <= names.len(),
            target@ == file_path@,
            forall|j: int| 0 <= j < i ==> names@[j] is Ok && !names_file(names@[j], file_path@),
        decreases names.len() - i,
    {
        match &names[i] {
            Err(_) => {
                return Err(ActionError::CallFailed);
            },
            Ok(name) => {
                if !name.as_str().is_empty() && *name == target {
                    return Ok(i);
                }
            },
        }
        i += 1;
    }
    Err(ActionError::BufferNotFound)
}

/// The status of a buffer that was found: whether it is the buffer that
/// the instance shows, and whether it is modified. An instance that does
/// not say whether the buffer is modified counts as not modified.
pub fn get_buffer_status(is_current: bool, modified: Option<bool>) -> (status: BufferStatus)
    ensures
        status.is_current == is_current,
        status.has_unsaved_changes == (modified == Some(true)),
{
    let has_unsaved_changes = match modified {
        Some(flag) => flag,
        None => false,
    };
    BufferStatus { is_current, has_unsaved_changes }
}

} // verus!
