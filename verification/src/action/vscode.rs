//! The VSCode backend: what is sent to an instance, and how its answers
//! are read.

pub mod rpc;

use vstd::prelude::*;

verus! {

/// The VSCode instances of a directory, by their sockets.
pub struct VSCodeAction {
    pub socket_paths: Vec<String>,
}

impl VSCodeAction {
    pub fn new(socket_paths: Vec<String>) -> (action: Self)
        ensures
            action.socket_paths == socket_paths,
    {
        VSCodeAction { socket_paths }
    }
}

} // verus!
