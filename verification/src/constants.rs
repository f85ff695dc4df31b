//! Limits shared by the backends.

use vstd::prelude::*;

verus! {

/// Seconds after which a call to a Neovim instance is given up.
pub const NEOVIM_RPC_TIMEOUT_SECS: u64 = 2;

/// Seconds after which a read from a VSCode instance is given up.
pub const VSCODE_RPC_TIMEOUT_SECS: u64 = 2;

} // verus!
