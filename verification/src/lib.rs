//! Coordination between an automation caller and the editor instances that
//! are running in a working directory.
//!
//! The crate holds the rules of that coordination: how an instance's socket
//! is named and recognised, how per-instance answers are folded into one
//! status, the scripts and requests that are sent to an instance, and the
//! decision that is handed back to the caller. Sockets, processes and JSON
//! encoding are left to the program around it.
//!
//! - `utils`: socket naming and recognition
//! - `action`: buffer status, fold strategies, the two editor backends
//! - `hook`: the event that comes in and the decision that goes out
//! - `handler`: the policy that turns one into the other
//! - `text`: rendering of numbers and quoting of strings
//! - `constants`: limits shared by the backends

pub mod action;
pub mod constants;
pub mod handler;
pub mod hook;
pub mod text;
pub mod utils;
