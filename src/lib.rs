//! A single-connection listener: it validates its invocation, renders the
//! addressing of the accepted connection as text, and plans the environment
//! changes that are published to the command that takes the connection over.
use vstd::prelude::*;

pub mod decimal;
pub mod environment;
pub mod invocation;

verus! {

/// Number of pending connections the listener queues.
pub const BACKLOG: i32 = 128;

/// Descriptor slot of standard input.
pub const STDIN_FILENO: i32 = 0;

/// Descriptor slot of standard output.
pub const STDOUT_FILENO: i32 = 1;

} // verus!
