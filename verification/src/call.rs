//! The calls that the library asks a binding to make.
//!
//! A call names one operation of the subsystem and what is handed to it. The
//! binding makes the call and reports the answer, a status or a handle, to
//! the function of `Group` that takes it.

use vstd::prelude::*;

verus! {

/// A call that the subsystem answers with a status code.
#[derive(Clone, Copy, Debug, PartialEq, Eq, Structural)]
pub enum StatusCall {
    /// Initialize the subsystem for this process.
    Initialize,
    /// Create in the kernel the group described behind `group`, with the
    /// controllers attached to it.
    Commit { group: usize, ignore_ownership: bool },
    /// Fill the descriptor behind `group` from the kernel.
    Fetch { group: usize },
}

/// A call that the subsystem answers with a handle.
#[derive(Clone, Copy, Debug, PartialEq, Eq)]
pub enum HandleCall<'a> {
    /// Allocate a descriptor for the group `name`.
    Allocate { name: &'a str },
    /// Attach the controller `controller` to the descriptor behind `group`.
    Attach { group: usize, controller: &'a str },
    /// Find the controller `controller` on the descriptor behind `group`.
    Lookup { group: usize, controller: &'a str },
}

} // verus!
