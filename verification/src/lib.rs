//! Lifecycle rules for kernel control groups.
//!
//! A binding layer talks to the kernel's resource-control subsystem and
//! reports what it answered: status codes and opaque handles. This crate
//! holds what is decided around those answers: which names may be handed to
//! the subsystem, which call stands for each operation, how a status is
//! classified, and how a group descriptor moves from an in-memory
//! description to a committed one.

pub mod call;
pub mod group;
pub mod lifecycle;
pub mod name;
pub mod status;
