//! Classification of the status codes that the subsystem reports.

use vstd::prelude::*;

verus! {

/// A failure reported by the subsystem: the raw status code, passed on
/// unchanged. The library only ever builds one from a non-zero status.
#[derive(Clone, Copy, Debug, PartialEq, Eq, Structural)]
pub struct SubsystemError(pub i32);

impl SubsystemError {
    /// The raw status code that the subsystem reported.
    pub fn code(&self) -> (code: i32)
        ensures
            code == self.0,
    {
        self.0
    }
}

/// What a status code means: zero is success, every other value is a
/// failure that carries the value itself.
pub open spec fn outcome(status: i32) -> Result<(), SubsystemError> {
    if status == 0 {
        Ok(())
    } else {
        Err(SubsystemError(status))
    }
}

/// Classifies the status that the subsystem reported for its global
/// initialization. Each call reports on the status it is given; nothing is
/// remembered between calls.
pub fn init(status: i32) -> (result: Result<(), SubsystemError>)
    ensures
        result == outcome(status),
{
    if status == 0 {
        Ok(())
    } else {
        Err(SubsystemError(status))
    }
}

/// Accepts the status of an initialization that the caller knows to have
/// succeeded. A caller that holds a failure must handle it before this point.
pub fn init_or_panic(status: i32)
    requires
        outcome(status) is Ok,
{
    let _ = init(status);
}

} // verus!
