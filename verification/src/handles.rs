//! Handle inheritance where the platform has none.
use vstd::prelude::*;

verus! {

/// A raw OS handle, as a number.
pub type RawHandle = usize;

/// Why a handle could not be made inheritable.
#[derive(Debug, Clone, Copy, PartialEq, Eq, Structural)]
pub enum HandleError {
    /// The platform does not pass handles on to child processes.
    Unsupported,
}

impl HandleError {
    /// The error in words.
    pub fn message(&self) -> (r: &'static str)
        ensures
            r@ == "handle inheritance not yet supported on this platform"@,
    {
        "handle inheritance not yet supported on this platform"
    }
}

/// Marks a shared memory handle inheritable just before a child process is spawned. Outside
/// Windows that is not supported.
pub fn mark_handle_inheritable(_handle: RawHandle) -> (r: Result<(), HandleError>)
    ensures
        r == Err::<(), HandleError>(HandleError::Unsupported),
{
    Err(HandleError::Unsupported)
}

/// Clears the inheritable flag of a handle once the child is spawned. Outside Windows no handle
/// ever has it, so there is nothing to do.
pub fn unmark_handle_inheritable(_handle: RawHandle) -> (r: Result<(), HandleError>)
    ensures
        r == Ok::<(), HandleError>(()),
{
    Ok(())
}

} // verus!
