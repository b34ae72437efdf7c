//! Single-instance enforcement: the verdict drawn from creating a named mutex.

use vstd::prelude::*;

verus! {

/// The system error code for an object that existed before the call.
pub const ERROR_ALREADY_EXISTS: u32 = 183;

/// Whether this process is the first instance.
#[derive(Clone, Copy, Debug, PartialEq, Eq, Structural)]
pub enum InstanceCheck {
    /// No other instance holds the mutex.
    First,
    /// Another instance created the mutex earlier.
    AlreadyRunning,
    /// The mutex could not be created; the system error code.
    Failed(u32),
}

/// The verdict for a mutex creation: `created` tells whether a handle came
/// back, `last_error` is the thread's last error code right after the call.
pub fn instance_check(created: bool, last_error: u32) -> (r: InstanceCheck)
    ensures
        !created ==> r == InstanceCheck::Failed(last_error),
        created && last_error == ERROR_ALREADY_EXISTS ==> r == InstanceCheck::AlreadyRunning,
        created && last_error != ERROR_ALREADY_EXISTS ==> r == InstanceCheck::First,
{
    if !created {
        InstanceCheck::Failed(last_error)
    } else if last_error == ERROR_ALREADY_EXISTS {
        InstanceCheck::AlreadyRunning
    } else {
        InstanceCheck::First
    }
}

} // verus!
