use vstd::prelude::*;

verus! {

/// The two ways an operation of this library can fail: the underlying bus
/// transport reported an error, or the client was used before `init`.
#[derive(Debug)]
pub enum SystemdError {
    /// A failure reported by the message-bus library while dialing the bus,
    /// binding the Manager proxy, or invoking a remote method.
    DbusError(zbus::Error),
    /// A listing or proxy access was attempted before `init` succeeded.
    InitialisationError,
}

} // verus!
