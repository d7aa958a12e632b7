use vstd::prelude::*;

use crate::bus;
use crate::errors::SystemdError;

verus! {

/// Which message bus a client connects to, chosen once at construction.
#[derive(Clone, Copy, Debug, PartialEq, Eq, Structural)]
pub enum ConnectionLevel {
    /// Connect to the session/user message bus.
    UserLevel,
    /// Connect to the system-wide message bus.
    SystemLevel,
}

impl ConnectionLevel {
    /// Dials the bus this scope selects and blocks until the handshake is
    /// done. The scope value alone decides which bus is dialed; any transport
    /// failure is wrapped, never retried.
    pub fn get_connection_blocking(&self) -> (r: Result<zbus::blocking::Connection, SystemdError>)
        ensures
            r matches Ok(c) ==> bus::connected_bus(c) == *self,
            r matches Err(e) ==> e is DbusError,
    {
        let dialed = match self {
            ConnectionLevel::UserLevel => bus::dial_session_blocking(),
            ConnectionLevel::SystemLevel => bus::dial_system_blocking(),
        };
        match dialed {
            Ok(c) => Ok(c),
            Err(e) => Err(SystemdError::DbusError(e)),
        }
    }
}

} // verus!
