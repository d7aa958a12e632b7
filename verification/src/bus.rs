//! The trusted boundary around the message-bus library: type declarations for
//! the opaque transport values and thin wrappers around the calls the library
//! makes. Everything else in the crate is verified against these contracts.

use vstd::prelude::*;

use crate::connection_level::ConnectionLevel;
use crate::unit::WireUnit;
use crate::unit_file::WireUnitFile;

verus! {

#[verifier::external_type_specification]
#[verifier::external_body]
pub struct ExConnection(zbus::blocking::Connection);

#[verifier::external_type_specification]
#[verifier::external_body]
pub struct ExProxy<'a>(zbus::blocking::Proxy<'a>);

#[verifier::external_type_specification]
#[verifier::external_body]
pub struct ExZbusError(zbus::Error);

#[verifier::external_type_specification]
#[verifier::external_body]
pub struct ExOwnedObjectPath(zbus::zvariant::OwnedObjectPath);

/// The bus that a connection was dialed to: the per-user session bus
/// (`UserLevel`) or the system-wide bus (`SystemLevel`).
pub uninterp spec fn connected_bus(c: zbus::blocking::Connection) -> ConnectionLevel;

/// The bus of the connection that a proxy sends its method calls over.
pub uninterp spec fn proxy_bus(p: zbus::blocking::Proxy<'static>) -> ConnectionLevel;

/// Relies on `zbus::blocking::Connection::session`: dials the current user's
/// session bus and blocks until the handshake completes.
#[verifier::external_body]
pub(crate) fn dial_session_blocking() -> (r: Result<zbus::blocking::Connection, zbus::Error>)
    ensures
        r matches Ok(c) ==> connected_bus(c) == ConnectionLevel::UserLevel,
{
    zbus::blocking::Connection::session()
}

/// Relies on `zbus::blocking::Connection::system`: dials the system-wide bus
/// and blocks until the handshake completes.
#[verifier::external_body]
pub(crate) fn dial_system_blocking() -> (r: Result<zbus::blocking::Connection, zbus::Error>)
    ensures
        r matches Ok(c) ==> connected_bus(c) == ConnectionLevel::SystemLevel,
{
    zbus::blocking::Connection::system()
}

/// Relies on `zbus::blocking::Proxy::new`: binds a remote object at the given
/// destination, object path and interface, sending over the given connection.
#[verifier::external_body]
pub(crate) fn proxy_new_blocking(
    conn: &zbus::blocking::Connection,
    destination: &'static str,
    path: &'static str,
    interface: &'static str,
) -> (r: Result<zbus::blocking::Proxy<'static>, zbus::Error>)
    ensures
        r matches Ok(p) ==> proxy_bus(p) == connected_bus(*conn),
{
    zbus::blocking::Proxy::new(conn, destination, path, interface)
}

/// Relies on `zbus::blocking::Proxy::call` of the Manager's `ListUnits`
/// method: invokes it with no arguments and deserializes the reply as an
/// array of 10-field unit records. What comes back is remote state; nothing
/// holds of it beyond its shape.
#[verifier::external_body]
pub(crate) fn call_list_units(p: &zbus::blocking::Proxy<'static>) -> (r: Result<
    Vec<WireUnit>,
    zbus::Error,
>) {
    p.call("ListUnits", &())
}

/// Relies on `zbus::blocking::Proxy::call` of the Manager's `ListUnitFiles`
/// method: invokes it with no arguments and deserializes the reply as an
/// array of (path, enablement status) pairs. What comes back is remote state;
/// nothing holds of it beyond its shape.
#[verifier::external_body]
pub(crate) fn call_list_unit_files(p: &zbus::blocking::Proxy<'static>) -> (r: Result<
    Vec<WireUnitFile>,
    zbus::Error,
>) {
    p.call("ListUnitFiles", &())
}

} // verus!
