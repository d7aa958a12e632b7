use vstd::prelude::*;

use crate::bus;
use crate::connection_level::ConnectionLevel;
use crate::errors::SystemdError;
use crate::unit::{decode_units, decoded_units_reply, units_decode, Unit, WireUnit};
use crate::unit_file::{decode_unit_files, decoded_unit_files_reply, unit_files_decode, UnitFile, WireUnitFile};

verus! {

/// The well-known bus name the Manager service owns.
pub const MANAGER_DESTINATION: &'static str = "org.freedesktop.systemd1";

/// The object path the Manager object is exposed at.
pub const MANAGER_PATH: &'static str = "/org/freedesktop/systemd1";

/// The interface the Manager's listing methods belong to.
pub const MANAGER_INTERFACE: &'static str = "org.freedesktop.systemd1.Manager";

/// The blocking client over the Manager object. It starts uninitialized;
/// `init` dials the bus for the client's fixed scope and binds the Manager
/// proxy; every listing or proxy access before that fails with the
/// uninitialized error, never blocking and never panicking.
pub struct SystemCtlBlocking {
    manager_proxy: Option<zbus::blocking::Proxy<'static>>,
    connection_level: ConnectionLevel,
}

impl SystemCtlBlocking {
    /// The proxy the client holds once `init` succeeded.
    pub closed spec fn spec_proxy(&self) -> Option<zbus::blocking::Proxy<'static>> {
        self.manager_proxy
    }

    /// The scope this client dials, fixed at construction.
    pub closed spec fn spec_level(&self) -> ConnectionLevel {
        self.connection_level
    }

    /// Whether `init` has succeeded: listing methods fail until it has.
    pub open spec fn spec_ready(&self) -> bool {
        self.spec_proxy() is Some
    }

    /// The client's invariant: a held proxy sends over the bus that the
    /// client's scope selects.
    pub open spec fn wf(&self) -> bool {
        self.spec_proxy() matches Some(p) ==> bus::proxy_bus(p) == self.spec_level()
    }

    /// A fresh, uninitialized client for the given scope.
    pub fn new(connection_level: ConnectionLevel) -> (r: SystemCtlBlocking)
        ensures
            !r.spec_ready(),
            r.spec_level() == connection_level,
            r.wf(),
    {
        SystemCtlBlocking { manager_proxy: None, connection_level }
    }

    /// Dials the bus that the client's scope selects, blocking until the
    /// handshake completes, and binds a proxy to the Manager object at its
    /// well-known destination, path and interface. A second call simply
    /// replaces the held proxy. On failure the client is left as it was and
    /// the transport error is wrapped, never retried.
    pub fn init(&mut self) -> (r: Result<(), SystemdError>)
        ensures
            final(self).spec_level() == old(self).spec_level(),
            r is Ok ==> final(self).spec_ready() && final(self).wf(),
            r is Err ==> *final(self) == *old(self),
            r matches Err(e) ==> e is DbusError,
    {
        let connection = match self.connection_level.get_connection_blocking() {
            Ok(c) => c,
            Err(e) => {
                return Err(e);
            },
        };
        let proxy = match bus::proxy_new_blocking(
            &connection,
            MANAGER_DESTINATION,
            MANAGER_PATH,
            MANAGER_INTERFACE,
        ) {
            Ok(p) => p,
            Err(e) => {
                return Err(SystemdError::DbusError(e));
            },
        };
        self.manager_proxy = Some(proxy);
        Ok(())
    }

    /// Direct access to the held Manager proxy: the escape hatch to every
    /// remote method this client does not otherwise model, returned untyped.
    /// Fails with the uninitialized error before `init` succeeded.
    pub fn get_manager_proxy(&self) -> (r: Result<&zbus::blocking::Proxy<'static>, SystemdError>)
        ensures
            self.spec_ready() <==> r is Ok,
            r matches Ok(p) ==> self.spec_proxy() == Some(*p),
            r matches Err(e) ==> e is InitialisationError,
    {
        match &self.manager_proxy {
            Some(p) => Ok(p),
            None => Err(SystemdError::InitialisationError),
        }
    }

    /// Invokes the remote "list loaded units" method and decodes every
    /// returned record, preserving the remote reply's order and cardinality.
    /// Before `init` succeeded it fails with the uninitialized error, without
    /// touching the bus; once ready, the only failures are transport errors.
    pub fn list_units(&self) -> (r: Result<Vec<Unit>, SystemdError>)
        ensures
            !self.spec_ready() ==> r is Err,
            r matches Err(e) ==> (e is InitialisationError <==> !self.spec_ready()),
            r matches Ok(units) ==> decoded_units_reply(units@),
    {
        let proxy = match &self.manager_proxy {
            Some(p) => p,
            None => {
                return Err(SystemdError::InitialisationError);
            },
        };
        let raw = match bus::call_list_units(proxy) {
            Ok(v) => v,
            Err(e) => {
                return Err(SystemdError::DbusError(e));
            },
        };
        let units = decode_units(raw);
        proof {
            assert(decoded_units_reply(units@)) by {
                assert(units_decode(raw@, units@));
            }
        }
        Ok(units)
    }

    /// Invokes the remote "list unit files on disk" method and decodes every
    /// returned record, preserving the remote reply's order and cardinality.
    /// Fails exactly as `list_units` does.
    pub fn list_unit_files(&self) -> (r: Result<Vec<UnitFile>, SystemdError>)
        ensures
            !self.spec_ready() ==> r is Err,
            r matches Err(e) ==> (e is InitialisationError <==> !self.spec_ready()),
            r matches Ok(files) ==> decoded_unit_files_reply(files@),
    {
        let proxy = match &self.manager_proxy {
            Some(p) => p,
            None => {
                return Err(SystemdError::InitialisationError);
            },
        };
        let raw = match bus::call_list_unit_files(proxy) {
            Ok(v) => v,
            Err(e) => {
                return Err(SystemdError::DbusError(e));
            },
        };
        let files = decode_unit_files(raw);
        proof {
            assert(decoded_unit_files_reply(files@)) by {
                assert(unit_files_decode(raw@, files@));
            }
        }
        Ok(files)
    }
}

} // verus!
