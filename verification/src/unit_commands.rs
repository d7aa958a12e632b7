use vstd::prelude::*;

use crate::bus;
use crate::connection_level::ConnectionLevel;
use crate::errors::SystemdError;
use crate::systemctl_blocking::{MANAGER_DESTINATION, MANAGER_INTERFACE, MANAGER_PATH};
use crate::unit::{decode_units, decoded_units_reply, units_decode, Unit};

verus! {

/// One-shot blocking listing: dials the bus at the given scope, binds the
/// Manager object, and returns every currently loaded unit, decoded in the
/// remote reply's order. Any transport failure is wrapped, never retried.
pub fn list_units_blocking(level: ConnectionLevel) -> (r: Result<Vec<Unit>, SystemdError>)
    ensures
        r matches Ok(units) ==> decoded_units_reply(units@),
        r matches Err(e) ==> e is DbusError,
{
    let connection = match level.get_connection_blocking() {
        Ok(c) => c,
        Err(e) => {
            return Err(e);
        },
    };
    let proxy = match bus::proxy_new_blocking(
        &connection,
        MANAGER_DESTINATION,
        MANAGER_PATH,
        MANAGER_INTERFACE,
    ) {
        Ok(p) => p,
        Err(e) => {
            return Err(SystemdError::DbusError(e));
        },
    };
    let raw = match bus::call_list_units(&proxy) {
        Ok(v) => v,
        Err(e) => {
            return Err(SystemdError::DbusError(e));
        },
    };
    let units = decode_units(raw);
    proof {
        assert(decoded_units_reply(units@)) by {
            assert(units_decode(raw@, units@));
        }
    }
    Ok(units)
}

} // verus!
