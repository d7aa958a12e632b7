pub mod bus;
pub mod connection_level;
pub mod errors;
pub mod systemctl_blocking;
pub mod unit;
pub mod unit_commands;
pub mod unit_file;

pub use connection_level::ConnectionLevel;
pub use errors::SystemdError;
pub use systemctl_blocking::SystemCtlBlocking;
pub use unit::{Unit, UnitActiveState, UnitLoadState};
pub use unit_file::{EnablementStatus, UnitFile};
