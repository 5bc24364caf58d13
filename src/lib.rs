//! Console logic for serial-profile ("transparent UART") Bluetooth Low Energy
//! modules that speak AT commands.
//!
//! - [`scan`]: the per-address discovery lifecycle behind the `scan` command.
//! - [`link`]: resolving the target address, the connection retry rule, and
//!   the check for the serial characteristic.
//! - [`console`]: the interactive session, which sends one command at a time
//!   and shows the device's notifications.
//! - [`frames`]: splitting a command into characteristic-sized writes.
//! - [`addr`]: hardware addresses, read and shown as btleplug does.
//! - [`error`]: the failures that end a run.

pub mod addr;
pub mod console;
pub mod error;
pub mod frames;
pub mod link;
pub mod scan;
