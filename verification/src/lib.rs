//! Control logic for a charge-port (CP) ECU gateway: the CAN frames that the
//! controller sends on each schedule, the state machines driven by frames that
//! come back from the charge port, and the decisions behind the serial console.
//!
//! Everything here is plain computation on values; the hardware (CAN
//! transmission, serial output, the real-time clock) is driven by the caller.
pub mod types;
pub mod utils;
pub mod process_cp;
pub mod process_door;
pub mod process_init;
pub mod process_version;
pub mod can_receive_logic;
pub mod fifty_ms_loop;
pub mod hundred_ms_loop;
pub mod five_hundred_ms_loop;
pub mod thousand_ms_loop;
pub mod two_fifty_ms_loop;
pub mod ten_ms_loop;
pub mod process_serial;
pub mod serial_console;
pub mod laws;
