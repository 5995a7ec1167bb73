//! Timer and counter drivers for the nRF51's TIMER and RTC peripherals.
//!
//! The peripherals are held as plain-value register blocks (`TimerPeripheral`,
//! `RtcPeripheral`) whose contracts follow the hardware's documented response
//! to tasks and clock ticks. On top of them sit the register-level wrappers
//! (`HiResTimer`, `LoResTimer`), the countdown state machines and the blocking
//! delay adapters.
#![allow(non_camel_case_types)]

mod narrow;
pub mod time;
pub mod error;
pub mod width;
pub mod peripheral;
pub mod hi_res_timer;
pub mod lo_res_timer;
pub mod timer;
pub mod delay;
