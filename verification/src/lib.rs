//! A cooperative task executor for a microcontroller without an operating system.

pub mod ble;
pub mod button;
pub mod channel;
pub mod deadline;
pub mod executor;
pub mod fault;
pub mod future;
pub mod gpiote;
pub mod led;
pub mod scheduler;
pub mod time;
