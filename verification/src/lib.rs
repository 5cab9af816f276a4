//! Tempo tracking for a USB-MIDI interface: a clock-pulse period estimator over
//! monotonic timestamps, the USB-MIDI event-packet codec, and the decisions of
//! the interrupt-driven intake loop that feeds the estimator and relays bytes.

pub mod dispatch;
pub mod indicator;
pub mod intake;
pub mod packet;
pub mod serial;
pub mod shared;
pub mod sync;
pub mod time;
