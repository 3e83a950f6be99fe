//! The decision logic of a bridge between a serial device and a
//! publish/subscribe broker: a controller that owns the broker session
//! (connect, subscribe, liveness beacons, bounded reconnection, graceful
//! shutdown) and routes inbound messages to serial writes and sized reads.
//! The runtime performs each action the controller asks for and reports
//! the outcome back as an event.

pub mod count;
pub mod laws;
pub mod session;
