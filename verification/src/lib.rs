//! A concurrent TCP connect-scan engine.
//!
//! The library holds the verified core of a port scanner: the data model
//! (ports, targets, socket addresses), the logic that plans one probe per
//! (address, port) pair, the classification of probe outcomes, and the
//! assembly of annotated results. The actual socket work and the task
//! runtime live outside the library and feed their outcomes back in as
//! plain values.

pub mod common_ports;
pub mod port;
