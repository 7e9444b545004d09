//! Core logic of a hardware bridge.
//!
//! The bridge ingests line-oriented text from a set of serial (UART) devices
//! and drives a relay/GPIO line through a privileged helper process. This
//! crate holds the decision logic of both paths, verified: how raw reads
//! become events, how a supervisor tracks its workers, and how a relay
//! request is turned into a command plan and its outcome into a result.
//! The surrounding I/O (opening ports, spawning threads and processes,
//! delivering events) lives outside the library and drives it.

pub mod relay;
pub mod text;
pub mod uart;
