//! A verified core for an industrial tightening-controller simulator speaking
//! a null-delimited ASCII message protocol.
//!
//! The crate covers the message codec (framing, parsing, serialization),
//! the parameter-field builder, batch and tightening bookkeeping, the device
//! cycle state machine, multi-spindle result generation, the failure-injection
//! decision logic, per-connection session and subscription state, the MID
//! dispatch table, and the auto-tightening scheduler's decision steps.
//! Network, HTTP and persistence plumbing live outside the library and drive
//! it with plain values.

pub mod batch_manager;
pub mod clock;
pub mod codec;
pub mod connection;
pub mod device_fsm;
pub mod events;
pub mod failure_simulator;
pub mod handler;
pub mod multi_spindle;
pub mod protocol;
pub mod pset;
pub mod scheduler;
pub mod session;
pub mod state;
pub mod subscriptions;
pub mod tightening_tracker;
