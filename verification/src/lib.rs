//! Typed control of heterogeneous smart devices behind a single protocol.
//!
//! A server process owns a [`registry::Registry`] holding the authoritative
//! state of every device (lamps, sinks, doors, fridges). Clients discover
//! devices by kind and operate on them through typed requests; every
//! operation is resolved against the registry with kind checking and answers
//! with either a value or a protocol error.
//!
//! The modules mirror the layers of the system:
//! - [`device`]: the closed set of device kinds and their state,
//! - [`service`]: the protocol contract: requests, replies, errors, hazards,
//! - [`registry`]: the authoritative store and its kind-checked operations,
//! - [`dispatch`]: the engine turning one request into one registry operation,
//! - [`session`]: the bound on concurrently served connections,
//! - [`client`]: the client-side typed handles and their lookup logic.
//!
//! Transport, serialization and scheduling are callers' concerns: this crate
//! states and proves what the protocol promises about state and answers.

pub mod client;
pub mod device;
pub mod dispatch;
pub mod registry;
pub mod service;
pub mod session;

pub use client::Door;
pub use client::Error;
pub use client::Fridge;
pub use client::Lamp;
pub use client::Sink;
pub use device::DoorLockStatus;
pub use service::Hazard;
