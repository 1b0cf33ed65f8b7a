//! A verified client for the iRacing broadcast-message protocol.
//!
//! The simulator accepts one-way commands (camera, replay, pit, chat,
//! telemetry, capture) posted to a message endpoint that it registers under
//! a well-known name. This crate covers that protocol end to end: typed
//! command values with construction-time validation, the fixed-width wire
//! encoding of each command family, and a client that resolves the endpoint
//! once and then delivers encoded messages, reporting delivery failure
//! distinctly from invalid payloads.
//!
//! The host system's message facility is modelled by
//! [`transport::MessageBus`], an explicit value the client operates on; a
//! platform layer mirrors its operations onto the real one-way posting
//! primitive of the simulator's host system.

pub mod car_number;
pub mod client;
pub mod command;
pub mod errors;
pub mod modes;
pub mod transport;
pub mod wire;

pub use car_number::encode_car_number;
pub use client::BroadcastClient;
pub use command::Command;
pub use errors::BroadcastError;
pub use modes::ChatCommandMode;
pub use modes::PitCommandMode;
pub use modes::ReplayPositionMode;
pub use modes::ReplaySearchMode;
pub use modes::TelemetryCommandMode;
pub use modes::VideoCaptureMode;
pub use transport::MessageBus;
pub use wire::EncodedMessage;
