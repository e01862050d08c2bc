//! Bridge between the card-terminal interface (open, exchange, close) and a
//! remote terminal service spoken to over HTTP.
//!
//! Each verb is split in two verified halves around the one request it may
//! make: a step that decides from the registry and the settings whether to
//! answer at once or which POST to send, and a reply function that turns the
//! service's answer into a status and applies it to the registry and the
//! caller's buffers. Sending the request is left to the caller.
pub mod codec;
pub mod ctapi;
pub mod laws;
pub mod registry;
pub mod settings;
pub mod status;
pub mod text;

pub use ctapi::{
    close, close_reply, data, data_reply, deliver_response, init, init_reply, ExchangeReply, Post,
    Step, Transport,
};
pub use registry::SessionRegistry;
pub use settings::{determine_log_level, LogLevel, Settings, SettingsError, SettingsSource};
pub use status::Status;
