//! A client for Discord's incoming webhooks: it assembles embed messages,
//! encodes them as JSON and describes the HTTP requests that send them.

/// Embed records and their JSON encoding
pub mod api;
/// JSON text primitives shared by the encoders
pub mod json;
/// The error of an API call
pub mod error;
/// The webhook client
pub mod webhook_client;
