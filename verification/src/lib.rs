//! Request-building and protocol logic for the ElevenLabs API.
pub mod audio;
pub mod bytes;
pub mod endpoints;
pub mod error;
pub mod identifiers;
pub mod json;
pub mod shared;
pub mod text;
pub mod url;
pub mod utils;
pub mod ws;
