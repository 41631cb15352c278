//! The command buffer and the codecs that fill and read it.

pub mod wire;
pub mod buffer;
pub mod header;
pub mod descriptor;
pub mod params;
pub mod layout;
pub mod message;
pub mod response;
pub mod client;
pub mod laws;
