//! Client-side marshaling of inter-process commands: the layout of a request,
//! control or close message in the fixed command buffer, and the parsing of
//! the response found there after the round trip. Beside it, the rules by
//! which a module is relocated at start-up and the bookkeeping of a display
//! surface.

pub mod dynamic;
pub mod gpu;
pub mod ipc;
