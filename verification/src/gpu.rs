//! What a display surface keeps track of between its calls to the drivers.

pub mod surface;
