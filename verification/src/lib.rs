//! Verified core of the Constellation engine: the integer bookkeeping of its
//! painter, renderer and user interface, kept apart from the GPU and window
//! plumbing that drives it.

pub mod utils;
pub mod painter;
pub mod ui_frame;
pub mod text;
pub mod render;
pub mod shape;
pub mod bloom;
pub mod state;
pub mod star;
pub mod native;
pub mod camera;
pub mod input;
