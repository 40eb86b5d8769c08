//! Core of a small real-time rendering host.
//!
//! The crate holds the rules of the host and none of its side effects: how
//! shader programs are assembled, how geometry is laid out, which GPU
//! commands a frame consists of and in which order resources are released,
//! how input events change the key table and when the loop ends. Everything
//! that touches a window or a graphics context is left to the caller, who
//! carries out the commands computed here.

pub mod application;
pub mod assets;
pub mod buffer;
pub mod commands;
pub mod diagnostics;
pub mod error;
pub mod frame;
pub mod input;
pub mod layout;
pub mod params;
pub mod program;
pub mod registry;
pub mod shader;
pub mod simple_text;
pub mod text;
