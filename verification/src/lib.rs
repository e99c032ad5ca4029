//! The decision-making core of a binding to a native DSP graph.
//!
//! Nothing in this crate touches the native subsystem. Every operation on a
//! node is split in two: a method of [`dsp::Dsp`] says which native call has to
//! be made ([`native::NativeCall`]), and a function of [`reply`] turns what the
//! native call handed back into the operation's result. Whoever drives the
//! native subsystem performs the call in between.

pub mod descriptor;
pub mod dsp;
pub mod dsp_connection;
pub mod native;
pub mod reply;
pub mod status;
pub mod text;
