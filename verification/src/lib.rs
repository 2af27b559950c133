//! Inference sessions of ONNX Runtime.
//!
//! A [`session::Session`] turns the values that a caller hands it into the exact
//! argument list of a runtime call, and turns what the runtime wrote back into named
//! outputs. The runtime itself is a C library: every call into it is made by the
//! caller, through a function handed in, and everything on either side of that call
//! is decided here.

pub mod ep;
pub mod error;
pub mod io_binding;
pub mod memory;
pub mod pointer;
pub mod session;
mod shared;
pub mod text;
pub mod value;
