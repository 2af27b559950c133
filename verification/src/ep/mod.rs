//! Execution providers: the hardware that a session may run on.

use crate::error::Error;
use vstd::prelude::*;

mod mps;

pub use mps::MPS;

verus! {

/// Who made the machine.
#[derive(Clone, Copy, Debug, PartialEq, Eq, Structural)]
pub enum Vendor {
    Apple,
    Other,
}

/// The machine's instruction set.
#[derive(Clone, Copy, Debug, PartialEq, Eq, Structural)]
pub enum Arch {
    Aarch64,
    Other,
}

/// The machine that the program was built for.
#[derive(Clone, Copy, Debug, PartialEq, Eq, Structural)]
pub struct Platform {
    pub vendor: Vendor,
    pub arch: Arch,
}

/// Why an execution provider could not be registered.
#[derive(Debug, PartialEq, Eq)]
pub enum RegisterError {
    /// The runtime refused it.
    Error(Error),
    /// The program was built without support for it.
    MissingFeature,
}

} // verus!
