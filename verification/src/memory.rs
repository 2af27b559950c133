//! Memory that the runtime hands out.

use crate::pointer::{AsPointer, Pointer};
use vstd::prelude::*;

verus! {

/// An allocator of the runtime.
#[derive(Clone, Copy, Debug, PartialEq, Eq)]
pub struct Allocator {
    pub ptr: Pointer,
}

impl AsPointer for Allocator {
    open spec fn address(&self) -> usize {
        self.ptr@
    }

    fn ptr(&self) -> usize {
        self.ptr.addr()
    }
}

} // verus!
