//! Bindings: inputs and outputs that stay attached to a session between runs.

use crate::pointer::{AsPointer, Pointer};
use crate::value::Value;
use vstd::prelude::*;

verus! {

/// A binding object of the runtime, and the outputs that are bound in it.
#[derive(Debug)]
pub struct IoBinding {
    pub ptr: Pointer,
    /// The bound outputs by name, each with the value that it is bound to, if any.
    pub output_values: Vec<(String, Option<Value>)>,
}

impl IoBinding {
    /// The names of the bound outputs, in order.
    pub open spec fn output_names(&self) -> Seq<Seq<char>> {
        self.output_values@.map_values(|entry: (String, Option<Value>)| entry.0@)
    }
}

impl AsPointer for IoBinding {
    open spec fn address(&self) -> usize {
        self.ptr@
    }

    fn ptr(&self) -> usize {
        self.ptr.addr()
    }
}

} // verus!
