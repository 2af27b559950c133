//! Addresses of objects that the runtime owns.

use vstd::prelude::*;

verus! {

/// The address of an object that the runtime owns. It is never null.
#[derive(Clone, Copy, Debug, PartialEq, Eq)]
pub struct Pointer {
    addr: usize,
}

impl View for Pointer {
    type V = usize;

    closed spec fn view(&self) -> usize {
        self.addr
    }
}

impl Pointer {
    #[verifier::type_invariant]
    spec fn not_null(self) -> bool {
        self.addr != 0
    }

    /// The pointer with address `addr`, or `None` for the null address.
    pub fn new(addr: usize) -> (pointer: Option<Pointer>)
        ensures
            match pointer {
                Some(p) => addr != 0 && p@ == addr,
                None => addr == 0,
            },
    {
        if addr == 0 {
            None
        } else {
            Some(Pointer { addr })
        }
    }

    /// The address, which is not null.
    pub fn addr(&self) -> (addr: usize)
        ensures
            addr == self@,
            addr != 0,
    {
        proof {
            use_type_invariant(self);
        }
        self.addr
    }
}

/// Something that stands for an object of the runtime, and knows where it is.
pub trait AsPointer {
    /// The address of the object.
    spec fn address(&self) -> usize;

    /// The address to hand to the runtime. It is never null.
    fn ptr(&self) -> (addr: usize)
        ensures
            addr == self.address(),
            addr != 0,
    ;
}

/// There is a pointer for every address but null, and it gives that address back.
pub proof fn law_pointer_gives_its_address_back(
    addr: usize,
    made: Option<Pointer>,
    pointer: &Pointer,
    read: usize,
)
    requires
        call_ensures(Pointer::new, (addr,), made),
        call_ensures(Pointer::addr, (pointer,), read),
    ensures
        call_requires(Pointer::new, (addr,)),
        call_requires(Pointer::addr, (pointer,)),
        made is Some <==> addr != 0,
        made == Some(*pointer) ==> read == addr,
        read != 0,
{
}

} // verus!
