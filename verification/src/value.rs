//! Values that go into a model and come out of it.

use crate::pointer::{AsPointer, Pointer};
use crate::session::SharedSessionInner;
use crate::shared::share;
use std::sync::Arc;
use vstd::prelude::*;

verus! {

/// An object of the runtime that holds a tensor, a map or a sequence.
#[derive(Debug)]
pub struct ValueInner {
    pub ptr: Pointer,
    /// The session that the object came out of, which must live as long as it does.
    pub session: Option<Arc<SharedSessionInner>>,
}

/// A value. Several of them may share one object of the runtime.
#[derive(Debug)]
pub struct Value {
    pub inner: Arc<ValueInner>,
}

/// What there is to know of a value here: where its object is, and which session it
/// keeps alive.
pub struct ValueView {
    pub address: usize,
    pub session: Option<Arc<SharedSessionInner>>,
}

impl View for Value {
    type V = ValueView;

    open spec fn view(&self) -> ValueView {
        ValueView { address: self.inner.ptr@, session: self.inner.session }
    }
}

impl Value {
    /// The value whose object is at `ptr`, and which keeps `session` alive.
    pub fn from_ptr(ptr: Pointer, session: Option<Arc<SharedSessionInner>>) -> (value: Value)
        ensures
            value@ == (ValueView { address: ptr@, session }),
    {
        Value { inner: Arc::new(ValueInner { ptr, session }) }
    }

    /// Another value that shares the object of `value`.
    pub fn clone_of(value: &Value) -> (other: Value)
        ensures
            other == *value,
    {
        Value { inner: share(&value.inner) }
    }
}

impl AsPointer for Value {
    open spec fn address(&self) -> usize {
        self.inner.ptr@
    }

    fn ptr(&self) -> usize {
        let addr = self.inner.ptr.addr();
        assert(self.address() == addr);
        addr
    }
}

/// A value is known by the address in its own object and by the session that its object
/// keeps alive, and it is handed to the runtime by that address.
pub proof fn law_value_is_its_object(value: Value)
    ensures
        value@.address == value.inner.ptr@,
        value@.session == value.inner.session,
        value.address() == value.inner.ptr@,
{
}

/// A value that is made around an object is at its address and keeps the session that it is
/// made with; another value of the same object does too; and either is handed over by that
/// address.
pub proof fn law_values_of_one_object(
    ptr: Pointer,
    session: Option<Arc<SharedSessionInner>>,
    value: Value,
    other: Value,
    addr: usize,
)
    requires
        call_ensures(Value::from_ptr, (ptr, session), value),
        call_ensures(Value::clone_of, (&value,), other),
        call_ensures(<Value as AsPointer>::ptr, (&other,), addr),
    ensures
        value.inner.ptr@ == ptr@,
        value.inner.session == session,
        other.inner.ptr@ == ptr@,
        other.inner.session == session,
        addr == ptr@,
        addr != 0,
{
    law_value_is_its_object(value);
}

} // verus!
