use vstd::prelude::*;

use crate::js_object::{as_object, JSObject};
use crate::protocol::{settle_value, value_outcome, EngineReply, Failure, InvalidUsage};

verus! {

/// A JavaScript value: the address of an engine value, zero for null. The
/// engine's collector owns it; see `JSProtectedValue` for keeping it alive.
#[derive(Clone, Copy, Debug, PartialEq, Eq, Structural)]
pub struct JSValue {
    pub inner: usize,
}

impl JSValue {
    /// Wraps the address of an engine value.
    pub fn from_raw(inner: usize) -> (r: JSValue)
        ensures
            r.inner == inner,
    {
        JSValue { inner }
    }

    /// The address of this value, for passing to the engine.
    pub fn raw(&self) -> (r: usize)
        ensures
            r == self.inner,
    {
        self.inner
    }

    /// Whether this handle is the null address (no value at all).
    pub fn is_null_ref(&self) -> (r: bool)
        ensures
            r == (self.inner == 0),
    {
        self.inner == 0
    }

    /// Settles the engine's reply to decoding JSON text: the engine reports
    /// text that is not JSON by a null result alone.
    pub fn from_json(result: usize) -> (r: Result<JSValue, Failure>)
        ensures
            result == 0 ==> r == Err::<JSValue, Failure>(Failure::Invalid(InvalidUsage::InvalidJson)),
            result != 0 ==> r == Ok::<JSValue, Failure>(JSValue { inner: result }),
    {
        if result == 0 {
            Err(Failure::Invalid(InvalidUsage::InvalidJson))
        } else {
            Ok(JSValue::from_raw(result))
        }
    }

    /// Settles the engine's reply to turning this value into an object.
    pub fn to_object(&self, reply: EngineReply) -> (r: Result<JSObject, Failure>)
        ensures
            r == as_object(value_outcome(reply)),
    {
        match settle_value(reply) {
            Ok(a) => Ok(JSObject::from_raw(a)),
            Err(f) => Err(f),
        }
    }
}

} // verus!
