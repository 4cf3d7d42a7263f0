use vstd::prelude::*;

use crate::js_value::JSValue;
use crate::protocol::{
    check_exception, checked_outcome, exception_outcome, settle_checked, settle_value,
    value_outcome, EngineReply, Failure, InvalidUsage,
};

verus! {

/// A JavaScript object: the address of an engine object, zero for null.
#[derive(Clone, Copy, Debug, PartialEq, Eq, Structural)]
pub struct JSObject {
    pub inner: usize,
}

/// Who gives back a host buffer that was handed to the engine for a typed array.
#[derive(Clone, Copy, Debug, PartialEq, Eq, Structural)]
pub enum BufferDisposal {
    /// The array exists: the engine calls the deallocator, once, when its
    /// collector reclaims the array.
    Engine,
    /// No array was made (the engine threw, or returned null): the engine
    /// never calls the deallocator for an object it never made, so the host
    /// must call it itself, once.
    Host,
}

/// A settled result read as an object.
pub open spec fn as_object(r: Result<usize, Failure>) -> Result<JSObject, Failure> {
    match r {
        Ok(a) => Ok(JSObject { inner: a }),
        Err(f) => Err(f),
    }
}

/// A settled result read as a value.
pub open spec fn as_value(r: Result<usize, Failure>) -> Result<JSValue, Failure> {
    match r {
        Ok(a) => Ok(JSValue { inner: a }),
        Err(f) => Err(f),
    }
}

/// Who disposes of a transferred buffer, given the engine's reply to making
/// the array: the host whenever no array was made.
pub open spec fn disposal_of(reply: EngineReply) -> BufferDisposal {
    if reply.exception != 0 || reply.result == 0 {
        BufferDisposal::Host
    } else {
        BufferDisposal::Engine
    }
}

fn into_object(r: Result<usize, Failure>) -> (o: Result<JSObject, Failure>)
    ensures
        o == as_object(r),
{
    match r {
        Ok(a) => Ok(JSObject::from_raw(a)),
        Err(f) => Err(f),
    }
}

fn into_value(r: Result<usize, Failure>) -> (o: Result<JSValue, Failure>)
    ensures
        o == as_value(r),
{
    match r {
        Ok(a) => Ok(JSValue::from_raw(a)),
        Err(f) => Err(f),
    }
}

impl JSObject {
    /// Wraps the address of an engine object.
    pub fn from_raw(inner: usize) -> (r: JSObject)
        ensures
            r.inner == inner,
    {
        JSObject { inner }
    }

    /// The address of this object, for passing to the engine.
    pub fn raw(&self) -> (r: usize)
        ensures
            r == self.inner,
    {
        self.inner
    }

    /// This object seen as a value.
    pub open spec fn to_value_spec(&self) -> JSValue {
        JSValue { inner: self.inner }
    }

    /// This object seen as a value: the same handle.
    pub fn to_jsvalue(&self) -> (r: JSValue)
        ensures
            r == self.to_value_spec(),
    {
        JSValue::from_raw(self.inner)
    }

    /// Settles the engine's reply to making an array from host values.
    pub fn new_array(reply: EngineReply) -> (r: Result<JSObject, Failure>)
        ensures
            r == as_object(value_outcome(reply)),
    {
        into_object(settle_value(reply))
    }

    /// Settles the engine's reply to calling this object as a constructor: a
    /// null result with nothing thrown means it is no constructor.
    pub fn construct(&self, reply: EngineReply) -> (r: Result<JSObject, Failure>)
        ensures
            r == as_object(checked_outcome(reply, InvalidUsage::NotAConstructor)),
    {
        into_object(settle_checked(reply, InvalidUsage::NotAConstructor))
    }

    /// Settles the engine's reply to calling this object as a function: a null
    /// result with nothing thrown means it is not callable.
    pub fn call(&self, reply: EngineReply) -> (r: Result<JSValue, Failure>)
        ensures
            r == as_value(checked_outcome(reply, InvalidUsage::NotAFunction)),
    {
        into_value(settle_checked(reply, InvalidUsage::NotAFunction))
    }

    /// Settles the engine's reply to making a byte array over a host buffer
    /// handed over without a copy, and says who must give the buffer back.
    pub fn create_typed_array_with_bytes(reply: EngineReply) -> (r: (
        Result<JSObject, Failure>,
        BufferDisposal,
    ))
        ensures
            r.0 == as_object(checked_outcome(reply, InvalidUsage::TypedArrayNotCreated)),
            r.1 == disposal_of(reply),
            r.1 == BufferDisposal::Host <==> r.0 is Err,
    {
        let disposal = if reply.exception != 0 || reply.result == 0 {
            BufferDisposal::Host
        } else {
            BufferDisposal::Engine
        };
        (into_object(settle_checked(reply, InvalidUsage::TypedArrayNotCreated)), disposal)
    }

    /// Settles the engine's reply to making a byte array over an existing
    /// array buffer.
    pub fn create_typed_array_from_buffer(reply: EngineReply) -> (r: Result<JSObject, Failure>)
        ensures
            r == as_object(checked_outcome(reply, InvalidUsage::TypedArrayFromBufferNotCreated)),
    {
        into_object(settle_checked(reply, InvalidUsage::TypedArrayFromBufferNotCreated))
    }

    /// Settles the engine's reply to reading a named property.
    pub fn get_property(reply: EngineReply) -> (r: Result<JSValue, Failure>)
        ensures
            r == as_value(value_outcome(reply)),
    {
        into_value(settle_value(reply))
    }

    /// Settles the engine's reply to reading the element at an index.
    pub fn get_property_at_index(reply: EngineReply) -> (r: Result<JSValue, Failure>)
        ensures
            r == as_value(value_outcome(reply)),
    {
        into_value(settle_value(reply))
    }

    /// Settles the engine's reply to writing a named property.
    pub fn set_property(exception: usize) -> (r: Result<(), Failure>)
        ensures
            r == exception_outcome(exception),
    {
        check_exception(exception)
    }

    /// Settles the engine's reply to writing the element at an index.
    pub fn set_property_at_index(exception: usize) -> (r: Result<(), Failure>)
        ensures
            r == exception_outcome(exception),
    {
        check_exception(exception)
    }
}

/// Calling something that is not a function never passes for success, and
/// stays apart from a thrown exception: with the exception slot unset and a
/// null result, the error is the not-callable misuse.
pub proof fn lemma_not_callable_is_distinct(reply: EngineReply)
    requires
        reply.exception == 0,
        reply.result == 0,
    ensures
        as_value(checked_outcome(reply, InvalidUsage::NotAFunction)) == Err::<JSValue, Failure>(
            Failure::Invalid(InvalidUsage::NotAFunction),
        ),
        !(as_value(checked_outcome(reply, InvalidUsage::NotAFunction)) matches Err(
            Failure::Thrown(_),
        )),
{
}

} // verus!
