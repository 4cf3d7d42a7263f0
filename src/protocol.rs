use vstd::prelude::*;
use vstd::string::*;

use crate::js_value::JSValue;

verus! {

/// What a fallible engine operation handed back: its result and its exception
/// slot, each an address with zero for null.
#[derive(Clone, Copy, Debug, PartialEq, Eq, Structural)]
pub struct EngineReply {
    pub result: usize,
    pub exception: usize,
}

/// A misuse that the engine reports by a null result with no exception set.
#[derive(Clone, Copy, Debug, PartialEq, Eq, Structural)]
pub enum InvalidUsage {
    NotAFunction,
    NotAConstructor,
    InvalidJson,
    TypedArrayNotCreated,
    TypedArrayFromBufferNotCreated,
    PromiseCallablesMissing,
    PromiseNotCreated,
}

/// Why an engine operation did not produce its result.
#[derive(Clone, Copy, Debug, PartialEq, Eq, Structural)]
pub enum Failure {
    /// The engine set the exception slot to this thrown value.
    Thrown(JSValue),
    /// The engine returned null without throwing.
    Invalid(InvalidUsage),
}

/// The text that describes a misuse.
pub open spec fn usage_text(u: InvalidUsage) -> Seq<char> {
    match u {
        InvalidUsage::NotAFunction => "Can't call the object: not a valid function"@,
        InvalidUsage::NotAConstructor => "Can't call the object as a constructor: not a valid constructor"@,
        InvalidUsage::InvalidJson => "JSON input is not valid."@,
        InvalidUsage::TypedArrayNotCreated => "Can't create a typed array"@,
        InvalidUsage::TypedArrayFromBufferNotCreated => "Can't create a typed array from the provided buffer"@,
        InvalidUsage::PromiseCallablesMissing => "Missing promise resolve/reject method references"@,
        InvalidUsage::PromiseNotCreated => "Promise could not be created, no explicit error was reported."@,
    }
}

impl InvalidUsage {
    /// The text that describes this misuse.
    pub fn message(&self) -> (r: String)
        ensures
            r@ == usage_text(*self),
    {
        match self {
            InvalidUsage::NotAFunction => String::from_str("Can't call the object: not a valid function"),
            InvalidUsage::NotAConstructor => String::from_str(
                "Can't call the object as a constructor: not a valid constructor",
            ),
            InvalidUsage::InvalidJson => String::from_str("JSON input is not valid."),
            InvalidUsage::TypedArrayNotCreated => String::from_str("Can't create a typed array"),
            InvalidUsage::TypedArrayFromBufferNotCreated => String::from_str(
                "Can't create a typed array from the provided buffer",
            ),
            InvalidUsage::PromiseCallablesMissing => String::from_str(
                "Missing promise resolve/reject method references",
            ),
            InvalidUsage::PromiseNotCreated => String::from_str(
                "Promise could not be created, no explicit error was reported.",
            ),
        }
    }
}

/// The exception slot alone: set means thrown.
pub open spec fn exception_outcome(exception: usize) -> Result<(), Failure> {
    if exception != 0 {
        Err(Failure::Thrown(JSValue { inner: exception }))
    } else {
        Ok(())
    }
}

/// A reply whose result is taken as it stands once nothing was thrown.
pub open spec fn value_outcome(reply: EngineReply) -> Result<usize, Failure> {
    if reply.exception != 0 {
        Err(Failure::Thrown(JSValue { inner: reply.exception }))
    } else {
        Ok(reply.result)
    }
}

/// A reply whose null result, with nothing thrown, is the misuse `usage`.
pub open spec fn checked_outcome(reply: EngineReply, usage: InvalidUsage) -> Result<usize, Failure> {
    if reply.exception != 0 {
        Err(Failure::Thrown(JSValue { inner: reply.exception }))
    } else if reply.result == 0 {
        Err(Failure::Invalid(usage))
    } else {
        Ok(reply.result)
    }
}

/// Reads the exception slot of an operation that has no result.
pub fn check_exception(exception: usize) -> (r: Result<(), Failure>)
    ensures
        r == exception_outcome(exception),
{
    if exception != 0 {
        Err(Failure::Thrown(JSValue::from_raw(exception)))
    } else {
        Ok(())
    }
}

/// Reads a reply whose result stands as it is once nothing was thrown.
pub fn settle_value(reply: EngineReply) -> (r: Result<usize, Failure>)
    ensures
        r == value_outcome(reply),
{
    if reply.exception != 0 {
        Err(Failure::Thrown(JSValue::from_raw(reply.exception)))
    } else {
        Ok(reply.result)
    }
}

/// Reads a reply in which a null result with nothing thrown is the misuse
/// `usage`, kept apart from a thrown exception.
pub fn settle_checked(reply: EngineReply, usage: InvalidUsage) -> (r: Result<usize, Failure>)
    ensures
        r == checked_outcome(reply, usage),
{
    if reply.exception != 0 {
        Err(Failure::Thrown(JSValue::from_raw(reply.exception)))
    } else if reply.result == 0 {
        Err(Failure::Invalid(usage))
    } else {
        Ok(reply.result)
    }
}

} // verus!
