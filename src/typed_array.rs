use vstd::prelude::*;

use bytes::Bytes;

use crate::js_object::{as_object, as_value, disposal_of, BufferDisposal, JSObject};
use crate::js_value::JSValue;
use crate::protocol::{
    checked_outcome, settle_checked, settle_value, value_outcome, EngineReply, Failure,
    InvalidUsage,
};

verus! {

/// bytes::Bytes, held opaque: the buffer that the host hands to the engine.
#[verifier::external_type_specification]
#[verifier::external_body]
pub struct ExBytes(Bytes);

/// The bytes that a buffer holds.
pub uninterp spec fn byte_contents(b: Bytes) -> Seq<u8>;

/// Relies on bytes::Bytes::len: the number of bytes in the buffer.
pub assume_specification[ Bytes::len ](b: &Bytes) -> (r: usize)
    ensures
        r == byte_contents(*b).len(),
;

/// A property read on the way to freezing a new typed array.
#[derive(Clone, Copy, Debug, PartialEq, Eq, Structural)]
pub enum FreezeProperty {
    /// `Object`, read on the global object.
    ObjectConstructor,
    /// `freeze`, read on `Object`.
    Freeze,
}

/// The next thing the host must do while making a typed array over a host
/// buffer, and hand back the engine's reply to.
#[derive(Debug, PartialEq, Eq)]
pub enum CreationStep {
    /// Make a byte array over the buffer, `len` bytes, handed over without a
    /// copy together with a deallocator for it.
    MakeArray { len: usize },
    /// Read a property of the global object.
    ReadGlobalProperty { name: FreezeProperty },
    /// Read a property of `target`.
    ReadProperty { target: JSObject, name: FreezeProperty },
    /// Turn `value` into an object.
    ToObject { value: JSValue },
    /// Call `function` with `argument` as its one argument and no `this`.
    Call { function: JSObject, argument: JSValue },
    /// Done: the array or the error, and who gives back the buffer.
    Finished { result: Result<JSObject, Failure>, disposal: BufferDisposal },
}

/// How far the making of a typed array has come. Past the first stage the
/// array exists and is carried along until it is frozen.
#[derive(Clone, Copy, Debug, PartialEq, Eq, Structural)]
pub enum CreationStage {
    MakingArray,
    ReadingObject(JSObject),
    ConvertingObject(JSObject),
    ReadingFreeze(JSObject),
    ConvertingFreeze(JSObject),
    Freezing(JSObject),
    Finished,
}

/// The making of a byte array over a host buffer, handed to the engine
/// without a copy, and then frozen so that scripts cannot change it under
/// the host's views of the same bytes.
pub struct TypedArrayCreation {
    stage: CreationStage,
    len: usize,
}

/// A creation as a mathematical value.
pub struct CreationView {
    pub stage: CreationStage,
    pub len: usize,
}

impl View for TypedArrayCreation {
    type V = CreationView;

    closed spec fn view(&self) -> CreationView {
        CreationView { stage: self.stage, len: self.len }
    }
}

/// A failure once the array exists: the engine owns the buffer.
pub open spec fn failed_after_array(f: Failure) -> (CreationStage, CreationStep) {
    (
        CreationStage::Finished,
        CreationStep::Finished { result: Err(f), disposal: BufferDisposal::Engine },
    )
}

/// The next stage and step, given the engine's reply to the step of `stage`.
/// Every step fails on a thrown exception.
pub open spec fn next_stage(stage: CreationStage, reply: EngineReply) -> (CreationStage, CreationStep) {
    match stage {
        CreationStage::MakingArray => match as_object(
            checked_outcome(reply, InvalidUsage::TypedArrayNotCreated),
        ) {
            Ok(a) => (
                CreationStage::ReadingObject(a),
                CreationStep::ReadGlobalProperty { name: FreezeProperty::ObjectConstructor },
            ),
            Err(f) => (
                CreationStage::Finished,
                CreationStep::Finished { result: Err(f), disposal: disposal_of(reply) },
            ),
        },
        CreationStage::ReadingObject(a) => match as_value(value_outcome(reply)) {
            Ok(v) => (CreationStage::ConvertingObject(a), CreationStep::ToObject { value: v }),
            Err(f) => failed_after_array(f),
        },
        CreationStage::ConvertingObject(a) => match as_object(value_outcome(reply)) {
            Ok(o) => (
                CreationStage::ReadingFreeze(a),
                CreationStep::ReadProperty { target: o, name: FreezeProperty::Freeze },
            ),
            Err(f) => failed_after_array(f),
        },
        CreationStage::ReadingFreeze(a) => match as_value(value_outcome(reply)) {
            Ok(v) => (CreationStage::ConvertingFreeze(a), CreationStep::ToObject { value: v }),
            Err(f) => failed_after_array(f),
        },
        CreationStage::ConvertingFreeze(a) => match as_object(value_outcome(reply)) {
            Ok(f) => (
                CreationStage::Freezing(a),
                CreationStep::Call { function: f, argument: a.to_value_spec() },
            ),
            Err(f) => failed_after_array(f),
        },
        CreationStage::Freezing(a) => match checked_outcome(reply, InvalidUsage::NotAFunction) {
            Ok(_) => (
                CreationStage::Finished,
                CreationStep::Finished { result: Ok(a), disposal: BufferDisposal::Engine },
            ),
            Err(f) => failed_after_array(f),
        },
        CreationStage::Finished => (CreationStage::Finished, CreationStep::Finished {
            result: Err(Failure::Invalid(InvalidUsage::TypedArrayNotCreated)),
            disposal: BufferDisposal::Engine,
        }),
    }
}

impl FreezeProperty {
    /// The property's name.
    pub fn name(&self) -> (r: &'static str)
        ensures
            *self == FreezeProperty::ObjectConstructor ==> r@ == "Object"@,
            *self == FreezeProperty::Freeze ==> r@ == "freeze"@,
    {
        match self {
            FreezeProperty::ObjectConstructor => "Object",
            FreezeProperty::Freeze => "freeze",
        }
    }
}

impl TypedArrayCreation {
    /// Starts making a typed array over `bytes`; the first step makes the
    /// array, over exactly as many bytes as the buffer holds.
    pub fn start(bytes: &Bytes) -> (r: (TypedArrayCreation, CreationStep))
        ensures
            r.0@.stage == CreationStage::MakingArray,
            r.0@.len == byte_contents(*bytes).len(),
            r.1 == (CreationStep::MakeArray { len: r.0@.len }),
    {
        let len = bytes.len();
        (TypedArrayCreation { stage: CreationStage::MakingArray, len }, CreationStep::MakeArray { len })
    }

    /// The length of the buffer, in bytes.
    pub fn len(&self) -> (r: usize)
        ensures
            r == self@.len,
    {
        self.len
    }

    /// Whether the creation is over.
    pub fn is_finished(&self) -> (r: bool)
        ensures
            r == (self@.stage == CreationStage::Finished),
    {
        self.stage == CreationStage::Finished
    }

    /// Takes the engine's reply to the last step and gives the next one.
    pub fn advance(&mut self, reply: EngineReply) -> (step: CreationStep)
        requires
            old(self)@.stage != CreationStage::Finished,
        ensures
            (final(self)@.stage, step) == next_stage(old(self)@.stage, reply),
            final(self)@.len == old(self)@.len,
    {
        match self.stage {
            CreationStage::MakingArray => {
                let (made, disposal) = JSObject::create_typed_array_with_bytes(reply);
                match made {
                    Ok(a) => {
                        self.stage = CreationStage::ReadingObject(a);
                        CreationStep::ReadGlobalProperty { name: FreezeProperty::ObjectConstructor }
                    },
                    Err(f) => {
                        self.stage = CreationStage::Finished;
                        CreationStep::Finished { result: Err(f), disposal }
                    },
                }
            },
            CreationStage::ReadingObject(a) => match JSObject::get_property(reply) {
                Ok(v) => {
                    self.stage = CreationStage::ConvertingObject(a);
                    CreationStep::ToObject { value: v }
                },
                Err(f) => {
                    self.stage = CreationStage::Finished;
                    CreationStep::Finished { result: Err(f), disposal: BufferDisposal::Engine }
                },
            },
            CreationStage::ConvertingObject(a) => match settle_value(reply) {
                Ok(o) => {
                    self.stage = CreationStage::ReadingFreeze(a);
                    CreationStep::ReadProperty { target: JSObject::from_raw(o), name: FreezeProperty::Freeze }
                },
                Err(f) => {
                    self.stage = CreationStage::Finished;
                    CreationStep::Finished { result: Err(f), disposal: BufferDisposal::Engine }
                },
            },
            CreationStage::ReadingFreeze(a) => match JSObject::get_property(reply) {
                Ok(v) => {
                    self.stage = CreationStage::ConvertingFreeze(a);
                    CreationStep::ToObject { value: v }
                },
                Err(f) => {
                    self.stage = CreationStage::Finished;
                    CreationStep::Finished { result: Err(f), disposal: BufferDisposal::Engine }
                },
            },
            CreationStage::ConvertingFreeze(a) => match settle_value(reply) {
                Ok(f) => {
                    self.stage = CreationStage::Freezing(a);
                    CreationStep::Call { function: JSObject::from_raw(f), argument: a.to_jsvalue() }
                },
                Err(f) => {
                    self.stage = CreationStage::Finished;
                    CreationStep::Finished { result: Err(f), disposal: BufferDisposal::Engine }
                },
            },
            CreationStage::Freezing(a) => match settle_checked(reply, InvalidUsage::NotAFunction) {
                Ok(_) => {
                    self.stage = CreationStage::Finished;
                    CreationStep::Finished { result: Ok(a), disposal: BufferDisposal::Engine }
                },
                Err(f) => {
                    self.stage = CreationStage::Finished;
                    CreationStep::Finished { result: Err(f), disposal: BufferDisposal::Engine }
                },
            },
            CreationStage::Finished => {
                CreationStep::Finished {
                    result: Err(Failure::Invalid(InvalidUsage::TypedArrayNotCreated)),
                    disposal: BufferDisposal::Engine,
                }
            },
        }
    }
}

/// The buffer is given back exactly once, by exactly one party: a creation
/// ends exactly when it reports who disposes of the buffer. It leaves that to
/// the host exactly where making the array failed (the engine threw or
/// returned null), since the engine never deallocates for an array it never
/// made. Once the array exists, the engine's deallocator, run when the
/// collector reclaims the array, does it, whether or not freezing succeeds.
pub proof fn lemma_buffer_given_back_once(stage: CreationStage, reply: EngineReply)
    requires
        stage != CreationStage::Finished,
    ensures
        (next_stage(stage, reply).1 is Finished) <==> next_stage(stage, reply).0 == CreationStage::Finished,
        next_stage(stage, reply).1 matches CreationStep::Finished { disposal: BufferDisposal::Host, .. }
            <==> (stage == CreationStage::MakingArray && (reply.exception != 0 || reply.result == 0)),
        next_stage(stage, reply).1 matches CreationStep::Finished { disposal: BufferDisposal::Host, result }
            ==> result is Err,
        next_stage(stage, reply).1 matches CreationStep::Finished { result: Ok(_), .. }
            ==> next_stage(stage, reply).1 matches CreationStep::Finished { disposal: BufferDisposal::Engine, .. },
{
}

} // verus!
