use vstd::prelude::*;

use crate::js_context::{GlobalContextRef, JSContext};
use crate::js_exception::{reinjects, JSException, Reinjection};
use crate::js_object::JSObject;
use crate::js_protected_value::{
    protect_op, undo_protect, unprotect_op, GcOp, JSProtectedValue, ProtectedView,
};
use crate::js_value::JSValue;
use crate::protocol::{Failure, InvalidUsage};

verus! {

/// What the engine handed back when asked for a deferred promise: the
/// promise, its resolve and reject functions, and the exception slot; each an
/// address with zero for null.
#[derive(Clone, Copy, Debug, PartialEq, Eq, Structural)]
pub struct DeferredReply {
    pub promise: usize,
    pub resolve: usize,
    pub reject: usize,
    pub exception: usize,
}

/// A pending promise as a mathematical value.
pub struct PromiseView {
    pub promise: JSValue,
    pub resolve: JSObject,
    pub reject: JSObject,
    pub context: GlobalContextRef,
}

/// The call that completes a promise: `function` with `argument` as its one
/// argument, to be made before the protections that completion logs are undone.
#[derive(Debug)]
pub struct Settlement {
    pub function: JSObject,
    pub argument: Reinjection,
}

/// A promise that the host completes later, exactly once: it holds the
/// promise value and its resolve and reject functions, all three protected
/// from the collector until completion.
/// Completion calls into, and unprotects in, the context the promise was made
/// in, so that context must still be alive when the promise is completed.
pub struct JSPromise {
    value: JSProtectedValue,
    resolve: JSObject,
    reject: JSObject,
}

impl View for JSPromise {
    type V = PromiseView;

    closed spec fn view(&self) -> PromiseView {
        PromiseView {
            promise: self.value@.value,
            resolve: self.resolve,
            reject: self.reject,
            context: self.value@.context,
        }
    }
}

/// Whether a deferred-promise reply is usable, and if not, why: a thrown
/// exception first, then a missing resolve or reject function, then a
/// missing promise.
pub open spec fn deferred_outcome(reply: DeferredReply) -> Result<(), Failure> {
    if reply.exception != 0 {
        Err(Failure::Thrown(JSValue { inner: reply.exception }))
    } else if reply.resolve == 0 || reply.reject == 0 {
        Err(Failure::Invalid(InvalidUsage::PromiseCallablesMissing))
    } else if reply.promise == 0 {
        Err(Failure::Invalid(InvalidUsage::PromiseNotCreated))
    } else {
        Ok(())
    }
}

/// The protections that making a promise asks for: its resolve function,
/// its reject function, then the promise itself.
pub open spec fn creation_ops(p: PromiseView) -> Seq<GcOp> {
    seq![
        GcOp::Protect(p.context, p.resolve.to_value_spec()),
        GcOp::Protect(p.context, p.reject.to_value_spec()),
        protect_op(ProtectedView { value: p.promise, context: p.context }),
    ]
}

/// The unprotections that completing a promise asks for, in the same order.
pub open spec fn completion_ops(p: PromiseView) -> Seq<GcOp> {
    seq![
        GcOp::Unprotect(p.context, p.resolve.to_value_spec()),
        GcOp::Unprotect(p.context, p.reject.to_value_spec()),
        unprotect_op(ProtectedView { value: p.promise, context: p.context }),
    ]
}

impl JSPromise {
    /// Makes a promise from the engine's deferred-promise reply, in `context`.
    /// Fails, logging nothing, where the reply is unusable; otherwise logs
    /// the protection of the resolve and reject functions and of the promise.
    pub fn new(context: &JSContext, reply: DeferredReply, log: &mut Vec<GcOp>) -> (r: Result<JSPromise, Failure>)
        ensures
            deferred_outcome(reply) is Ok <==> r is Ok,
            deferred_outcome(reply) matches Err(f) ==> r matches Err(g) && g == f && final(log)@ == old(log)@,
            r matches Ok(p) ==> p@ == (PromiseView {
                promise: JSValue { inner: reply.promise },
                resolve: JSObject { inner: reply.resolve },
                reject: JSObject { inner: reply.reject },
                context: context@.global,
            }) && final(log)@ == old(log)@ + creation_ops(p@),
    {
        if reply.exception != 0 {
            Err(Failure::Thrown(JSValue::from_raw(reply.exception)))
        } else if reply.resolve == 0 || reply.reject == 0 {
            Err(Failure::Invalid(InvalidUsage::PromiseCallablesMissing))
        } else if reply.promise == 0 {
            Err(Failure::Invalid(InvalidUsage::PromiseNotCreated))
        } else {
            let resolve = JSObject::from_raw(reply.resolve);
            let reject = JSObject::from_raw(reply.reject);
            let c = context.inner();
            log.push(GcOp::Protect(c, resolve.to_jsvalue()));
            log.push(GcOp::Protect(c, reject.to_jsvalue()));
            let value = JSProtectedValue::new(context, JSValue::from_raw(reply.promise), log);
            let p = JSPromise { value, resolve, reject };
            proof {
                assert(final(log)@ =~= old(log)@ + creation_ops(p@));
            }
            Ok(p)
        }
    }

    /// The promise value, to expose to scripts; available at any time.
    pub fn value(&self) -> (r: JSValue)
        ensures
            r == self@.promise,
    {
        self.value.value()
    }

    /// The context the promise was made in.
    pub fn context(&self) -> (r: GlobalContextRef)
        ensures
            r == self@.context,
    {
        self.value.context()
    }

    /// Completes the promise, once: consuming it, says which function to call
    /// with what (resolve with the value, or reject with the exception's
    /// value), and logs the unprotection of all three protected handles.
    pub fn done(self, result: Result<JSValue, JSException>, log: &mut Vec<GcOp>) -> (r: Settlement)
        ensures
            match result {
                Ok(v) => r.function == self@.resolve && r.argument == Reinjection::Value(v),
                Err(e) => r.function == self@.reject && reinjects(r.argument, e@),
            },
            final(log)@ == old(log)@ + completion_ops(self@),
    {
        let c = self.value.context();
        let settlement = match result {
            Ok(v) => Settlement { function: self.resolve, argument: Reinjection::Value(v) },
            Err(e) => Settlement { function: self.reject, argument: e.to_jsvalue() },
        };
        log.push(GcOp::Unprotect(c, self.resolve.to_jsvalue()));
        log.push(GcOp::Unprotect(c, self.reject.to_jsvalue()));
        let ghost p = self@;
        self.value.release(log);
        proof {
            assert(final(log)@ =~= old(log)@ + completion_ops(p));
        }
        settlement
    }

    /// Completes the promise with a value.
    pub fn resolve(self, value: JSValue, log: &mut Vec<GcOp>) -> (r: Settlement)
        ensures
            r.function == self@.resolve,
            r.argument == Reinjection::Value(value),
            final(log)@ == old(log)@ + completion_ops(self@),
    {
        self.done(Ok(value), log)
    }

    /// Completes the promise with an exception.
    pub fn reject(self, error: JSException, log: &mut Vec<GcOp>) -> (r: Settlement)
        ensures
            r.function == self@.reject,
            reinjects(r.argument, error@),
            final(log)@ == old(log)@ + completion_ops(self@),
    {
        self.done(Err(error), log)
    }
}

/// Completion undoes each protection of creation exactly once, one for one
/// and in the same context: the resolve and reject functions and the promise
/// itself are each protected once and unprotected once.
pub proof fn lemma_completion_undoes_creation(p: PromiseView)
    ensures
        completion_ops(p).len() == creation_ops(p).len(),
        forall|i: int|
            0 <= i < creation_ops(p).len() ==> #[trigger] completion_ops(p)[i] == undo_protect(
                creation_ops(p)[i],
            ),
{
    assert forall|i: int| 0 <= i < creation_ops(p).len() implies #[trigger] completion_ops(p)[i]
        == undo_protect(creation_ops(p)[i]) by {
        if i == 0 {
        } else if i == 1 {
        } else {
        }
    }
}

} // verus!
