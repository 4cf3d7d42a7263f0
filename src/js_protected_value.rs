use vstd::prelude::*;

use crate::js_context::{GlobalContextRef, JSContext};
use crate::js_value::JSValue;

verus! {

/// A rooting operation that the host must carry out on the engine's collector.
#[derive(Clone, Copy, Debug, PartialEq, Eq, Structural)]
pub enum GcOp {
    Protect(GlobalContextRef, JSValue),
    Unprotect(GlobalContextRef, JSValue),
}

/// A value kept from the collector, with the context it was protected in.
pub struct ProtectedView {
    pub value: JSValue,
    pub context: GlobalContextRef,
}

/// A guard that keeps one value from the collector. It remembers the
/// context it protected the value in, and unprotects it in that same context.
/// That context must still be alive when the guard's unprotection is carried
/// out: unprotecting in a torn-down context is undefined in the engine, so a
/// guard must be released before the context that protected its value.
pub struct JSProtectedValue {
    value: JSValue,
    context: GlobalContextRef,
}

impl View for JSProtectedValue {
    type V = ProtectedView;

    closed spec fn view(&self) -> ProtectedView {
        ProtectedView { value: self.value, context: self.context }
    }
}

impl JSProtectedValue {
    /// Protects `value` in `context`; logs the protection.
    pub fn new(context: &JSContext, value: JSValue, log: &mut Vec<GcOp>) -> (r: JSProtectedValue)
        ensures
            r@ == (ProtectedView { value, context: context@.global }),
            final(log)@ == old(log)@.push(protect_op(r@)),
    {
        let c = context.inner();
        log.push(GcOp::Protect(c, value));
        JSProtectedValue { value, context: c }
    }

    /// The protected value.
    pub fn value(&self) -> (r: JSValue)
        ensures
            r == self@.value,
    {
        self.value
    }

    /// The context the value was protected in.
    pub fn context(&self) -> (r: GlobalContextRef)
        ensures
            r == self@.context,
    {
        self.context
    }

    /// Ends the protection; logs the unprotection in the context that protected it.
    pub fn release(self, log: &mut Vec<GcOp>)
        ensures
            final(log)@ == old(log)@.push(unprotect_op(self@)),
    {
        log.push(GcOp::Unprotect(self.context, self.value));
    }
}

/// The unprotection that matches a protection: same context, same value.
pub open spec fn undo_protect(op: GcOp) -> GcOp {
    match op {
        GcOp::Protect(c, v) => GcOp::Unprotect(c, v),
        GcOp::Unprotect(c, v) => GcOp::Unprotect(c, v),
    }
}

/// The protection that makes a guard.
pub open spec fn protect_op(g: ProtectedView) -> GcOp {
    GcOp::Protect(g.context, g.value)
}

/// The unprotection that releasing a guard asks for.
pub open spec fn unprotect_op(g: ProtectedView) -> GcOp {
    GcOp::Unprotect(g.context, g.value)
}

/// Releasing a guard undoes exactly the protection that made it: same value,
/// and the very context it was protected in, whatever else refers to the value.
pub proof fn lemma_guard_pairs_protection(g: ProtectedView)
    ensures
        unprotect_op(g) == undo_protect(protect_op(g)),
{
}

} // verus!
