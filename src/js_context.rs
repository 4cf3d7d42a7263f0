use vstd::prelude::*;

use crate::helpers::{new_ops, IsRawPtr, RefOp, RetainReleaseWrapper};
use crate::js_object::as_value;
use crate::js_value::JSValue;
use crate::protocol::{settle_value, value_outcome, EngineReply, Failure};

verus! {

/// The address of an engine heap group (a context group).
#[derive(Clone, Copy, Debug, PartialEq, Eq, Structural)]
pub struct ContextGroupRef(pub usize);

/// The address of an engine execution context (a global context).
#[derive(Clone, Copy, Debug, PartialEq, Eq, Structural)]
pub struct GlobalContextRef(pub usize);

impl IsRawPtr for ContextGroupRef {

}

impl IsRawPtr for GlobalContextRef {

}

/// A reference-count operation on one of a context's two handles.
#[derive(Debug, PartialEq, Eq)]
pub enum ContextOp {
    Group(RefOp<ContextGroupRef>),
    Global(RefOp<GlobalContextRef>),
}

/// How a context came to be, which decides what it owns.
#[derive(Clone, Copy, Debug, PartialEq, Eq, Structural)]
pub enum ContextOwnership {
    /// Made fresh with a heap group of its own; owns both handles.
    Root,
    /// Made fresh in the heap group of another context; owns its execution
    /// handle and one count of the shared group.
    Sibling,
    /// Handed to the host by the engine during a callback; owns nothing.
    Adopted,
}

/// A context as a mathematical value.
pub struct ContextView {
    pub group: ContextGroupRef,
    pub global: GlobalContextRef,
    pub ownership: ContextOwnership,
}

/// A JavaScript execution context over a heap group.
pub struct JSContext {
    context_group: RetainReleaseWrapper<ContextGroupRef>,
    inner: RetainReleaseWrapper<GlobalContextRef>,
    ownership: ContextOwnership,
}

impl View for JSContext {
    type V = ContextView;

    closed spec fn view(&self) -> ContextView {
        ContextView { group: self.context_group@, global: self.inner@, ownership: self.ownership }
    }
}

/// What releasing a context asks of the engine: for an owning context, one
/// release of its execution handle and then one of its heap group; nothing
/// for an adopted one.
pub open spec fn context_release_ops(c: ContextView) -> Seq<ContextOp> {
    if c.ownership == ContextOwnership::Adopted {
        Seq::empty()
    } else {
        seq![ContextOp::Global(RefOp::Release(c.global)), ContextOp::Group(RefOp::Release(c.group))]
    }
}

impl JSContext {
    fn new_from_raw(
        context_group: ContextGroupRef,
        context_group_already_retained: bool,
        inner: GlobalContextRef,
        inner_already_retained: bool,
        ownership: ContextOwnership,
        log: &mut Vec<ContextOp>,
    ) -> (r: JSContext)
        ensures
            r@ == (ContextView { group: context_group, global: inner, ownership }),
            final(log)@ == old(log)@ + new_ops(context_group, context_group_already_retained).map_values(
                |o: RefOp<ContextGroupRef>| ContextOp::Group(o),
            ) + new_ops(inner, inner_already_retained).map_values(
                |o: RefOp<GlobalContextRef>| ContextOp::Global(o),
            ),
    {
        let mut group_ops: Vec<RefOp<ContextGroupRef>> = Vec::new();
        let group = RetainReleaseWrapper::new(context_group, context_group_already_retained, &mut group_ops);
        if group_ops.len() > 0 {
            log.push(ContextOp::Group(RefOp::Retain(context_group)));
        }
        let mut inner_ops: Vec<RefOp<GlobalContextRef>> = Vec::new();
        let global = RetainReleaseWrapper::new(inner, inner_already_retained, &mut inner_ops);
        if inner_ops.len() > 0 {
            log.push(ContextOp::Global(RefOp::Retain(inner)));
        }
        proof {
            let g = new_ops(context_group, context_group_already_retained).map_values(
                |o: RefOp<ContextGroupRef>| ContextOp::Group(o),
            );
            let i = new_ops(inner, inner_already_retained).map_values(
                |o: RefOp<GlobalContextRef>| ContextOp::Global(o),
            );
            assert(final(log)@ =~= old(log)@ + g + i);
        }
        JSContext { context_group: group, inner: global, ownership }
    }

    /// A root context over a heap group and an execution handle that the
    /// engine has just created; each comes with the one count it owns.
    pub fn new(context_group: ContextGroupRef, inner: GlobalContextRef) -> (r: JSContext)
        ensures
            r@ == (ContextView { group: context_group, global: inner, ownership: ContextOwnership::Root }),
    {
        let mut log: Vec<ContextOp> = Vec::new();
        JSContext::new_from_raw(context_group, true, inner, true, ContextOwnership::Root, &mut log)
    }

    /// A sibling of this context: `inner` is an execution handle that the
    /// engine has just created in this context's heap group. The sibling
    /// shares the group, so one retain of the group is logged.
    pub fn new_sibling(&self, inner: GlobalContextRef, log: &mut Vec<ContextOp>) -> (r: JSContext)
        ensures
            r@ == (ContextView { group: self@.group, global: inner, ownership: ContextOwnership::Sibling }),
            final(log)@ == old(log)@.push(ContextOp::Group(RefOp::Retain(self@.group))),
    {
        let group = self.context_group.get();
        let r = JSContext::new_from_raw(group, false, inner, true, ContextOwnership::Sibling, log);
        proof {
            assert(new_ops(inner, true).map_values(|o: RefOp<GlobalContextRef>| ContextOp::Global(o))
                =~= Seq::<ContextOp>::empty());
            assert(final(log)@ =~= old(log)@.push(ContextOp::Group(RefOp::Retain(self@.group))));
        }
        r
    }

    /// A context that the engine handed to the host during a callback. The
    /// engine keeps managing its lifetime: nothing is retained now, and
    /// nothing will be released.
    pub fn adopt(context_group: ContextGroupRef, inner: GlobalContextRef) -> (r: JSContext)
        ensures
            r@ == (ContextView { group: context_group, global: inner, ownership: ContextOwnership::Adopted }),
    {
        let mut log: Vec<ContextOp> = Vec::new();
        JSContext::new_from_raw(context_group, true, inner, true, ContextOwnership::Adopted, &mut log)
    }

    /// The execution handle, for passing to the engine.
    pub fn inner(&self) -> (r: GlobalContextRef)
        ensures
            r == self@.global,
    {
        self.inner.get()
    }

    /// The heap group.
    pub fn context_group(&self) -> (r: ContextGroupRef)
        ensures
            r == self@.group,
    {
        self.context_group.get()
    }

    /// How this context came to be.
    pub fn ownership(&self) -> (r: ContextOwnership)
        ensures
            r == self@.ownership,
    {
        self.ownership
    }

    /// Ends this context, logging what it owned for release: the execution
    /// handle first, then the heap group; nothing for an adopted context.
    pub fn release(self, log: &mut Vec<ContextOp>)
        ensures
            final(log)@ == old(log)@ + context_release_ops(self@),
    {
        if self.ownership != ContextOwnership::Adopted {
            let mut inner_ops: Vec<RefOp<GlobalContextRef>> = Vec::new();
            let global = self.inner.get();
            self.inner.release(&mut inner_ops);
            log.push(ContextOp::Global(RefOp::Release(global)));
            let mut group_ops: Vec<RefOp<ContextGroupRef>> = Vec::new();
            let group = self.context_group.get();
            self.context_group.release(&mut group_ops);
            log.push(ContextOp::Group(RefOp::Release(group)));
            proof {
                assert(final(log)@ =~= old(log)@ + context_release_ops(self@));
            }
        } else {
            proof {
                assert(final(log)@ =~= old(log)@ + context_release_ops(self@));
            }
        }
    }

    /// Settles the engine's reply to evaluating a script: what it threw, or
    /// the value it evaluated to.
    pub fn evaluate_script(&self, reply: EngineReply) -> (r: Result<JSValue, Failure>)
        ensures
            r == as_value(value_outcome(reply)),
    {
        match settle_value(reply) {
            Ok(a) => Ok(JSValue::from_raw(a)),
            Err(f) => Err(f),
        }
    }
}

/// A sibling holds one count of the shared heap group for its lifetime: its
/// creation and its release together retain and release that group once each,
/// and release its own execution handle once, never retaining it.
pub proof fn lemma_sibling_balances_group(parent: ContextView, inner: GlobalContextRef)
    ensures
        ({
            let sibling = ContextView { group: parent.group, global: inner, ownership: ContextOwnership::Sibling };
            seq![ContextOp::Group(RefOp::Retain(parent.group))] + context_release_ops(sibling) == seq![
                ContextOp::Group(RefOp::Retain(parent.group)),
                ContextOp::Global(RefOp::Release(inner)),
                ContextOp::Group(RefOp::Release(parent.group)),
            ]
        }),
{
    let sibling = ContextView { group: parent.group, global: inner, ownership: ContextOwnership::Sibling };
    assert(seq![ContextOp::Group(RefOp::Retain(parent.group))] + context_release_ops(sibling) =~= seq![
        ContextOp::Group(RefOp::Retain(parent.group)),
        ContextOp::Global(RefOp::Release(inner)),
        ContextOp::Group(RefOp::Release(parent.group)),
    ]);
}

} // verus!
