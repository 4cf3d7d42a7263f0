use vstd::prelude::*;

use crate::helpers::RefOp;
use crate::js_context::{ContextGroupRef, ContextOp, GlobalContextRef};

verus! {

/// A heap group and an execution context held together, each with one count.
pub struct JSVirtualMachine {
    context_group: ContextGroupRef,
    global_context: GlobalContextRef,
}

/// A virtual machine as a mathematical value.
pub struct VirtualMachineView {
    pub group: ContextGroupRef,
    pub global: GlobalContextRef,
}

impl View for JSVirtualMachine {
    type V = VirtualMachineView;

    closed spec fn view(&self) -> VirtualMachineView {
        VirtualMachineView { group: self.context_group, global: self.global_context }
    }
}

impl JSVirtualMachine {
    /// Holds a heap group and an execution context that the engine has just
    /// created in it; each comes with the one count it owns.
    pub fn new(context_group: ContextGroupRef, global_context: GlobalContextRef) -> (r: JSVirtualMachine)
        ensures
            r@ == (VirtualMachineView { group: context_group, global: global_context }),
    {
        JSVirtualMachine { context_group, global_context }
    }

    /// Holds the execution context of a context and its heap group, taking a
    /// count of each: logs a retain of the context, then one of the group.
    pub fn from(global_context: GlobalContextRef, context_group: ContextGroupRef, log: &mut Vec<ContextOp>) -> (r: JSVirtualMachine)
        ensures
            r@ == (VirtualMachineView { group: context_group, global: global_context }),
            final(log)@ == old(log)@ + seq![
                ContextOp::Global(RefOp::Retain(global_context)),
                ContextOp::Group(RefOp::Retain(context_group)),
            ],
    {
        log.push(ContextOp::Global(RefOp::Retain(global_context)));
        log.push(ContextOp::Group(RefOp::Retain(context_group)));
        proof {
            assert(final(log)@ =~= old(log)@ + seq![
                ContextOp::Global(RefOp::Retain(global_context)),
                ContextOp::Group(RefOp::Retain(context_group)),
            ]);
        }
        JSVirtualMachine { context_group, global_context }
    }

    /// Gives up both counts: logs a release of the context, then of the group.
    pub fn release(self, log: &mut Vec<ContextOp>)
        ensures
            final(log)@ == old(log)@ + seq![
                ContextOp::Global(RefOp::Release(self@.global)),
                ContextOp::Group(RefOp::Release(self@.group)),
            ],
    {
        log.push(ContextOp::Global(RefOp::Release(self.global_context)));
        log.push(ContextOp::Group(RefOp::Release(self.context_group)));
        proof {
            assert(final(log)@ =~= old(log)@ + seq![
                ContextOp::Global(RefOp::Release(self@.global)),
                ContextOp::Group(RefOp::Release(self@.group)),
            ]);
        }
    }
}

} // verus!
