use rusty_jsc::helpers::{RefOp, RetainReleaseWrapper};
use rusty_jsc::js_context::{ContextGroupRef, ContextOp, ContextOwnership, GlobalContextRef, JSContext};
use rusty_jsc::js_exception::Reinjection;
use rusty_jsc::js_exception::JSException;
use rusty_jsc::js_object::JSObject;
use rusty_jsc::js_promise::{DeferredReply, JSPromise};
use rusty_jsc::js_protected_value::{GcOp, JSProtectedValue};
use rusty_jsc::js_value::JSValue;
use rusty_jsc::js_vm::JSVirtualMachine;
use rusty_jsc::protocol::{Failure, InvalidUsage};

fn count(log: &[RefOp<GlobalContextRef>]) -> (usize, usize) {
    let retains = log.iter().filter(|o| matches!(o, RefOp::Retain(_))).count();
    let releases = log.iter().filter(|o| matches!(o, RefOp::Release(_))).count();
    (retains, releases)
}

#[test]
fn wrapper_not_yet_retained_logs_one_retain() {
    let mut log = Vec::new();
    let w = RetainReleaseWrapper::new(GlobalContextRef(0x10), false, &mut log);
    assert_eq!(w.get(), GlobalContextRef(0x10));
    assert_eq!(log, vec![RefOp::Retain(GlobalContextRef(0x10))]);
}

#[test]
fn wrapper_already_retained_logs_nothing() {
    let mut log: Vec<RefOp<GlobalContextRef>> = Vec::new();
    let _w = RetainReleaseWrapper::new(GlobalContextRef(0x10), true, &mut log);
    assert!(log.is_empty());
}

#[test]
fn clones_and_releases_balance() {
    let n = 3;
    let mut log = Vec::new();
    let first = RetainReleaseWrapper::new(GlobalContextRef(0x20), true, &mut log);
    let mut all = Vec::new();
    for _ in 0..n {
        all.push(first.retain_clone(&mut log));
    }
    all.push(first);
    for w in all {
        w.release(&mut log);
    }
    assert_eq!(count(&log), (n, n + 1));
    assert!(log.iter().all(|o| matches!(o, RefOp::Retain(GlobalContextRef(0x20)) | RefOp::Release(GlobalContextRef(0x20)))));
}

#[test]
fn root_context_owns_both_handles() {
    let ctx = JSContext::new(ContextGroupRef(1), GlobalContextRef(2));
    assert_eq!(ctx.ownership(), ContextOwnership::Root);
    assert_eq!(ctx.context_group(), ContextGroupRef(1));
    assert_eq!(ctx.inner(), GlobalContextRef(2));
    let mut log = Vec::new();
    ctx.release(&mut log);
    assert_eq!(
        log,
        vec![
            ContextOp::Global(RefOp::Release(GlobalContextRef(2))),
            ContextOp::Group(RefOp::Release(ContextGroupRef(1))),
        ]
    );
}

#[test]
fn sibling_shares_group_with_own_context() {
    let root = JSContext::new(ContextGroupRef(1), GlobalContextRef(2));
    let mut log = Vec::new();
    let sibling = root.new_sibling(GlobalContextRef(3), &mut log);
    assert_eq!(log, vec![ContextOp::Group(RefOp::Retain(ContextGroupRef(1)))]);
    assert_eq!(sibling.context_group(), root.context_group());
    assert_ne!(sibling.inner(), root.inner());
    assert_eq!(sibling.ownership(), ContextOwnership::Sibling);
    sibling.release(&mut log);
    root.release(&mut log);
    assert_eq!(
        log,
        vec![
            ContextOp::Group(RefOp::Retain(ContextGroupRef(1))),
            ContextOp::Global(RefOp::Release(GlobalContextRef(3))),
            ContextOp::Group(RefOp::Release(ContextGroupRef(1))),
            ContextOp::Global(RefOp::Release(GlobalContextRef(2))),
            ContextOp::Group(RefOp::Release(ContextGroupRef(1))),
        ]
    );
}

#[test]
fn adopted_context_never_retains_or_releases() {
    let ctx = JSContext::adopt(ContextGroupRef(7), GlobalContextRef(8));
    assert_eq!(ctx.ownership(), ContextOwnership::Adopted);
    assert_eq!(ctx.inner(), GlobalContextRef(8));
    let mut log = Vec::new();
    ctx.release(&mut log);
    assert!(log.is_empty());
}

#[test]
fn guard_unprotects_in_its_own_context() {
    let ctx = JSContext::new(ContextGroupRef(1), GlobalContextRef(2));
    let mut log = Vec::new();
    let guard = JSProtectedValue::new(&ctx, JSValue::from_raw(0x99), &mut log);
    assert_eq!(guard.value(), JSValue::from_raw(0x99));
    assert_eq!(guard.context(), GlobalContextRef(2));
    guard.release(&mut log);
    assert_eq!(
        log,
        vec![
            GcOp::Protect(GlobalContextRef(2), JSValue::from_raw(0x99)),
            GcOp::Unprotect(GlobalContextRef(2), JSValue::from_raw(0x99)),
        ]
    );
}

fn reply(promise: usize, resolve: usize, reject: usize, exception: usize) -> DeferredReply {
    DeferredReply { promise, resolve, reject, exception }
}

#[test]
fn promise_creation_errors_in_order() {
    let ctx = JSContext::new(ContextGroupRef(1), GlobalContextRef(2));
    let mut log = Vec::new();
    let thrown = JSPromise::new(&ctx, reply(0, 0, 0, 5), &mut log);
    assert!(matches!(thrown, Err(Failure::Thrown(v)) if v == JSValue::from_raw(5)));
    let missing = JSPromise::new(&ctx, reply(10, 11, 0, 0), &mut log);
    assert!(matches!(missing, Err(Failure::Invalid(InvalidUsage::PromiseCallablesMissing))));
    let no_promise = JSPromise::new(&ctx, reply(0, 11, 12, 0), &mut log);
    assert!(matches!(no_promise, Err(Failure::Invalid(InvalidUsage::PromiseNotCreated))));
    assert!(log.is_empty());
    let msg = InvalidUsage::PromiseCallablesMissing.message();
    assert_eq!(msg, "Missing promise resolve/reject method references");
}

#[test]
fn promise_resolve_fires_once_and_unprotects_each_handle_once() {
    let ctx = JSContext::new(ContextGroupRef(1), GlobalContextRef(2));
    let mut log = Vec::new();
    let promise = JSPromise::new(&ctx, reply(10, 11, 12, 0), &mut log).ok().unwrap();
    assert_eq!(promise.value(), JSValue::from_raw(10));
    let settlement = promise.done(Ok(JSValue::from_raw(42)), &mut log);
    assert_eq!(settlement.function, JSObject::from_raw(11));
    assert!(matches!(settlement.argument, Reinjection::Value(v) if v == JSValue::from_raw(42)));
    let c = GlobalContextRef(2);
    assert_eq!(
        log,
        vec![
            GcOp::Protect(c, JSValue::from_raw(11)),
            GcOp::Protect(c, JSValue::from_raw(12)),
            GcOp::Protect(c, JSValue::from_raw(10)),
            GcOp::Unprotect(c, JSValue::from_raw(11)),
            GcOp::Unprotect(c, JSValue::from_raw(12)),
            GcOp::Unprotect(c, JSValue::from_raw(10)),
        ]
    );
    for handle in [10, 11, 12] {
        let v = JSValue::from_raw(handle);
        assert_eq!(log.iter().filter(|o| **o == GcOp::Unprotect(c, v)).count(), 1);
    }
}

#[test]
fn promise_reject_passes_the_thrown_value() {
    let ctx = JSContext::new(ContextGroupRef(1), GlobalContextRef(2));
    let mut log = Vec::new();
    let promise = JSPromise::new(&ctx, reply(10, 11, 12, 0), &mut log).ok().unwrap();
    let error = JSException::new(JSValue::from_raw(77), Some("Error: boom".to_string()), "here".to_string());
    let settlement = promise.reject(error, &mut log);
    assert_eq!(settlement.function, JSObject::from_raw(12));
    assert!(matches!(settlement.argument, Reinjection::Value(v) if v == JSValue::from_raw(77)));
}

#[test]
fn promise_reject_with_host_message_passes_text() {
    let ctx = JSContext::new(ContextGroupRef(1), GlobalContextRef(2));
    let mut log = Vec::new();
    let promise = JSPromise::new(&ctx, reply(10, 11, 12, 0), &mut log).ok().unwrap();
    let error = JSException::from_text("dropped without completion".to_string(), "host".to_string());
    let settlement = promise.reject(error, &mut log);
    assert_eq!(settlement.function, JSObject::from_raw(12));
    assert!(matches!(settlement.argument, Reinjection::Text(ref t) if t == "dropped without completion"));
}

#[test]
fn virtual_machine_takes_and_gives_back_one_count_each() {
    let mut log = Vec::new();
    let vm = JSVirtualMachine::from(GlobalContextRef(5), ContextGroupRef(6), &mut log);
    vm.release(&mut log);
    assert_eq!(
        log,
        vec![
            ContextOp::Global(RefOp::Retain(GlobalContextRef(5))),
            ContextOp::Group(RefOp::Retain(ContextGroupRef(6))),
            ContextOp::Global(RefOp::Release(GlobalContextRef(5))),
            ContextOp::Group(RefOp::Release(ContextGroupRef(6))),
        ]
    );
    let mut fresh_log = Vec::new();
    JSVirtualMachine::new(ContextGroupRef(1), GlobalContextRef(2)).release(&mut fresh_log);
    assert_eq!(fresh_log.len(), 2);
}
