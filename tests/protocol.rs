use bytes::Bytes;
use rusty_jsc::js_context::{ContextGroupRef, GlobalContextRef, JSContext};
use rusty_jsc::js_exception::{ExceptionKind, JSException, Reinjection};
use rusty_jsc::js_object::{BufferDisposal, JSObject};
use rusty_jsc::js_value::JSValue;
use rusty_jsc::protocol::{check_exception, settle_checked, settle_value, EngineReply, Failure, InvalidUsage};
use rusty_jsc::typed_array::{CreationStep, FreezeProperty, TypedArrayCreation};

fn reply(result: usize, exception: usize) -> EngineReply {
    EngineReply { result, exception }
}

#[test]
fn exception_slot_wins_over_result() {
    assert_eq!(settle_value(reply(5, 9)), Err(Failure::Thrown(JSValue::from_raw(9))));
    assert_eq!(settle_value(reply(5, 0)), Ok(5));
    assert_eq!(settle_value(reply(0, 0)), Ok(0));
    assert_eq!(check_exception(3), Err(Failure::Thrown(JSValue::from_raw(3))));
    assert_eq!(check_exception(0), Ok(()));
    assert_eq!(
        settle_checked(reply(0, 4), InvalidUsage::NotAFunction),
        Err(Failure::Thrown(JSValue::from_raw(4)))
    );
}

#[test]
fn calling_a_non_function_is_not_callable() {
    let target = JSObject::from_raw(0x40);
    let r = target.call(reply(0, 0));
    assert_eq!(r, Err(Failure::Invalid(InvalidUsage::NotAFunction)));
    let e = JSException::from_failure(r.unwrap_err(), None, "main.rs:1:1".to_string());
    assert_eq!(e.kind(), ExceptionKind::InvalidUsage);
    assert_eq!(e.to_string(), "JSException main.rs:1:1: Can't call the object: not a valid function");
    let named = JSException::from_failure(
        Failure::Invalid(InvalidUsage::NotAFunction),
        Some("[object Object]".to_string()),
        "main.rs:2:1".to_string(),
    );
    assert_eq!(
        named.to_string(),
        "JSException main.rs:2:1: Can't call the object [object Object]: not a valid function"
    );
    assert!(matches!(named.to_jsvalue(), Reinjection::Text(ref t) if t == "Can't call the object [object Object]: not a valid function"));
    let ctor = JSException::from_failure(Failure::Invalid(InvalidUsage::NotAConstructor), Some("7".to_string()), "x".to_string());
    assert_eq!(ctor.to_string(), "JSException x: Can't call constructor for 7: not a valid constructor");
    let json = JSException::from_failure(Failure::Invalid(InvalidUsage::InvalidJson), Some("ignored".to_string()), "x".to_string());
    assert_eq!(json.to_string(), "JSException x: JSON input is not valid.");
}

#[test]
fn call_results_and_throws() {
    let target = JSObject::from_raw(0x40);
    assert_eq!(target.call(reply(0x50, 0)), Ok(JSValue::from_raw(0x50)));
    assert_eq!(target.call(reply(0, 0x60)), Err(Failure::Thrown(JSValue::from_raw(0x60))));
    assert_eq!(target.construct(reply(0, 0)), Err(Failure::Invalid(InvalidUsage::NotAConstructor)));
    assert_eq!(target.construct(reply(0x51, 0)), Ok(JSObject::from_raw(0x51)));
    assert_eq!(target.to_jsvalue(), JSValue::from_raw(0x40));
}

#[test]
fn other_object_operations_settle() {
    assert_eq!(JSObject::new_array(reply(0x70, 0)), Ok(JSObject::from_raw(0x70)));
    assert_eq!(JSObject::new_array(reply(0, 0x71)), Err(Failure::Thrown(JSValue::from_raw(0x71))));
    assert_eq!(
        JSObject::create_typed_array_from_buffer(reply(0, 0)),
        Err(Failure::Invalid(InvalidUsage::TypedArrayFromBufferNotCreated))
    );
    assert_eq!(JSObject::get_property_at_index(reply(0x72, 0)), Ok(JSValue::from_raw(0x72)));
    assert_eq!(JSObject::get_property(reply(0x74, 0)), Ok(JSValue::from_raw(0x74)));
    assert_eq!(JSObject::get_property(reply(0x74, 0x75)), Err(Failure::Thrown(JSValue::from_raw(0x75))));
    assert_eq!(JSObject::set_property(0x73), Err(Failure::Thrown(JSValue::from_raw(0x73))));
    assert_eq!(JSObject::set_property_at_index(0), Ok(()));
    let v = JSValue::from_raw(0x80);
    assert_eq!(v.to_object(reply(0x81, 0)), Ok(JSObject::from_raw(0x81)));
    assert!(JSValue::from_raw(0).is_null_ref());
}

#[test]
fn invalid_json_is_its_own_error() {
    assert_eq!(JSValue::from_json(0), Err(Failure::Invalid(InvalidUsage::InvalidJson)));
    assert_eq!(JSValue::from_json(0x90), Ok(JSValue::from_raw(0x90)));
    assert_eq!(InvalidUsage::InvalidJson.message(), "JSON input is not valid.");
}

#[test]
fn evaluate_script_settles() {
    let ctx = JSContext::new(ContextGroupRef(1), GlobalContextRef(2));
    assert_eq!(ctx.evaluate_script(reply(0x33, 0)), Ok(JSValue::from_raw(0x33)));
    assert_eq!(ctx.evaluate_script(reply(0, 0x34)), Err(Failure::Thrown(JSValue::from_raw(0x34))));
}

#[test]
fn captured_exception_shows_its_text() {
    let e = JSException::new(JSValue::from_raw(0x1f), Some("Error: boom".to_string()), "src/run.rs:3:9".to_string());
    assert_eq!(e.kind(), ExceptionKind::Engine);
    let shown = e.to_string();
    assert!(shown.contains("boom"));
    assert_eq!(shown, "JSException src/run.rs:3:9: Error: boom");
    assert!(matches!(e.to_jsvalue(), Reinjection::Value(v) if v == JSValue::from_raw(0x1f)));
}

#[test]
fn unrepresentable_exception_shows_placeholder() {
    let e = JSException::new(JSValue::from_raw(0x7f3a), None, "here".to_string());
    assert_eq!(e.to_string(), "JSException here: <error is not representable. JSValueRef=0x7f3a>");
    let z = JSException::new(JSValue::from_raw(0), None, "here".to_string());
    assert_eq!(z.to_string(), "JSException here: <error is not representable. JSValueRef=0x0>");
    let big = JSException::new(JSValue::from_raw(255), None, "x".to_string());
    assert_eq!(big.to_string(), "JSException x: <error is not representable. JSValueRef=0xff>");
}

#[test]
fn host_exception_keeps_message() {
    let e = JSException::from_text("bad input".to_string(), "cli".to_string());
    assert_eq!(e.kind(), ExceptionKind::Host);
    assert_eq!(e.to_string(), "JSException cli: bad input");
    assert!(matches!(e.to_jsvalue(), Reinjection::Text(ref t) if t == "bad input"));
}

#[test]
fn typed_array_made_and_frozen() {
    let bytes = Bytes::from(vec![1u8, 2, 3, 4, 5]);
    let (mut creation, step) = TypedArrayCreation::start(&bytes);
    assert_eq!(step, CreationStep::MakeArray { len: 5 });
    assert_eq!(creation.len(), 5);
    let step = creation.advance(reply(0x100, 0));
    assert_eq!(step, CreationStep::ReadGlobalProperty { name: FreezeProperty::ObjectConstructor });
    assert_eq!(FreezeProperty::ObjectConstructor.name(), "Object");
    let step = creation.advance(reply(0x200, 0));
    assert_eq!(step, CreationStep::ToObject { value: JSValue::from_raw(0x200) });
    let step = creation.advance(reply(0x201, 0));
    assert_eq!(step, CreationStep::ReadProperty { target: JSObject::from_raw(0x201), name: FreezeProperty::Freeze });
    assert_eq!(FreezeProperty::Freeze.name(), "freeze");
    let step = creation.advance(reply(0x300, 0));
    assert_eq!(step, CreationStep::ToObject { value: JSValue::from_raw(0x300) });
    let step = creation.advance(reply(0x301, 0));
    assert_eq!(step, CreationStep::Call { function: JSObject::from_raw(0x301), argument: JSValue::from_raw(0x100) });
    assert!(!creation.is_finished());
    let step = creation.advance(reply(0x100, 0));
    assert_eq!(
        step,
        CreationStep::Finished { result: Ok(JSObject::from_raw(0x100)), disposal: BufferDisposal::Engine }
    );
    assert!(creation.is_finished());
}

#[test]
fn typed_array_not_made_leaves_buffer_to_host() {
    let bytes = Bytes::from(vec![0u8; 16]);
    let (mut creation, step) = TypedArrayCreation::start(&bytes);
    assert_eq!(step, CreationStep::MakeArray { len: 16 });
    let step = creation.advance(reply(0, 0));
    assert_eq!(
        step,
        CreationStep::Finished {
            result: Err(Failure::Invalid(InvalidUsage::TypedArrayNotCreated)),
            disposal: BufferDisposal::Host
        }
    );
    assert!(creation.is_finished());
}

#[test]
fn typed_array_throw_leaves_buffer_to_host() {
    let bytes = Bytes::new();
    let (mut creation, step) = TypedArrayCreation::start(&bytes);
    assert_eq!(step, CreationStep::MakeArray { len: 0 });
    let step = creation.advance(reply(0, 0x9));
    assert_eq!(
        step,
        CreationStep::Finished { result: Err(Failure::Thrown(JSValue::from_raw(0x9))), disposal: BufferDisposal::Host }
    );
    let (made, disposal) = JSObject::create_typed_array_with_bytes(reply(0x10, 0x11));
    assert_eq!(made, Err(Failure::Thrown(JSValue::from_raw(0x11))));
    assert_eq!(disposal, BufferDisposal::Host);
    let (made, disposal) = JSObject::create_typed_array_with_bytes(reply(0x10, 0));
    assert_eq!(made, Ok(JSObject::from_raw(0x10)));
    assert_eq!(disposal, BufferDisposal::Engine);
}

#[test]
fn freeze_failure_after_array_keeps_engine_disposal() {
    let bytes = Bytes::from(vec![7u8; 3]);
    let (mut creation, _) = TypedArrayCreation::start(&bytes);
    creation.advance(reply(0x100, 0));
    creation.advance(reply(0x200, 0));
    let step = creation.advance(reply(0, 0x5));
    assert_eq!(
        step,
        CreationStep::Finished { result: Err(Failure::Thrown(JSValue::from_raw(0x5))), disposal: BufferDisposal::Engine }
    );
}

#[test]
fn throwing_property_read_ends_creation_after_array() {
    let bytes = Bytes::from(vec![1u8; 4]);
    let (mut creation, _) = TypedArrayCreation::start(&bytes);
    creation.advance(reply(0x100, 0));
    let step = creation.advance(reply(0, 0x6));
    assert_eq!(
        step,
        CreationStep::Finished { result: Err(Failure::Thrown(JSValue::from_raw(0x6))), disposal: BufferDisposal::Engine }
    );
    assert!(creation.is_finished());
}
