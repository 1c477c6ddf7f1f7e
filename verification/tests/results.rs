use mini_v8::{
    desc_to_result, desc_to_result_noval, desc_to_result_val, Error, MiniV8, MutCallback, Ref,
    Thrown, Value, ValueDesc, ValueDescTag,
};

#[test]
fn evaluating_one_plus_one_gives_two() {
    let mut mv8 = MiniV8::new(1);
    // What the engine hands back for the source `1+1`.
    let desc = mv8.receive_result(ValueDescTag::Number, 2.0f64.to_bits(), 0);
    let result = desc_to_result(&mv8, desc);
    assert_eq!(result, Ok(Value::Number(2.0f64.to_bits())));
    match result {
        Ok(Value::Number(bits)) => assert_eq!(f64::from_bits(bits), 2.0),
        other => panic!("expected a number, got {:?}", other),
    }
    assert_eq!(mv8.live(), 0);
}

#[test]
fn a_thrown_error_object_comes_back_as_an_error_value() {
    let mut mv8 = MiniV8::new(1);
    // What the engine hands back for the source `throw new Error('x')`.
    let desc = mv8.receive_result(ValueDescTag::Object, 4096, 1);
    match desc_to_result(&mv8, desc) {
        Err(Error::Value(Value::Object(r))) => {
            assert_eq!(r.interface(), 1);
            assert_eq!(r.value_ptr(), 4096);
            assert!(mv8.holds(&r));
            assert_eq!(r.release(&mut mv8), 4096);
        },
        other => panic!("expected a thrown object, got {:?}", other),
    }
    assert_eq!(mv8.live(), 0);
}

#[test]
fn a_thrown_inline_value_is_carried_exactly() {
    let mut mv8 = MiniV8::new(1);
    let desc = mv8.receive_result(ValueDescTag::Number, 42.0f64.to_bits(), 1);
    assert_eq!(desc_to_result(&mv8, desc), Err(Error::Value(Value::Number(42.0f64.to_bits()))));
    let desc = mv8.receive_result(ValueDescTag::Undefined, 0, 1);
    assert_eq!(desc_to_result(&mv8, desc), Err(Error::Value(Value::Undefined)));
    let desc = mv8.receive_result(ValueDescTag::Boolean, 0, 1);
    assert_eq!(desc_to_result(&mv8, desc), Err(Error::Value(Value::Boolean(false))));
}

#[test]
fn any_nonzero_flag_is_an_exception() {
    let mut mv8 = MiniV8::new(1);
    for flag in [1u8, 2, 255] {
        let desc = mv8.receive_result(ValueDescTag::Null, 0, flag);
        assert_eq!(desc_to_result(&mv8, desc), Err(Error::Value(Value::Null)));
        let desc = mv8.receive_result(ValueDescTag::Null, 0, flag);
        assert_eq!(desc_to_result_noval(&mut mv8, desc), Err(Error::Value(Value::Null)));
        let desc = mv8.receive_result(ValueDescTag::Null, 0, flag);
        assert_eq!(desc_to_result_val(&mv8, desc), Err(Error::Value(Value::Null)));
    }
}

#[test]
fn a_discarded_heap_success_is_still_released() {
    let mut mv8 = MiniV8::new(1);
    let keep = Ref::new(&mut mv8, 5);
    let desc = mv8.receive_result(ValueDescTag::Object, 6, 0);
    assert_eq!(mv8.live(), 2);
    assert_eq!(desc_to_result_noval(&mut mv8, desc), Ok(Some(6)));
    assert_eq!(mv8.live(), 1);
    assert_eq!(mv8.count(6), 0);
    assert!(mv8.holds(&keep));
}

#[test]
fn a_discarded_inline_success_releases_nothing() {
    let mut mv8 = MiniV8::new(1);
    let keep = Ref::new(&mut mv8, 5);
    let desc = mv8.receive_result(ValueDescTag::Boolean, 1, 0);
    assert_eq!(desc_to_result_noval(&mut mv8, desc), Ok(None));
    assert_eq!(mv8.live(), 1);
    assert!(mv8.holds(&keep));
}

#[test]
fn an_exception_is_not_discarded() {
    let mut mv8 = MiniV8::new(1);
    let desc = mv8.receive_result(ValueDescTag::Object, 6, 1);
    match desc_to_result_noval(&mut mv8, desc) {
        Err(Error::Value(Value::Object(r))) => {
            assert_eq!(r.value_ptr(), 6);
            assert_eq!(mv8.live(), 1);
            assert!(mv8.holds(&r));
        },
        other => panic!("expected a thrown object, got {:?}", other),
    }
}

#[test]
fn a_success_can_be_kept_as_a_descriptor() {
    let mut mv8 = MiniV8::new(1);
    let desc = mv8.receive_result(ValueDescTag::String, 8, 0);
    let kept = desc_to_result_val(&mv8, desc);
    assert_eq!(kept, Ok(ValueDesc::new(ValueDescTag::String, 8)));
    assert_eq!(mv8.live(), 1);
    // It goes into the next call as it is.
    assert_eq!(mv8.send(kept.unwrap()), (ValueDescTag::String, 8));
    assert_eq!(mv8.live(), 0);
}

#[test]
fn an_exception_kept_as_a_descriptor_is_lifted() {
    let mut mv8 = MiniV8::new(1);
    let desc = mv8.receive_result(ValueDescTag::Array, 8, 1);
    match desc_to_result_val(&mv8, desc) {
        Err(Error::Value(Value::Array(r))) => assert_eq!(r.value_ptr(), 8),
        other => panic!("expected a thrown array, got {:?}", other),
    }
    assert_eq!(mv8.live(), 1);
}

#[test]
fn a_mutable_callback_cannot_be_entered_twice() {
    let mut guard = MutCallback::new();
    assert!(!guard.is_running());
    assert_eq!(guard.enter(), Ok(()));
    assert!(guard.is_running());
    assert_eq!(guard.enter(), Err(Error::RecursiveMutCallback));
    assert!(guard.is_running());
    assert_eq!(guard.enter(), Err(Error::RecursiveMutCallback));
    guard.exit();
    assert!(!guard.is_running());
    assert_eq!(guard.enter(), Ok(()));
    guard.exit();
    assert!(!guard.is_running());
}

#[test]
fn constructors_build_their_variants() {
    assert_eq!(
        Error::to_js_conversion("u64", "number"),
        Error::ToJsConversionError { from: "u64", to: "number" }
    );
    assert_eq!(
        Error::from_js_conversion("object", "String"),
        Error::FromJsConversionError { from: "object", to: "String" }
    );
    assert_eq!(Error::recursive_mut_callback(), Error::RecursiveMutCallback);
    assert_eq!(Error::not_a_function(), Error::NotAFunction);
}

#[test]
fn display_texts() {
    let mut mv8 = MiniV8::new(1);
    assert_eq!(
        Error::to_js_conversion("u64", "number").describe(),
        "error converting u64 to JavaScript number"
    );
    assert_eq!(
        Error::from_js_conversion("object", "String").describe(),
        "error converting JavaScript object to String"
    );
    assert_eq!(Error::recursive_mut_callback().describe(), "mutable callback called recursively");
    assert_eq!(Error::not_a_function().describe(), "tried to a call a non-function");
    assert_eq!(Error::ExternalError("disk full".to_string()).describe(), "disk full");
    assert_eq!(Error::ExternalError(String::new()).describe(), "");
    assert_eq!(Error::Value(Value::Null).describe(), "JavaScript runtime error (null)");
    assert_eq!(
        Error::Value(Value::Number(1.0f64.to_bits())).describe(),
        "JavaScript runtime error (number)"
    );
    assert_eq!(
        Error::Value(Value::Object(Ref::new(&mut mv8, 3))).describe(),
        "JavaScript runtime error (object)"
    );
    assert_eq!(Error::not_a_function().description(), "JavaScript execution error");
    assert_eq!(Error::Value(Value::Null).description(), "JavaScript execution error");
}

#[test]
fn an_exception_value_is_thrown_unchanged() {
    let mut mv8 = MiniV8::new(1);
    let error = Error::Value(Value::Object(Ref::new(&mut mv8, 3)));
    match error.to_value() {
        Thrown::Value(Value::Object(r)) => {
            assert_eq!(r.interface(), 1);
            assert_eq!(r.value_ptr(), 3);
        },
        other => panic!("expected the value itself, got {:?}", other),
    }
    assert_eq!(
        Error::Value(Value::Boolean(true)).to_value(),
        Thrown::Value(Value::Boolean(true))
    );
    assert_eq!(mv8.live(), 1);
}

#[test]
fn conversion_errors_are_thrown_as_type_errors() {
    assert_eq!(
        Error::to_js_conversion("u64", "number").to_value(),
        Thrown::Object {
            name: "TypeError",
            message: "error converting u64 to JavaScript number".to_string(),
        }
    );
    assert_eq!(
        Error::from_js_conversion("object", "String").to_value(),
        Thrown::Object {
            name: "TypeError",
            message: "error converting JavaScript object to String".to_string(),
        }
    );
    assert_eq!(
        Error::not_a_function().to_value(),
        Thrown::Object { name: "TypeError", message: "tried to a call a non-function".to_string() }
    );
}

#[test]
fn other_errors_are_thrown_as_plain_errors() {
    assert_eq!(
        Error::recursive_mut_callback().to_value(),
        Thrown::Object {
            name: "Error",
            message: "mutable callback called recursively".to_string(),
        }
    );
    assert_eq!(
        Error::ExternalError("disk full".to_string()).to_value(),
        Thrown::Object { name: "Error", message: "disk full".to_string() }
    );
}
