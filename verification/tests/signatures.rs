use ruwren::FunctionSignature;

#[test]
fn setter_canonical_string() {
    assert_eq!(
        FunctionSignature::new_setter("value").as_wren_string(),
        "value=(_)"
    );
}

#[test]
fn getter_canonical_string() {
    assert_eq!(FunctionSignature::new_getter("value").as_wren_string(), "value");
}

#[test]
fn function_canonical_string() {
    assert_eq!(
        FunctionSignature::new_function("call", 2).as_wren_string(),
        "call(_,_)"
    );
}

#[test]
fn zero_arity_function_canonical_string() {
    assert_eq!(
        FunctionSignature::new_function("increment", 0).as_wren_string(),
        "increment()"
    );
}

#[test]
fn one_arity_function_canonical_string() {
    assert_eq!(FunctionSignature::new_function("f", 1).as_wren_string(), "f(_)");
}

#[test]
fn many_arity_function_canonical_string() {
    assert_eq!(
        FunctionSignature::new_function("g", 5).as_wren_string(),
        "g(_,_,_,_,_)"
    );
}

#[test]
fn arity_by_kind() {
    assert_eq!(FunctionSignature::new_function("call", 2).arity(), 2);
    assert_eq!(FunctionSignature::new_getter("value").arity(), 0);
    assert_eq!(FunctionSignature::new_setter("value").arity(), 1);
}
