use ruwren::registry::{ClassObjectPointers, MethodPointer, Module, ModuleLibrary};
use ruwren::vm::{SlotValue, VMConfig};
use ruwren::{ForeignSendError, FunctionSignature};

const COUNTER_TAG: u64 = 77;
const COUNTER_CTOR: u64 = 1;
const COUNTER_DTOR: u64 = 2;
const INCREMENT_FN: u64 = 42;
const RESET_STATIC_FN: u64 = 43;

fn counter_library() -> ModuleLibrary {
    let mut module = Module::new();
    let methods = ClassObjectPointers {
        function_pointers: vec![
            MethodPointer {
                is_static: false,
                signature: FunctionSignature::new_function("increment", 0),
                pointer: INCREMENT_FN,
            },
            MethodPointer {
                is_static: true,
                signature: FunctionSignature::new_function("reset", 1),
                pointer: RESET_STATIC_FN,
            },
        ],
    };
    module.class("Counter", COUNTER_CTOR, COUNTER_DTOR, methods, COUNTER_TAG);
    let mut lib = ModuleLibrary::new();
    lib.module("main", module);
    lib
}

#[test]
fn bind_foreign_method_finds_exact_match() {
    let lib = counter_library();
    assert_eq!(
        lib.bind_foreign_method("main", "Counter", false, "increment()"),
        Some(INCREMENT_FN)
    );
    assert_eq!(
        lib.bind_foreign_method("main", "Counter", true, "reset(_)"),
        Some(RESET_STATIC_FN)
    );
}

#[test]
fn bind_foreign_method_rejects_non_matching_combinations() {
    let lib = counter_library();
    // wrong staticness
    assert_eq!(lib.bind_foreign_method("main", "Counter", true, "increment()"), None);
    // wrong signature
    assert_eq!(lib.bind_foreign_method("main", "Counter", false, "increment(_)"), None);
    // wrong class
    assert_eq!(lib.bind_foreign_method("main", "Gauge", false, "increment()"), None);
    // wrong module
    assert_eq!(lib.bind_foreign_method("lib", "Counter", false, "increment()"), None);
}

#[test]
fn bind_foreign_class_returns_trampolines() {
    let lib = counter_library();
    assert_eq!(
        lib.bind_foreign_class("main", "Counter"),
        Some((COUNTER_CTOR, COUNTER_DTOR))
    );
    assert_eq!(lib.bind_foreign_class("main", "Gauge"), None);
    assert_eq!(lib.bind_foreign_class("other", "Counter"), None);
}

#[test]
fn later_registration_shadows_earlier() {
    let mut module = Module::new();
    module.class(
        "Counter",
        COUNTER_CTOR,
        COUNTER_DTOR,
        ClassObjectPointers { function_pointers: vec![] },
        COUNTER_TAG,
    );
    module.class(
        "Counter",
        9,
        10,
        ClassObjectPointers { function_pointers: vec![] },
        COUNTER_TAG,
    );
    let mut lib = ModuleLibrary::new();
    lib.module("main", module);
    assert_eq!(lib.bind_foreign_class("main", "Counter"), Some((9, 10)));
}

#[test]
fn send_foreign_unregistered_pair_is_no_foreign_class() {
    let mut vm = VMConfig::new().library(counter_library()).build();
    let r = vm.set_slot_new_foreign("main", "Gauge", COUNTER_TAG, 5, 0);
    assert_eq!(r, Err(ForeignSendError::NoForeignClass));
    let r = vm.set_slot_new_foreign("other", "Counter", COUNTER_TAG, 5, 0);
    assert_eq!(r, Err(ForeignSendError::NoForeignClass));
}

#[test]
fn send_foreign_undeclared_script_class_is_no_wren_class() {
    let mut vm = VMConfig::new().library(counter_library()).build();
    let r = vm.set_slot_new_foreign("main", "Counter", COUNTER_TAG, 5, 0);
    assert_eq!(r, Err(ForeignSendError::NoWrenClass));
}

#[test]
fn send_foreign_tag_mismatch_is_class_mismatch() {
    let mut vm = VMConfig::new().library(counter_library()).build();
    vm.declare_variable("main", "Counter", SlotValue::Unknown);
    let r = vm.set_slot_new_foreign("main", "Counter", COUNTER_TAG + 1, 5, 0);
    assert_eq!(r, Err(ForeignSendError::ClassMismatch));
}

#[test]
fn send_foreign_declared_class_constructs_in_slot() {
    let mut vm = VMConfig::new().library(counter_library()).build();
    vm.declare_variable("main", "Counter", SlotValue::Unknown);
    let r = vm.set_slot_new_foreign("main", "Counter", COUNTER_TAG, 5, 1);
    assert_eq!(r, Ok(5));
    assert_eq!(vm.get_slot_foreign(1, COUNTER_TAG), Some(5));
}

#[test]
fn send_foreign_without_library_is_no_foreign_class() {
    let mut vm = VMConfig::new().build();
    let r = vm.set_slot_new_foreign("main", "Counter", COUNTER_TAG, 5, 0);
    assert_eq!(r, Err(ForeignSendError::NoForeignClass));
}

#[test]
fn get_slot_foreign_checks_type_tag() {
    let mut vm = VMConfig::new().library(counter_library()).build();
    vm.declare_variable("main", "Counter", SlotValue::Unknown);
    vm.set_slot_new_foreign("main", "Counter", COUNTER_TAG, 5, 1).unwrap();
    // matching tag: the object comes back
    assert_eq!(vm.get_slot_foreign(1, COUNTER_TAG), Some(5));
    // any other compiled type sharing the slot: nothing
    assert_eq!(vm.get_slot_foreign(1, COUNTER_TAG + 1), None);
    // a non-foreign slot: nothing
    vm.set_slot_bool(0, true);
    assert_eq!(vm.get_slot_foreign(0, COUNTER_TAG), None);
}

/// A host-side run of the whole binding chain: a foreign `Counter` class
/// with a zero-arity `increment` method, an instance injected into the VM,
/// the method resolved through the bind callback, and its trampoline applied
/// twice to the native instance.
#[test]
fn counter_increment_twice_reads_two() {
    struct Counter {
        count: i32,
    }
    let mut store: Vec<Counter> = vec![Counter { count: 0 }];

    let lib = counter_library();
    let mut vm = VMConfig::new().library(counter_library()).build();
    vm.declare_variable("main", "Counter", SlotValue::Unknown);

    // `var c = Counter.new()` on the host side: object 0 enters slot 0.
    let r = vm.set_slot_new_foreign("main", "Counter", COUNTER_TAG, 0, 0);
    assert_eq!(r, Ok(0));

    // `c.increment()` twice: resolve the method, downcast the receiver,
    // apply the native body.
    for _ in 0..2 {
        let pointer = lib
            .bind_foreign_method("main", "Counter", false, "increment()")
            .expect("increment must resolve");
        assert_eq!(pointer, INCREMENT_FN);
        let object = vm
            .get_slot_foreign(0, COUNTER_TAG)
            .expect("receiver must downcast");
        store[object as usize].count += 1;
    }

    assert_eq!(store[0].count, 2);
}
