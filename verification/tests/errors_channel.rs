use ruwren::outcome::{call_result, interpret_result, RunStatus};
use ruwren::vm::{ErrorKind, VMConfig};
use ruwren::{ForeignSendError, VMError, VMStackFrameError, WrenError};

#[test]
fn runtime_error_keeps_frames_in_emission_order() {
    let mut vm = VMConfig::new().build();
    vm.on_error(ErrorKind::Runtime, "", 0, "boom");
    vm.on_error(ErrorKind::StackTrace, "main", 3, "outer");
    vm.on_error(ErrorKind::StackTrace, "main", 7, "inner");
    let r = vm.interpret_outcome(RunStatus::RuntimeError);
    match r {
        Err(VMError::Runtime { error, frames }) => {
            assert_eq!(error, "boom");
            assert!(!frames.is_empty());
            assert_eq!(frames.len(), 2);
            assert_eq!(frames[0].module, "main");
            assert_eq!(frames[0].line, 3);
            assert_eq!(frames[0].function, "outer");
            assert_eq!(frames[1].line, 7);
            assert_eq!(frames[1].function, "inner");
        }
        other => panic!("expected a runtime error, got {:?}", other),
    }
}

#[test]
fn compile_error_carries_module_line_message() {
    let mut vm = VMConfig::new().build();
    vm.on_error(ErrorKind::Compile, "main", 4, "unexpected token");
    let r = vm.interpret_outcome(RunStatus::CompileError);
    assert_eq!(
        r,
        Err(VMError::Compile {
            module: String::from("main"),
            line: 4,
            error: String::from("unexpected token"),
        })
    );
}

#[test]
fn success_is_ok() {
    let mut vm = VMConfig::new().build();
    assert_eq!(vm.interpret_outcome(RunStatus::Success), Ok(()));
    assert_eq!(vm.call_outcome(RunStatus::Success), Ok(()));
}

#[test]
fn call_outcome_drains_runtime_error() {
    let mut vm = VMConfig::new().build();
    vm.on_error(ErrorKind::Runtime, "", 0, "bad call");
    vm.on_error(ErrorKind::StackTrace, "main", 1, "f");
    let r = vm.call_outcome(RunStatus::RuntimeError);
    match r {
        Err(VMError::Runtime { error, frames }) => {
            assert_eq!(error, "bad call");
            assert_eq!(frames.len(), 1);
        }
        other => panic!("expected a runtime error, got {:?}", other),
    }
    // The channel was fully drained: a later failure starts empty.
    let r2 = vm.call_outcome(RunStatus::RuntimeError);
    match r2 {
        Err(VMError::Runtime { error, frames }) => {
            assert_eq!(error, "");
            assert!(frames.is_empty());
        }
        other => panic!("expected a runtime error, got {:?}", other),
    }
}

#[test]
fn last_runtime_message_wins() {
    let events = vec![
        WrenError::Runtime(String::from("first")),
        WrenError::StackTrace(String::from("m"), 1, String::from("f")),
        WrenError::Runtime(String::from("second")),
    ];
    let r = call_result(RunStatus::RuntimeError, &events);
    match r {
        Err(VMError::Runtime { error, frames }) => {
            assert_eq!(error, "second");
            assert_eq!(frames.len(), 1);
        }
        other => panic!("expected a runtime error, got {:?}", other),
    }
}

#[test]
fn interpret_result_takes_first_compile_event() {
    let events = vec![WrenError::Compile(
        String::from("mod"),
        9,
        String::from("oops"),
    )];
    let r = interpret_result(RunStatus::CompileError, &events);
    assert_eq!(
        r,
        Err(VMError::Compile { module: String::from("mod"), line: 9, error: String::from("oops") })
    );
    assert_eq!(interpret_result(RunStatus::Success, &Vec::new()), Ok(()));
}

#[test]
fn foreign_send_error_descriptions() {
    assert_eq!(ForeignSendError::NoForeignClass.describe(), "no foreign class");
    assert_eq!(ForeignSendError::NoWrenClass.describe(), "no Wren class");
    assert_eq!(ForeignSendError::NoMemory.describe(), "unable to allocate memory");
    assert_eq!(ForeignSendError::ClassMismatch.describe(), "class mismatch");
}

#[test]
fn compile_error_display() {
    let e = VMError::Compile {
        module: String::from("main"),
        line: -1,
        error: String::from("eof"),
    };
    assert_eq!(e.display_string(), "Compile Error (main:-1): eof");
}

#[test]
fn runtime_error_display_names_constructor_frames() {
    let e = VMError::Runtime {
        error: String::from("boom"),
        frames: vec![
            VMStackFrameError { module: String::from("main"), line: 3, function: String::new() },
            VMStackFrameError {
                module: String::from("main"),
                line: 12,
                function: String::from("go()"),
            },
        ],
    };
    assert_eq!(
        e.display_string(),
        "Runtime Error: boom\n\tin main:3: <constructor>\n\tin main:12: go()\n"
    );
}

#[test]
fn decimal_rendering() {
    assert_eq!(ruwren::fmtnum::int_string(0), "0");
    assert_eq!(ruwren::fmtnum::int_string(7), "7");
    assert_eq!(ruwren::fmtnum::int_string(1234567), "1234567");
    assert_eq!(ruwren::fmtnum::int_string(-12), "-12");
    assert_eq!(ruwren::fmtnum::int_string(i32::MIN), "-2147483648");
    assert_eq!(ruwren::fmtnum::int_string(i32::MAX), "2147483647");
}

#[test]
fn relative_import_rewrites_only_marked_names() {
    assert_eq!(
        ruwren::resolve::canonicalize_module_name("game/engine", "@sprites"),
        "game/engine/sprites"
    );
    assert_eq!(
        ruwren::resolve::canonicalize_module_name("game/engine", "sprites"),
        "sprites"
    );
    // only a single leading marker is significant
    assert_eq!(ruwren::resolve::canonicalize_module_name("m", "@@x"), "m/@x");
    assert_eq!(ruwren::resolve::canonicalize_module_name("m", "@"), "m/");
}

#[test]
fn print_routes_to_sink_in_order() {
    let mut vm = VMConfig::new().build();
    vm.on_print("Hello, ");
    vm.on_print("world!\n");
    assert_eq!(vm.printed(), &vec![String::from("Hello, "), String::from("world!\n")]);
}
