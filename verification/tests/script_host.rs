use script_bridge::params::unpack;
use script_bridge::wasm_interpreter::{CallError, LoadError, WasmInterpreter};
use script_bridge::{call_script_function, load_script};

fn host() -> WasmInterpreter {
    WasmInterpreter::new()
}

#[test]
fn load_empty_module_and_call_init() {
    let mut w = host();
    assert_eq!(w.load_script("(module (func (export \"init\")))"), Ok(()));
    assert_eq!(w.call_void_method(&String::from("init")), Ok(()));
    // the same module has no `update` export
    match w.call_void_method(&String::from("update")) {
        Err(e @ CallError::MissingExport) => assert_eq!(e.message(), "export not found"),
        other => panic!("expected a missing export, got {:?}", other),
    }
}

#[test]
fn missing_export_on_fresh_module_is_an_error() {
    let mut w = host();
    assert_eq!(w.load_script("(module)"), Ok(()));
    assert_eq!(
        w.call_void_method(&String::from("nonexistent")),
        Err(CallError::MissingExport)
    );
}

#[test]
fn call_without_a_loaded_module_is_an_error() {
    let mut w = host();
    assert_eq!(w.call_init(), Err(CallError::NoScript));
}

#[test]
fn parse_error_leaves_host_unloaded() {
    let mut w = host();
    assert_eq!(w.load_script("(module (func (export \"init\")))"), Ok(()));
    match w.load_script("this is not a module") {
        Err(LoadError::Parse(_)) => {}
        other => panic!("expected a parse error, got {:?}", other),
    }
    // the earlier module was discarded by the failed load
    assert_eq!(w.call_init(), Err(CallError::NoScript));
}

#[test]
fn reload_leaves_only_the_new_exports_callable() {
    let mut w = host();
    assert_eq!(w.load_script("(module (func (export \"alpha\")))"), Ok(()));
    assert_eq!(w.call_void_method(&String::from("alpha")), Ok(()));
    assert_eq!(w.load_script("(module (func (export \"beta\")))"), Ok(()));
    assert_eq!(
        w.call_void_method(&String::from("alpha")),
        Err(CallError::MissingExport)
    );
    assert_eq!(w.call_void_method(&String::from("beta")), Ok(()));
}

#[test]
fn unbounded_loop_is_cut_off() {
    let mut w = host();
    assert_eq!(
        w.load_script("(module (func (export \"init\") (loop br 0)))"),
        Ok(())
    );
    match w.call_init() {
        Err(CallError::Trap(_)) => {}
        other => panic!("expected the engine to cut the loop off, got {:?}", other),
    }
    // later calls are unaffected
    assert_eq!(w.call_void_method(&String::from("missing")), Err(CallError::MissingExport));
}

#[test]
fn non_void_exports_are_not_callable() {
    let mut w = host();
    assert_eq!(
        w.load_script("(module (func (export \"answer\") (result i32) (i32.const 4)))"),
        Ok(())
    );
    assert_eq!(
        w.call_void_method(&String::from("answer")),
        Err(CallError::MissingExport)
    );
}

#[test]
fn guest_creates_and_adds_a_note_through_bindings() {
    let source = "(module\n\
        (import \"env\" \"_create_color_note\" (func $create (param i32) (result externref)))\n\
        (import \"env\" \"_beatmap_add_color_note\" (func $add (param externref externref) (result i32)))\n\
        (global $beatmap (import \"env\" \"_beatmap\") externref)\n\
        (func (export \"init\")\n\
            (drop (call $add (global.get $beatmap) (call $create (i32.const 42))))))";
    let mut w = host();
    assert_eq!(w.load_script(source), Ok(()));
    assert_eq!(w.call_init(), Ok(()));
    let handles = w.snapshot_handles();
    assert_eq!(handles.len(), 2);
    assert_eq!(handles.beatmap_note_count(), 1);
}

#[test]
fn guest_call_with_wrong_handle_type_is_isolated() {
    // the arguments are swapped: the note where the beatmap belongs
    let source = "(module\n\
        (import \"env\" \"_create_color_note\" (func $create (param i32) (result externref)))\n\
        (import \"env\" \"_beatmap_add_color_note\" (func $add (param externref externref) (result i32)))\n\
        (global $beatmap (import \"env\" \"_beatmap\") externref)\n\
        (func (export \"init\")\n\
            (drop (call $add (call $create (i32.const 1)) (global.get $beatmap)))))";
    let mut w = host();
    assert_eq!(w.load_script(source), Ok(()));
    // the binding reports the mismatch to the guest; nothing traps
    assert_eq!(w.call_init(), Ok(()));
    let handles = w.snapshot_handles();
    assert_eq!(handles.beatmap_note_count(), 0);
}

#[test]
fn guest_start_routine_runs_on_load() {
    let source = "(module\n\
        (import \"env\" \"_create_color_note\" (func $create (param i32) (result externref)))\n\
        (func $main (drop (call $create (i32.const 3))))\n\
        (start $main))";
    let mut w = host();
    assert_eq!(w.load_script(source), Ok(()));
    assert_eq!(w.snapshot_handles().len(), 2);
}

#[test]
fn boundary_load_reports_before_initialization() {
    let mut none: Option<WasmInterpreter> = None;
    let outcome = unpack(load_script(&mut none, "(module)")).unwrap();
    assert_eq!(outcome.values.len(), 1);
}

#[test]
fn boundary_load_and_call_report_outcomes_as_lists() {
    let mut slot = Some(host());
    let ok = unpack(load_script(&mut slot, "(module (func (export \"init\")))")).unwrap();
    assert_eq!(ok.values.len(), 0);

    let ok_call = unpack(call_script_function(&mut slot, &String::from("init"))).unwrap();
    assert_eq!(ok_call.values.len(), 0);

    let bad_call = unpack(call_script_function(&mut slot, &String::from("update"))).unwrap();
    assert_eq!(bad_call.values.len(), 1);

    let bad_load = unpack(load_script(&mut slot, "broken")).unwrap();
    assert_eq!(bad_load.values.len(), 1);
}

#[test]
fn unresolved_import_fails_instantiation() {
    let mut w = host();
    match w.load_script("(module (import \"env\" \"no_such_binding\" (func)))") {
        Err(LoadError::Instantiate(_)) => {}
        other => panic!("expected an instantiation error, got {:?}", other),
    }
    assert_eq!(w.call_init(), Err(CallError::NoScript));
}

#[test]
fn rejected_binary_fails_compilation() {
    // two linear memories parse as text but exceed the engine's strict limits
    let mut w = host();
    match w.load_script("(module (memory 1) (memory 1))") {
        Err(LoadError::Compile(_)) | Err(LoadError::Parse(_)) => {}
        other => panic!("expected the engine or parser to reject this, got {:?}", other),
    }
    assert_eq!(w.call_init(), Err(CallError::NoScript));
}

#[test]
fn trapping_export_reports_a_trap() {
    let mut w = host();
    assert_eq!(w.load_script("(module (func (export \"init\") unreachable))"), Ok(()));
    match w.call_init() {
        Err(CallError::Trap(_)) => {}
        other => panic!("expected a trap, got {:?}", other),
    }
}
