use script_bridge::handles::{BindingError, HandleStore, HandleValue};
use script_bridge::params::{ParamValue, ParameterList};
use script_bridge::registry::{FunctionRegistry, NativeCallable};

#[test]
fn register_override_keeps_second() {
    let mut reg = FunctionRegistry::new();
    let first = NativeCallable { token: 11, signature: 1 };
    let second = NativeCallable { token: 22, signature: 2 };
    reg.register(String::from("cs_print"), first);
    reg.register(String::from("cs_print"), second);
    assert_eq!(reg.lookup(&String::from("cs_print")), Some(second));
}

#[test]
fn lookup_missing_name_is_none() {
    let reg = FunctionRegistry::new();
    assert_eq!(reg.lookup(&String::from("absent")), None);
}

#[test]
fn lookup_distinguishes_names() {
    let mut reg = FunctionRegistry::new();
    let a = NativeCallable { token: 1, signature: 10 };
    let b = NativeCallable { token: 2, signature: 20 };
    reg.register(String::from("a"), a);
    reg.register(String::from("b"), b);
    assert_eq!(reg.lookup(&String::from("a")), Some(a));
    assert_eq!(reg.lookup(&String::from("b")), Some(b));
}

#[test]
fn prepare_invoke_packs_arguments() {
    let mut reg = FunctionRegistry::new();
    let c = NativeCallable { token: 5, signature: 3 };
    reg.register(String::from("create_note"), c);
    let mut args = ParameterList::new();
    args.push(ParamValue::FloatBits(2.0f32.to_bits()));
    let (callable, packed) = reg.prepare_invoke(&String::from("create_note"), &args).unwrap();
    assert_eq!(callable, c);
    assert_eq!(packed.bytes, args.pack().bytes);
}

#[test]
fn prepare_invoke_missing_name_is_none() {
    let reg = FunctionRegistry::new();
    let args = ParameterList::new();
    assert!(reg.prepare_invoke(&String::from("ghost_fn"), &args).is_none());
}

#[test]
fn fresh_store_holds_only_the_beatmap() {
    let store = HandleStore::new();
    assert_eq!(store.len(), 1);
    assert_eq!(store.beatmap_note_count(), 0);
}

#[test]
fn create_and_add_note() {
    let mut store = HandleStore::new();
    let note = store.create_color_note(1.25f32.to_bits());
    assert_eq!(note, 1);
    assert_eq!(store.add_color_note(Some(0), Some(note)), Ok(()));
    assert_eq!(store.beatmap_note_count(), 1);
    match store.get(note) {
        Some(HandleValue::ColorNote(n)) => assert_eq!(n.beat_bits, 1.25f32.to_bits()),
        _ => panic!("note handle must stay a note"),
    }
}

#[test]
fn add_with_null_handle_is_reported() {
    let mut store = HandleStore::new();
    let note = store.create_color_note(0);
    assert_eq!(store.add_color_note(None, Some(note)), Err(BindingError::NullHandle));
    assert_eq!(store.add_color_note(Some(0), None), Err(BindingError::NullHandle));
    assert_eq!(store.beatmap_note_count(), 0);
}

#[test]
fn add_with_unknown_handle_is_reported() {
    let mut store = HandleStore::new();
    assert_eq!(store.add_color_note(Some(0), Some(9)), Err(BindingError::UnknownHandle));
    assert_eq!(store.beatmap_note_count(), 0);
}

#[test]
fn add_with_wrong_concrete_type_is_isolated() {
    let mut store = HandleStore::new();
    let note = store.create_color_note(7);
    // the note handle where the beatmap belongs, and the other way round
    assert_eq!(store.add_color_note(Some(note), Some(0)), Err(BindingError::TypeMismatch));
    assert_eq!(store.add_color_note(Some(0), Some(0)), Err(BindingError::TypeMismatch));
    // nothing was read or written through the wrong handle
    assert_eq!(store.len(), 2);
    assert_eq!(store.beatmap_note_count(), 0);
    match store.get(note) {
        Some(HandleValue::ColorNote(n)) => assert_eq!(n.beat_bits, 7),
        _ => panic!("note handle must stay a note"),
    }
}

#[test]
fn error_codes_name_each_rejection() {
    let mut store = HandleStore::new();
    let note = store.create_color_note(0);
    assert_eq!(store.add_color_note_code(Some(0), Some(note)), 0);
    assert_eq!(store.add_color_note_code(None, Some(note)), 1);
    assert_eq!(store.add_color_note_code(Some(0), Some(99)), 2);
    assert_eq!(store.add_color_note_code(Some(note), Some(0)), 3);
}
