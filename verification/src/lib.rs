//! An in-process bridge between a statically compiled host application and
//! small sandboxed guest scripts.
//!
//! The crate has four parts: a tagged marshaling protocol for argument lists
//! crossing a native call boundary (`params`), a dynamic name-to-callable
//! registry (`registry`), a store of typed handles exposed to guest code
//! (`handles`), and the guest script host that loads and drives a sandboxed
//! module (`wasm_interpreter`).
//!
//! The boundary functions here return their outcome as a packed parameter
//! list, as the native calling convention asks: an empty list on success,
//! a one-element text list carrying the error otherwise.

use vstd::prelude::*;

pub mod handles;
pub mod params;
pub mod registry;
pub mod wasm_interpreter;

use params::{ParamValue, ParamVal, ParameterList, PackedBuffer, spec_encode, spec_decode};
use wasm_interpreter::WasmInterpreter;
use vstd::string::StringExecFns;

verus! {

/// The error reported when a boundary call arrives before the script host
/// was initialized.
pub open spec fn not_loaded_message() -> Seq<char> {
    "WASM interpreter is not loaded"@
}

/// Packs a successful outcome: the empty parameter list.
fn pack_ok() -> (r: PackedBuffer)
    ensures
        r@ == spec_encode(Seq::<ParamVal>::empty()),
        spec_decode(r@) == Some(Seq::<ParamVal>::empty()),
{
    let r = ParameterList::new().pack();
    proof {
        params::lemma_round_trip(Seq::<ParamVal>::empty());
    }
    r
}

/// Packs a failed outcome: a one-element list holding the error text.
fn pack_error(message: String) -> (r: PackedBuffer)
    ensures
        r@ == spec_encode(seq![ParamVal::Text(message@)]),
        spec_decode(r@) == Some(seq![ParamVal::Text(message@)]),
{
    let mut list = ParameterList::new();
    list.push(ParamValue::Text(message));
    proof {
        assert(list@ =~= seq![ParamVal::Text(message@)]);
    }
    let r = list.pack();
    proof {
        params::lemma_round_trip(list@);
    }
    r
}

/// Loads a guest module from its text-format source into the host, replacing
/// whatever was loaded before. The outcome crosses the boundary as a packed
/// list: empty on success, one text value otherwise; the host ends up with a
/// module loaded exactly when the list is empty.
pub fn load_script(host: &mut Option<WasmInterpreter>, source: &str) -> (r: PackedBuffer)
    requires
        (*old(host)) matches Some(w) ==> w.wf(),
    ensures
        (*final(host)) matches Some(w) ==> w.wf(),
        (*old(host)) is None ==> ((*final(host)) is None && r@ == spec_encode(
            seq![ParamVal::Text(not_loaded_message())],
        )),
        (*old(host)) is Some ==> (*final(host)) is Some,
        (*old(host)) is Some ==> ((r@ == spec_encode(Seq::<ParamVal>::empty())) <==> (*old(
            host,
        )).unwrap().load_ok(source@)),
        (*old(host)) is Some ==> ((r@ == spec_encode(Seq::<ParamVal>::empty())) <==> (*final(host)).unwrap().loaded()),
        (*old(host)) is Some && !wasm_interpreter::wat_ok(source@) ==> !(*final(host)).unwrap().loaded(),
        r@ == spec_encode(Seq::<ParamVal>::empty()) || (exists|m: Seq<char>|
            r@ == spec_encode(#[trigger] seq![ParamVal::Text(m)]) && spec_decode(r@) == Some(
                seq![ParamVal::Text(m)],
            )),
        spec_decode(r@) is Some,
{
    match host {
        None => pack_error(String::from_str("WASM interpreter is not loaded")),
        Some(w) => match w.load_script(source) {
            Ok(()) => pack_ok(),
            Err(e) => {
                let r = pack_error(e.message());
                proof {
                    lemma_encodings_differ(e.spec_message());
                }
                r
            },
        },
    }
}

/// Invokes an exported guest function with no parameters and no results on
/// the loaded module. The outcome crosses the boundary as a packed list:
/// empty on success, one text value otherwise.
pub fn call_script_function(host: &mut Option<WasmInterpreter>, name: &String) -> (r: PackedBuffer)
    requires
        (*old(host)) matches Some(w) ==> w.wf(),
    ensures
        (*final(host)) matches Some(w) ==> w.wf(),
        (*old(host)) is None ==> ((*final(host)) is None && r@ == spec_encode(
            seq![ParamVal::Text(not_loaded_message())],
        )),
        (*old(host)) is Some ==> ((*final(host)) is Some && (*final(host)).unwrap().loaded() == (*old(host)).unwrap().loaded()
            && (*final(host)).unwrap().exports() == (*old(host)).unwrap().exports()),
        (*old(host)) is Some && !(*old(host)).unwrap().loaded() ==> r@ != spec_encode(
            Seq::<ParamVal>::empty(),
        ),
        (*old(host)) is Some && (*old(host)).unwrap().loaded() && !(*old(host)).unwrap().exports().contains(
            name@,
        ) ==> r@ != spec_encode(Seq::<ParamVal>::empty()),
        (*old(host)) is Some && (*old(host)).unwrap().loaded() && (*old(
            host,
        )).unwrap().exports().contains(name@) ==> ((r@ == spec_encode(Seq::<ParamVal>::empty()))
            <==> (*old(host)).unwrap().call_ok_for(name@)),
        r@ == spec_encode(Seq::<ParamVal>::empty()) || (exists|m: Seq<char>|
            r@ == spec_encode(#[trigger] seq![ParamVal::Text(m)]) && spec_decode(r@) == Some(
                seq![ParamVal::Text(m)],
            )),
        spec_decode(r@) is Some,
{
    match host {
        None => pack_error(String::from_str("WASM interpreter is not loaded")),
        Some(w) => match w.call_void_method(name) {
            Ok(()) => pack_ok(),
            Err(e) => {
                let r = pack_error(e.message());
                proof {
                    lemma_encodings_differ(e.spec_message());
                }
                r
            },
        },
    }
}

/// A one-element text list never packs to the same bytes as the empty list.
proof fn lemma_encodings_differ(message: Seq<char>)
    ensures
        spec_encode(seq![ParamVal::Text(message)]) != spec_encode(Seq::<ParamVal>::empty()),
{
    vstd::bytes::lemma_auto_spec_u64_to_from_le_bytes();
    let a = spec_encode(seq![ParamVal::Text(message)]);
    let b = spec_encode(Seq::<ParamVal>::empty());
    if a == b {
        assert(a.take(8) =~= vstd::bytes::spec_u64_to_le_bytes(1u64));
        assert(b.take(8) =~= vstd::bytes::spec_u64_to_le_bytes(0u64));
        assert(vstd::bytes::spec_u64_from_le_bytes(a.take(8)) == 1u64);
        assert(vstd::bytes::spec_u64_from_le_bytes(b.take(8)) == 0u64);
    }
}

} // verus!
