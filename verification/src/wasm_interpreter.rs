//! The guest script host: owns the script engine, the execution store, the
//! linker and the currently loaded module, and drives the guest's lifecycle.
//!
//! The engine is built under fuel metering and strict structural limits, so a
//! misbehaving guest is cut off instead of hanging the host. Capability
//! bindings are installed once, at construction; each one hands plain handle
//! identifiers to the verified operations of `crate::handles`. Loading a new
//! module always discards the previous one, so after a successful load only
//! the new module's exports are callable.

use vstd::prelude::*;
use vstd::string::StringExecFns;
use crate::handles::{HandleStore, HandleVal, ColorNote, BEATMAP_HANDLE};

verus! {

/// The data owned by the guest execution store: the capability handle store.
pub struct HostData {
    /// The handles reachable from guest code.
    pub handles: HandleStore,
}

/// The payload minted into every external reference handed to the guest: the
/// index of an entry of the handle store.
#[derive(Clone, Copy, PartialEq, Eq, Structural, Debug)]
pub struct HandleId(pub usize);

/// The shape of one export of a compiled module.
#[derive(Clone, Copy, PartialEq, Eq, Structural, Debug)]
pub enum ExportKind {
    /// A function with this many parameters and results.
    Func { params: usize, results: usize },
    /// A global value.
    Global,
    /// A linear memory.
    Memory,
    /// A table.
    Table,
}

/// One export of a compiled module, as read off the module's metadata.
#[derive(Clone, PartialEq, Eq, Debug)]
pub struct ExportEntry {
    /// The export's name.
    pub name: String,
    /// The export's shape.
    pub kind: ExportKind,
}

/// The model of one export.
#[verifier::ext_equal]
pub struct ExportDesc {
    pub name: Seq<char>,
    pub kind: ExportKind,
}

impl View for ExportEntry {
    type V = ExportDesc;

    open spec fn view(&self) -> ExportDesc {
        ExportDesc { name: self.name@, kind: self.kind }
    }
}

impl DeepView for ExportEntry {
    type V = ExportDesc;

    open spec fn deep_view(&self) -> ExportDesc {
        self.view()
    }
}

/// Whether the text-format source parses; parsing is a pure function of the
/// source text.
pub uninterp spec fn wat_ok(source: Seq<char>) -> bool;

/// The binary a well-formed text-format source translates to.
pub uninterp spec fn wat_binary(source: Seq<char>) -> Seq<u8>;

/// The exports a compiled module carries.
pub uninterp spec fn module_exports(m: wasmi::Module) -> Seq<ExportDesc>;

/// The exports declared in a binary module; a pure function of the binary.
pub uninterp spec fn binary_exports(bytes: Seq<u8>) -> Seq<ExportDesc>;

/// The handle store a guest execution store owns.
pub uninterp spec fn store_handles(s: wasmi::Store<HostData>) -> Seq<HandleVal>;

/// Whether the engine was built with fuel metering enabled.
pub uninterp spec fn engine_metered(e: wasmi::Engine) -> bool;

/// The engine a store was created against.
pub uninterp spec fn store_engine(s: wasmi::Store<HostData>) -> wasmi::Engine;

/// Whether the store's engine meters fuel.
pub uninterp spec fn fuel_metered(s: wasmi::Store<HostData>) -> bool;

/// The store as it stands after its fuel budget is set to `fuel`.
pub uninterp spec fn refueled(s: wasmi::Store<HostData>, fuel: u64) -> wasmi::Store<HostData>;

/// The engine a linker was created against.
pub uninterp spec fn linker_engine(l: wasmi::Linker<HostData>) -> wasmi::Engine;

/// The import names defined in a linker; all of this host's bindings live
/// under the `env` namespace, so the name alone identifies a definition.
pub uninterp spec fn linker_defs(l: wasmi::Linker<HostData>) -> Set<Seq<char>>;

/// Whether the engine's validation and enforced limits accept the binary;
/// compilation is deterministic in the engine's fixed configuration and the
/// bytes.
pub uninterp spec fn compiles(e: wasmi::Engine, bytes: Seq<u8>) -> bool;

/// The module a successful compilation yields.
pub uninterp spec fn compiled(e: wasmi::Engine, bytes: Seq<u8>) -> wasmi::Module;

/// The engine a module was compiled against.
pub uninterp spec fn module_engine(m: wasmi::Module) -> wasmi::Engine;

/// Whether instantiating the module against the linker's definitions in this
/// store, start routine included, succeeds; the engine executes
/// deterministically, so the outcome is a function of the three values.
pub uninterp spec fn instantiates(
    l: wasmi::Linker<HostData>,
    s: wasmi::Store<HostData>,
    m: wasmi::Module,
) -> bool;

/// The instance a successful instantiation yields.
pub uninterp spec fn instance_of(
    l: wasmi::Linker<HostData>,
    s: wasmi::Store<HostData>,
    m: wasmi::Module,
) -> wasmi::Instance;

/// Whether the store owns the instance.
pub uninterp spec fn owns_instance(s: wasmi::Store<HostData>, i: wasmi::Instance) -> bool;

/// Whether the instance exports `name` as a function taking and returning
/// nothing.
pub uninterp spec fn finds_void(
    s: wasmi::Store<HostData>,
    i: wasmi::Instance,
    name: Seq<char>,
) -> bool;

/// The typed handle such a lookup yields.
pub uninterp spec fn void_func_of(
    s: wasmi::Store<HostData>,
    i: wasmi::Instance,
    name: Seq<char>,
) -> wasmi::TypedFunc<(), ()>;

/// Whether the store owns the typed function.
pub uninterp spec fn owns_func(s: wasmi::Store<HostData>, f: wasmi::TypedFunc<(), ()>) -> bool;

/// Whether running the function in this store completes without a trap and
/// within the store's fuel budget; execution is deterministic, so the
/// outcome is a function of the two values.
pub uninterp spec fn call_ok(s: wasmi::Store<HostData>, f: wasmi::TypedFunc<(), ()>) -> bool;

/// The store as the run leaves it, whether it completed or trapped.
pub uninterp spec fn store_after_call(
    s: wasmi::Store<HostData>,
    f: wasmi::TypedFunc<(), ()>,
) -> wasmi::Store<HostData>;

#[verifier::external_type_specification]
#[verifier::external_body]
pub struct ExEngine(wasmi::Engine);

#[verifier::external_type_specification]
#[verifier::external_body]
#[verifier::reject_recursive_types(T)]
pub struct ExStore<T>(wasmi::Store<T>);

#[verifier::external_type_specification]
#[verifier::external_body]
#[verifier::reject_recursive_types(T)]
pub struct ExLinker<T>(wasmi::Linker<T>);

#[verifier::external_type_specification]
#[verifier::external_body]
pub struct ExModule(wasmi::Module);

#[verifier::external_type_specification]
#[verifier::external_body]
pub struct ExInstance(wasmi::Instance);

#[verifier::external_type_specification]
#[verifier::external_body]
#[verifier::reject_recursive_types(Params)]
#[verifier::reject_recursive_types(Results)]
pub struct ExTypedFunc<Params, Results>(wasmi::TypedFunc<Params, Results>);

#[verifier::external_type_specification]
#[verifier::external_body]
pub struct ExExternRef(wasmi::ExternRef);

#[verifier::external_type_specification]
#[verifier::external_body]
#[verifier::reject_recursive_types(T)]
pub struct ExNullable<T>(wasmi::Nullable<T>);

#[verifier::external_type_specification]
#[verifier::external_body]
#[verifier::reject_recursive_types(T)]
pub struct ExCaller<'a, T>(wasmi::Caller<'a, T>);

/// Relies on `wat::parse_str`: translating the text format to the binary
/// format succeeds or fails, and yields its binary, as a pure function of
/// the source text.
#[verifier::external_body]
fn parse_wat(source: &str) -> (r: Result<Vec<u8>, String>)
    ensures
        r is Ok <==> wat_ok(source@),
        r matches Ok(b) ==> b@ == wat_binary(source@),
{
    wat::parse_str(source).map_err(|e| e.to_string())
}

/// Relies on `wasmi::Config` and `wasmi::Engine::new`: builds the engine
/// with fuel metering on and strict enforced limits, so guest work is
/// bounded by the fuel the host grants.
#[verifier::external_body]
fn new_engine() -> (r: wasmi::Engine)
    ensures
        engine_metered(r),
{
    let mut config = wasmi::Config::default();
    config.consume_fuel(true);
    config.enforced_limits(wasmi::EnforcedLimits::strict());
    wasmi::Engine::new(&config)
}

/// Relies on `wasmi::Store::new`: the new store owns exactly the data it is
/// given.
#[verifier::external_body]
fn new_store(engine: &wasmi::Engine, data: HostData) -> (r: wasmi::Store<HostData>)
    ensures
        store_handles(r) == data.handles@,
        store_engine(r) == *engine,
        fuel_metered(r) == engine_metered(*engine),
{
    wasmi::Store::new(engine, data)
}

/// Relies on `wasmi::Linker::new`: a fresh linker holds no definitions.
#[verifier::external_body]
fn new_linker(engine: &wasmi::Engine) -> (r: wasmi::Linker<HostData>)
    ensures
        linker_engine(r) == *engine,
        linker_defs(r) == Set::<Seq<char>>::empty(),
{
    <wasmi::Linker<HostData>>::new(engine)
}

/// Relies on `wasmi::Store::data`: hands back the handle store the execution
/// store owns.
#[verifier::external_body]
fn read_handles(store: &wasmi::Store<HostData>) -> (r: &HandleStore)
    ensures
        r@ == store_handles(*store),
{
    &store.data().handles
}

/// Relies on `wasmi::ExternRef::new`, `wasmi::Global::new` and
/// `wasmi::Linker::define`: exposes the beatmap aggregate's handle to the
/// guest as the immutable global `_beatmap`. Defining fails exactly on a
/// duplicate name (the linker forbids shadowing and is otherwise unchanged);
/// allocating the reference and the global does not touch the store's own
/// data.
#[verifier::external_body]
fn define_beatmap_global(
    linker: &mut wasmi::Linker<HostData>,
    store: &mut wasmi::Store<HostData>,
) -> (r: Result<(), String>)
    ensures
        store_handles(*final(store)) == store_handles(*old(store)),
        store_engine(*final(store)) == store_engine(*old(store)),
        fuel_metered(*final(store)) == fuel_metered(*old(store)),
        linker_engine(*final(linker)) == linker_engine(*old(linker)),
        (r is Ok) <==> !linker_defs(*old(linker)).contains("_beatmap"@),
        r is Ok ==> linker_defs(*final(linker)) == linker_defs(*old(linker)).insert("_beatmap"@),
        r is Err ==> linker_defs(*final(linker)) == linker_defs(*old(linker)),
{
    let handle = wasmi::ExternRef::new(&mut *store, HandleId(BEATMAP_HANDLE));
    let global = wasmi::Global::new(
        &mut *store,
        wasmi::Val::ExternRef(wasmi::Nullable::Val(handle)),
        wasmi::Mutability::Const,
    );
    linker.define("env", "_beatmap", global).map(|_| ()).map_err(|e| e.to_string())
}

/// Relies on `wasmi::ExternRef::data`: reads the handle identifier minted
/// into an external reference; a null or foreign reference reads as nothing.
#[verifier::external_body]
fn ref_to_handle(
    caller: &wasmi::Caller<'_, HostData>,
    r: &wasmi::Nullable<wasmi::ExternRef>,
) -> (h: Option<usize>) {
    match r.val() {
        Some(er) => er.data(caller).downcast_ref::<HandleId>().map(|id| id.0),
        None => None,
    }
}

/// Relies on `wasmi::Linker::func_wrap`: exposes `_create_color_note` to the
/// guest. The installed closure only calls the verified
/// `HandleStore::create_color_note` and mints the returned index as a fresh
/// external reference; its argument is the bit pattern of the note's 32-bit
/// beat value.
#[verifier::external_body]
fn define_create_color_note(linker: &mut wasmi::Linker<HostData>) -> (r: Result<(), String>)
    ensures
        linker_engine(*final(linker)) == linker_engine(*old(linker)),
        (r is Ok) <==> !linker_defs(*old(linker)).contains("_create_color_note"@),
        r is Ok ==> linker_defs(*final(linker)) == linker_defs(*old(linker)).insert(
            "_create_color_note"@,
        ),
        r is Err ==> linker_defs(*final(linker)) == linker_defs(*old(linker)),
{
    linker.func_wrap(
        "env",
        "_create_color_note",
        |mut caller: wasmi::Caller<'_, HostData>, beat_bits: i32| {
            let h = caller.data_mut().handles.create_color_note(beat_bits as u32);
            wasmi::Nullable::Val(wasmi::ExternRef::new(&mut caller, HandleId(h)))
        },
    ).map(|_| ()).map_err(|e| e.to_string())
}

/// Relies on `wasmi::Linker::func_wrap`: exposes `_beatmap_add_color_note`.
/// The installed closure decodes the two handles and hands them to the
/// verified `HandleStore::add_color_note_code`, whose result code it reports
/// back to the guest.
#[verifier::external_body]
fn define_add_color_note(linker: &mut wasmi::Linker<HostData>) -> (r: Result<(), String>)
    ensures
        linker_engine(*final(linker)) == linker_engine(*old(linker)),
        (r is Ok) <==> !linker_defs(*old(linker)).contains("_beatmap_add_color_note"@),
        r is Ok ==> linker_defs(*final(linker)) == linker_defs(*old(linker)).insert(
            "_beatmap_add_color_note"@,
        ),
        r is Err ==> linker_defs(*final(linker)) == linker_defs(*old(linker)),
{
    linker.func_wrap(
        "env",
        "_beatmap_add_color_note",
        |mut caller: wasmi::Caller<'_, HostData>,
         beatmap: wasmi::Nullable<wasmi::ExternRef>,
         note: wasmi::Nullable<wasmi::ExternRef>| -> i32 {
            let bh = ref_to_handle(&caller, &beatmap);
            let nh = ref_to_handle(&caller, &note);
            caller.data_mut().handles.add_color_note_code(bh, nh)
        },
    ).map(|_| ()).map_err(|e| e.to_string())
}

/// Relies on `wasmi::Module::new`: compiles and validates the binary against
/// the engine's enforced limits. The exports of a successfully compiled
/// module are a function of the binary alone.
#[verifier::external_body]
fn compile_module(engine: &wasmi::Engine, bytes: &Vec<u8>) -> (r: Result<wasmi::Module, String>)
    ensures
        (r is Ok) <==> compiles(*engine, bytes@),
        r matches Ok(m) ==> m == compiled(*engine, bytes@) && module_engine(m) == *engine
            && module_exports(m) == binary_exports(bytes@),
{
    wasmi::Module::new(engine, bytes.as_slice()).map_err(|e| e.to_string())
}

/// Relies on `wasmi::Module::exports`: lists each export's name and shape,
/// converting a function's type to its parameter and result counts.
#[verifier::external_body]
fn module_export_list(m: &wasmi::Module) -> (r: Vec<ExportEntry>)
    ensures
        r.deep_view() == module_exports(*m),
{
    let mut out = Vec::new();
    for e in m.exports() {
        let kind = match e.ty() {
            wasmi::ExternType::Func(ft) => ExportKind::Func {
                params: ft.params().len(),
                results: ft.results().len(),
            },
            wasmi::ExternType::Global(_) => ExportKind::Global,
            wasmi::ExternType::Memory(_) => ExportKind::Memory,
            wasmi::ExternType::Table(_) => ExportKind::Table,
        };
        out.push(ExportEntry { name: e.name().to_string(), kind });
    }
    out
}

/// Relies on `wasmi::Linker::instantiate_and_start`: resolves the module's
/// imports against the installed bindings, instantiates it and runs its
/// start routine under the current fuel budget; the outcome is deterministic
/// in the three values. The linker, the store and the module must come from
/// one engine (it panics otherwise), which the `requires` demands. The start
/// routine may call bindings, so nothing is assumed of the store's data
/// afterwards; instances the store already owned stay owned.
#[verifier::external_body]
fn instantiate_and_start(
    linker: &wasmi::Linker<HostData>,
    store: &mut wasmi::Store<HostData>,
    module: &wasmi::Module,
) -> (r: Result<wasmi::Instance, String>)
    requires
        linker_engine(*linker) == store_engine(*old(store)),
        module_engine(*module) == store_engine(*old(store)),
    ensures
        (r is Ok) <==> instantiates(*linker, *old(store), *module),
        r matches Ok(i) ==> i == instance_of(*linker, *old(store), *module) && owns_instance(
            *final(store),
            i,
        ),
        store_engine(*final(store)) == store_engine(*old(store)),
        fuel_metered(*final(store)) == fuel_metered(*old(store)),
        forall|i: wasmi::Instance| #[trigger]
            owns_instance(*old(store), i) ==> owns_instance(*final(store), i),
{
    linker.instantiate_and_start(&mut *store, module).map_err(|e| e.to_string())
}

/// Relies on `wasmi::Store::set_fuel`: refills the execution budget. It
/// succeeds exactly when the store's engine meters fuel, touches nothing but
/// the fuel counter, and is deterministic in the store value and the
/// budget.
#[verifier::external_body]
fn set_fuel(store: &mut wasmi::Store<HostData>, fuel: u64) -> (r: Result<(), String>)
    ensures
        (r is Ok) <==> fuel_metered(*old(store)),
        r is Ok ==> *final(store) == refueled(*old(store), fuel),
        r is Err ==> *final(store) == *old(store),
        store_handles(*final(store)) == store_handles(*old(store)),
        store_engine(*final(store)) == store_engine(*old(store)),
        fuel_metered(*final(store)) == fuel_metered(*old(store)),
        forall|i: wasmi::Instance|
            owns_instance(*final(store), i) == #[trigger] owns_instance(*old(store), i),
{
    store.set_fuel(fuel).map_err(|e| e.to_string())
}

/// Relies on `wasmi::Instance::get_typed_func`: resolves an export with no
/// parameters and no results on the instance; the lookup is deterministic.
/// The store must own the instance (it panics otherwise), which the
/// `requires` demands.
#[verifier::external_body]
fn get_void_func(
    store: &wasmi::Store<HostData>,
    instance: &wasmi::Instance,
    name: &str,
) -> (r: Result<wasmi::TypedFunc<(), ()>, String>)
    requires
        owns_instance(*store, *instance),
    ensures
        (r is Ok) <==> finds_void(*store, *instance, name@),
        r matches Ok(f) ==> f == void_func_of(*store, *instance, name@) && owns_func(*store, f),
{
    instance.get_typed_func::<(), ()>(store, name).map_err(|e| e.to_string())
}

/// Relies on `wasmi::TypedFunc::call`: runs the guest function to
/// completion, to a trap, or until the fuel budget is exhausted; execution
/// is deterministic in the store value and the function. The store must own
/// the function (it panics otherwise), which the `requires` demands. The
/// guest may call bindings, so nothing is assumed of the store's data
/// afterwards; the instances the store owned stay owned.
#[verifier::external_body]
fn call_void_func(
    store: &mut wasmi::Store<HostData>,
    f: &wasmi::TypedFunc<(), ()>,
) -> (r: Result<(), String>)
    requires
        owns_func(*old(store), *f),
    ensures
        (r is Ok) <==> call_ok(*old(store), *f),
        *final(store) == store_after_call(*old(store), *f),
        store_engine(*final(store)) == store_engine(*old(store)),
        fuel_metered(*final(store)) == fuel_metered(*old(store)),
        forall|i: wasmi::Instance|
            owns_instance(*final(store), i) == #[trigger] owns_instance(*old(store), i),
{
    f.call(&mut *store, ()).map_err(|e| e.to_string())
}

/// How many fuel units one guest entry (a start routine or an exported
/// call) may spend before it is terminated.
pub const CALL_FUEL: u64 = 1_000_000;

/// Why a module failed to load; the previously loaded module is discarded
/// either way.
#[derive(Clone, PartialEq, Eq, Debug)]
pub enum LoadError {
    /// The source text is not well-formed.
    Parse(String),
    /// The binary was rejected by the engine's validation or limits.
    Compile(String),
    /// Import resolution, instantiation or the start routine failed.
    Instantiate(String),
}

/// Why a call into the loaded module failed; later calls are unaffected.
#[derive(Clone, PartialEq, Eq, Debug)]
pub enum CallError {
    /// No module is currently loaded.
    NoScript,
    /// The loaded module has no export of this name taking and returning
    /// nothing.
    MissingExport,
    /// The export trapped, or the engine cut it off at its fuel budget.
    Trap(String),
}

/// The names among `exports` that are functions taking and returning
/// nothing, in order.
pub open spec fn spec_void_names(s: Seq<ExportDesc>) -> Seq<Seq<char>>
    decreases s.len(),
{
    if s.len() == 0 {
        Seq::<Seq<char>>::empty()
    } else {
        let rest = spec_void_names(s.drop_last());
        if s.last().kind == (ExportKind::Func { params: 0, results: 0 }) {
            rest.push(s.last().name)
        } else {
            rest
        }
    }
}

/// Keeps the names of the exports that are functions with no parameters and
/// no results.
fn void_export_names(entries: &Vec<ExportEntry>) -> (r: Vec<String>)
    ensures
        r.deep_view() == spec_void_names(entries.deep_view()),
{
    let ghost s = entries.deep_view();
    let mut r: Vec<String> = Vec::new();
    let mut i: usize = 0;
    proof {
        assert(s.take(0) =~= Seq::<ExportDesc>::empty());
        assert(r.deep_view() =~= spec_void_names(s.take(0)));
    }
    while i < entries.len()
        invariant
            i <= entries.len(),
            s == entries.deep_view(),
            r.deep_view() == spec_void_names(s.take(i as int)),
        decreases entries.len() - i,
    {
        let ghost pre = r.deep_view();
        let e = &entries[i];
        proof {
            assert(s.take(i as int + 1).drop_last() =~= s.take(i as int));
            assert(s.take(i as int + 1).last() == s[i as int]);
        }
        if e.kind == (ExportKind::Func { params: 0, results: 0 }) {
            r.push(e.name.clone());
            proof {
                assert(r.deep_view() =~= pre.push(s[i as int].name));
            }
        }
        i = i + 1;
    }
    proof {
        assert(s.take(s.len() as int) =~= s);
    }
    r
}

/// Whether `name` occurs in `v`.
fn contains_string(v: &Vec<String>, name: &String) -> (r: bool)
    ensures
        r == v.deep_view().contains(name@),
{
    let mut i: usize = 0;
    while i < v.len()
        invariant
            i <= v.len(),
            forall|j: int| 0 <= j < i ==> v.deep_view()[j] != name@,
        decreases v.len() - i,
    {
        if v[i] == *name {
            proof {
                assert(v.deep_view()[i as int] == name@);
            }
            return true;
        }
        i = i + 1;
    }
    proof {
        assert(forall|j: int| 0 <= j < v.deep_view().len() ==> v.deep_view()[j] != name@);
    }
    false
}

/// The three capability bindings the host installs under `env`.
pub open spec fn binding_names() -> Set<Seq<char>> {
    set!["_beatmap"@, "_create_color_note"@, "_beatmap_add_color_note"@]
}

/// The guest script host. It is `Ready` (no module) after construction and
/// `Loaded` after a successful load; a failed load puts it back to `Ready`.
pub struct WasmInterpreter {
    engine: wasmi::Engine,
    store: wasmi::Store<HostData>,
    linker: wasmi::Linker<HostData>,
    instance: Option<wasmi::Instance>,
    void_exports: Vec<String>,
}

impl WasmInterpreter {
    /// Whether a module is currently loaded.
    pub closed spec fn loaded(&self) -> bool {
        self.instance is Some
    }

    /// The names of the loaded module's callable exports (functions taking
    /// and returning nothing); empty when no module is loaded.
    pub closed spec fn exports(&self) -> Seq<Seq<char>> {
        self.void_exports.deep_view()
    }

    /// The handles the guest can reach.
    pub closed spec fn handles(&self) -> Seq<HandleVal> {
        store_handles(self.store)
    }

    /// The import names the guest can link against.
    pub closed spec fn bindings(&self) -> Set<Seq<char>> {
        linker_defs(self.linker)
    }

    /// Well-formed: engine, store and linker come from one construction, the
    /// engine meters fuel, and any loaded instance lives in this store. The
    /// constructor establishes this and every method preserves it.
    pub closed spec fn wf(&self) -> bool {
        &&& store_engine(self.store) == self.engine
        &&& linker_engine(self.linker) == self.engine
        &&& fuel_metered(self.store)
        &&& (self.instance matches Some(i) ==> owns_instance(self.store, i))
    }

    /// Whether this host's engine accepts the binary that `source`
    /// translates to.
    pub closed spec fn source_compiles(&self, source: Seq<char>) -> bool {
        compiles(self.engine, wat_binary(source))
    }

    /// Whether loading `source` succeeds: it parses, its binary compiles,
    /// and the module instantiates and runs its start routine in this host
    /// under a fresh fuel budget.
    pub closed spec fn load_ok(&self, source: Seq<char>) -> bool {
        &&& wat_ok(source)
        &&& self.source_compiles(source)
        &&& instantiates(
            self.linker,
            refueled(self.store, CALL_FUEL),
            compiled(self.engine, wat_binary(source)),
        )
    }

    /// Whether calling the export `name` succeeds: under a fresh fuel budget
    /// the loaded instance resolves it and the guest runs to completion
    /// without trapping.
    pub closed spec fn call_ok_for(&self, name: Seq<char>) -> bool
        recommends
            self.loaded(),
    {
        let s = refueled(self.store, CALL_FUEL);
        let i = self.instance.unwrap();
        &&& finds_void(s, i, name)
        &&& call_ok(s, void_func_of(s, i, name))
    }

    /// Builds the engine under its resource limits, the store and the
    /// linker, and installs all capability bindings. Installing a binding
    /// fails only on a duplicate name, and the three binding names are
    /// distinct on the fresh linker, so construction always succeeds.
    pub fn new() -> (w: WasmInterpreter)
        ensures
            w.wf(),
            !w.loaded(),
            w.exports() == Seq::<Seq<char>>::empty(),
            w.handles() == seq![HandleVal::Beatmap(Seq::<ColorNote>::empty())],
            w.bindings() == binding_names(),
    {
        proof {
            reveal_strlit("_beatmap");
            reveal_strlit("_create_color_note");
            reveal_strlit("_beatmap_add_color_note");
            assert("_beatmap"@.len() == 8);
            assert("_create_color_note"@.len() == 18);
            assert("_beatmap_add_color_note"@.len() == 23);
        }
        let engine = new_engine();
        let mut store = new_store(&engine, HostData { handles: HandleStore::new() });
        let mut linker = new_linker(&engine);
        match define_beatmap_global(&mut linker, &mut store) {
            Ok(()) => {},
            Err(_) => {
                return vstd::pervasive::unreached();
            },
        }
        match define_create_color_note(&mut linker) {
            Ok(()) => {},
            Err(_) => {
                return vstd::pervasive::unreached();
            },
        }
        match define_add_color_note(&mut linker) {
            Ok(()) => {},
            Err(_) => {
                return vstd::pervasive::unreached();
            },
        }
        let w = WasmInterpreter {
            engine,
            store,
            linker,
            instance: None,
            void_exports: Vec::new(),
        };
        proof {
            assert(w.exports() =~= Seq::<Seq<char>>::empty());
            assert(w.bindings() =~= binding_names());
        }
        w
    }

    /// A copy of the handle store, for host-side inspection of what guest
    /// calls did.
    pub fn snapshot_handles(&self) -> (r: HandleStore)
        ensures
            r@ == self.handles(),
    {
        read_handles(&self.store).duplicate()
    }

    /// Parses the source text, compiles it, instantiates it against the
    /// installed bindings and runs its start routine under a fresh fuel
    /// budget; it succeeds exactly when all four stages do, and the error
    /// names the first stage that failed. The previously loaded module is
    /// discarded whether or not this succeeds: on failure the host is back
    /// to `Ready` with no module, on success exactly the new module's
    /// exports are callable, and those are a function of the new source
    /// alone.
    pub fn load_script(&mut self, source: &str) -> (r: Result<(), LoadError>)
        requires
            old(self).wf(),
        ensures
            final(self).wf(),
            final(self).bindings() == old(self).bindings(),
            (r is Ok) <==> old(self).load_ok(source@),
            (r matches Err(e) && e is Parse) <==> !wat_ok(source@),
            (r matches Err(e) && e is Compile) <==> (wat_ok(source@) && !old(
                self,
            ).source_compiles(source@)),
            (r matches Err(e) && e is Instantiate) <==> (wat_ok(source@) && old(
                self,
            ).source_compiles(source@) && !old(self).load_ok(source@)),
            r is Ok <==> final(self).loaded(),
            r is Err ==> final(self).exports() == Seq::<Seq<char>>::empty(),
            (r matches Err(e) && (e is Parse || e is Compile)) ==> final(self).handles() == old(
                self,
            ).handles(),
            r is Ok ==> final(self).exports() == spec_void_names(
                binary_exports(wat_binary(source@)),
            ),
    {
        self.instance = None;
        self.void_exports = Vec::new();
        proof {
            assert(self.void_exports.deep_view() =~= Seq::<Seq<char>>::empty());
        }
        let wasm = match parse_wat(source) {
            Ok(b) => b,
            Err(e) => {
                return Err(LoadError::Parse(e));
            },
        };
        let module = match compile_module(&self.engine, &wasm) {
            Ok(m) => m,
            Err(e) => {
                return Err(LoadError::Compile(e));
            },
        };
        let entries = module_export_list(&module);
        let names = void_export_names(&entries);
        match set_fuel(&mut self.store, CALL_FUEL) {
            Ok(()) => {},
            Err(_) => {
                return vstd::pervasive::unreached();
            },
        }
        let inst = match instantiate_and_start(&self.linker, &mut self.store, &module) {
            Ok(i) => i,
            Err(e) => {
                return Err(LoadError::Instantiate(e));
            },
        };
        self.instance = Some(inst);
        self.void_exports = names;
        Ok(())
    }

    /// Looks up an exported function with no parameters and no results on
    /// the loaded module and runs it to completion under a fresh fuel
    /// budget; with a module loaded and the export present it succeeds
    /// exactly when the guest runs to completion within that budget. Fails
    /// when no module is loaded or the export is missing, leaving the host
    /// untouched; the loaded module and its callable exports are unaffected
    /// either way.
    pub fn call_void_method(&mut self, name: &String) -> (r: Result<(), CallError>)
        requires
            old(self).wf(),
        ensures
            final(self).wf(),
            final(self).loaded() == old(self).loaded(),
            final(self).exports() == old(self).exports(),
            final(self).bindings() == old(self).bindings(),
            (r matches Err(e) && e is NoScript) <==> !old(self).loaded(),
            old(self).loaded() ==> ((r matches Err(e) && e is MissingExport) <==> !old(self).exports().contains(name@)),
            (r matches Err(e) && (e is NoScript || e is MissingExport)) ==> *final(self) == *old(
                self,
            ),
            old(self).loaded() && old(self).exports().contains(name@) ==> ((r is Ok) <==> old(
                self,
            ).call_ok_for(name@)),
            old(self).loaded() && old(self).exports().contains(name@) ==> (r is Ok || (
            r matches Err(e) && e is Trap)),
    {
        let inst = match &self.instance {
            Some(i) => i,
            None => {
                return Err(CallError::NoScript);
            },
        };
        if !contains_string(&self.void_exports, name) {
            return Err(CallError::MissingExport);
        }
        match set_fuel(&mut self.store, CALL_FUEL) {
            Ok(()) => {},
            Err(_) => {
                return vstd::pervasive::unreached();
            },
        }
        let f = match get_void_func(&self.store, inst, name.as_str()) {
            Ok(f) => f,
            Err(e) => {
                return Err(CallError::Trap(e));
            },
        };
        match call_void_func(&mut self.store, &f) {
            Ok(()) => Ok(()),
            Err(e) => Err(CallError::Trap(e)),
        }
    }

    /// Runs the loaded module's `init` export.
    pub fn call_init(&mut self) -> (r: Result<(), CallError>)
        requires
            old(self).wf(),
        ensures
            final(self).wf(),
            final(self).loaded() == old(self).loaded(),
            final(self).exports() == old(self).exports(),
            final(self).bindings() == old(self).bindings(),
            (r matches Err(e) && e is NoScript) <==> !old(self).loaded(),
            old(self).loaded() ==> ((r matches Err(e) && e is MissingExport) <==> !old(self).exports().contains("init"@)),
            (r matches Err(e) && (e is NoScript || e is MissingExport)) ==> *final(self) == *old(
                self,
            ),
            old(self).loaded() && old(self).exports().contains("init"@) ==> ((r is Ok) <==> old(
                self,
            ).call_ok_for("init"@)),
            old(self).loaded() && old(self).exports().contains("init"@) ==> (r is Ok || (
            r matches Err(e) && e is Trap)),
    {
        let name = String::from_str("init");
        self.call_void_method(&name)
    }

    /// Runs the loaded module's `end` export.
    pub fn call_end(&mut self) -> (r: Result<(), CallError>)
        requires
            old(self).wf(),
        ensures
            final(self).wf(),
            final(self).loaded() == old(self).loaded(),
            final(self).exports() == old(self).exports(),
            final(self).bindings() == old(self).bindings(),
            (r matches Err(e) && e is NoScript) <==> !old(self).loaded(),
            old(self).loaded() ==> ((r matches Err(e) && e is MissingExport) <==> !old(self).exports().contains("end"@)),
            (r matches Err(e) && (e is NoScript || e is MissingExport)) ==> *final(self) == *old(
                self,
            ),
            old(self).loaded() && old(self).exports().contains("end"@) ==> ((r is Ok) <==> old(
                self,
            ).call_ok_for("end"@)),
            old(self).loaded() && old(self).exports().contains("end"@) ==> (r is Ok || (
            r matches Err(e) && e is Trap)),
    {
        let name = String::from_str("end");
        self.call_void_method(&name)
    }

    /// Runs the loaded module's `update` export.
    pub fn call_update(&mut self) -> (r: Result<(), CallError>)
        requires
            old(self).wf(),
        ensures
            final(self).wf(),
            final(self).loaded() == old(self).loaded(),
            final(self).exports() == old(self).exports(),
            final(self).bindings() == old(self).bindings(),
            (r matches Err(e) && e is NoScript) <==> !old(self).loaded(),
            old(self).loaded() ==> ((r matches Err(e) && e is MissingExport) <==> !old(self).exports().contains("update"@)),
            (r matches Err(e) && (e is NoScript || e is MissingExport)) ==> *final(self) == *old(
                self,
            ),
            old(self).loaded() && old(self).exports().contains("update"@) ==> ((r is Ok) <==> old(
                self,
            ).call_ok_for("update"@)),
            old(self).loaded() && old(self).exports().contains("update"@) ==> (r is Ok || (
            r matches Err(e) && e is Trap)),
    {
        let name = String::from_str("update");
        self.call_void_method(&name)
    }
}

impl LoadError {
    /// The stage that failed and its cause, in words.
    pub open spec fn spec_message(&self) -> Seq<char> {
        match self {
            LoadError::Parse(s) => "parse error: "@ + s@,
            LoadError::Compile(s) => "compile error: "@ + s@,
            LoadError::Instantiate(s) => "instantiation error: "@ + s@,
        }
    }

    /// The stage that failed and its cause, in words.
    pub fn message(&self) -> (r: String)
        ensures
            r@ == self.spec_message(),
    {
        match self {
            LoadError::Parse(s) => {
                let mut m = String::from_str("parse error: ");
                m.append(s.as_str());
                m
            },
            LoadError::Compile(s) => {
                let mut m = String::from_str("compile error: ");
                m.append(s.as_str());
                m
            },
            LoadError::Instantiate(s) => {
                let mut m = String::from_str("instantiation error: ");
                m.append(s.as_str());
                m
            },
        }
    }
}

impl CallError {
    /// What went wrong, in words.
    pub open spec fn spec_message(&self) -> Seq<char> {
        match self {
            CallError::NoScript => "no script is currently loaded"@,
            CallError::MissingExport => "export not found"@,
            CallError::Trap(s) => "trap: "@ + s@,
        }
    }

    /// What went wrong, in words.
    pub fn message(&self) -> (r: String)
        ensures
            r@ == self.spec_message(),
    {
        match self {
            CallError::NoScript => String::from_str("no script is currently loaded"),
            CallError::MissingExport => String::from_str("export not found"),
            CallError::Trap(s) => {
                let mut m = String::from_str("trap: ");
                m.append(s.as_str());
                m
            },
        }
    }
}

} // verus!
