//! One isolated instance of the detector, the handles of its entry points,
//! and the record of everything the host has asked of it.

use crate::host::{
    binary_export, binary_home, call_binary, call_sink, call_ternary, call_unary, compile_module,
    default_config, export_binary, export_memory, export_sink, export_ternary, export_unary,
    fresh_store, instance_home, instance_module, instantiate, memory_bytes, memory_export,
    memory_home, module_engine, module_image, module_memory, read_memory, same_store, set_memory,
    sink_export, sink_home, store_engine, store_home, store_is_closed, ternary_export,
    ternary_home, unary_export, unary_home, write_memory,
};
use vstd::multiset::Multiset;
use vstd::prelude::*;
use wasmtime::{Error, Instance, Memory, Module, Store, TypedFunc};
use wasmtime_wasi::p1::WasiP1Ctx;

verus! {

/// One thing the host did to a sandbox, with what came of it.
pub enum Step {
    /// The guest's allocator was asked for `size` bytes. `granted` is the
    /// pointer it answered; `None` where the call itself failed.
    Allocate { size: u32, granted: Option<u32> },
    /// The host copied `bytes` into guest memory at `pointer`. `stored` is
    /// false where the region did not lie inside the memory, and nothing was
    /// written then.
    Write { pointer: u32, bytes: Seq<u8>, stored: bool },
    /// The SQL-injection detector ran on `length` bytes at `pointer`, with
    /// `slot` as the place for its fingerprint. `memory` is the guest memory
    /// as the call found it; `verdict` is `None` where the call failed.
    DetectSqli { pointer: u32, length: u32, slot: u32, memory: Seq<u8>, verdict: Option<u32> },
    /// The cross-site-scripting detector ran on `length` bytes at `pointer`.
    DetectXss { pointer: u32, length: u32, memory: Seq<u8>, verdict: Option<u32> },
    /// The host read `length` bytes of guest memory at `pointer`. `seen` is
    /// what it found; `None` where the region did not lie inside the memory.
    Read { pointer: u32, length: u32, seen: Option<Seq<u8>> },
    /// The guest's allocator was handed `pointer` back. `done` is false
    /// where the call failed.
    Release { pointer: u32, done: bool },
}

/// What a read brought back, as plain bytes.
pub open spec fn contents(bytes: Option<Vec<u8>>) -> Option<Seq<u8>> {
    match bytes {
        Some(b) => Some(b@),
        None => None,
    }
}

/// The pointers that a history has obtained from the allocator and not yet
/// handed back to it, each as often as it is owed.
pub open spec fn outstanding(history: Seq<Step>) -> Multiset<u32>
    decreases history.len(),
{
    if history.len() == 0 {
        Multiset::empty()
    } else {
        let before = outstanding(history.drop_last());
        match history.last() {
            Step::Allocate { granted: Some(p), .. } => before.insert(p),
            Step::Release { pointer, .. } => before.remove(pointer),
            _ => before,
        }
    }
}

/// A step changes what is outstanding by itself alone: a granted allocation
/// adds its pointer, a release takes its pointer away, and nothing else
/// counts.
pub proof fn lemma_outstanding_push(history: Seq<Step>, step: Step)
    ensures
        outstanding(history.push(step)) == match step {
            Step::Allocate { granted: Some(p), .. } => outstanding(history).insert(p),
            Step::Release { pointer, .. } => outstanding(history).remove(pointer),
            _ => outstanding(history),
        },
{
    assert(history.push(step).drop_last() =~= history);
}

/// Whether the sandbox did what `step` asked of it.
pub open spec fn went_well(step: Step) -> bool {
    match step {
        Step::Allocate { granted, .. } => granted is Some,
        Step::Write { stored, .. } => stored,
        Step::DetectSqli { verdict, .. } => verdict is Some,
        Step::DetectXss { verdict, .. } => verdict is Some,
        Step::Read { seen, .. } => seen is Some,
        Step::Release { done, .. } => done,
    }
}

/// A step that neither takes nor returns an allocation.
pub open spec fn is_neutral(step: Step) -> bool {
    match step {
        Step::Allocate { granted: Some(_), .. } => false,
        Step::Release { .. } => false,
        _ => true,
    }
}

/// `step` hands `pointer` back to the allocator.
pub open spec fn is_release_of(step: Step, pointer: u32) -> bool {
    match step {
        Step::Release { pointer: p, .. } => p == pointer,
        _ => false,
    }
}

/// `steps` takes at most one allocation and returns it: either nothing in
/// it takes or returns one, or it opens with a granted allocation, closes
/// with the release of that pointer, and nothing between the two takes or
/// returns one.
pub open spec fn is_round_trip(steps: Seq<Step>) -> bool {
    ||| forall|i: int| 0 <= i < steps.len() ==> is_neutral(#[trigger] steps[i])
    ||| {
        &&& steps.len() >= 2
        &&& steps[0] matches Step::Allocate { granted: Some(p), .. }
        &&& is_release_of(steps.last(), p)
        &&& forall|i: int| 1 <= i < steps.len() - 1 ==> is_neutral(#[trigger] steps[i])
    }
}

/// Steps that neither take nor return an allocation leave what is
/// outstanding as it was.
pub proof fn lemma_neutral_steps(history: Seq<Step>, steps: Seq<Step>)
    requires
        forall|i: int| 0 <= i < steps.len() ==> is_neutral(#[trigger] steps[i]),
    ensures
        outstanding(history + steps) == outstanding(history),
    decreases steps.len(),
{
    if steps.len() == 0 {
        assert(history + steps =~= history);
    } else {
        let front = steps.drop_last();
        assert(history + steps =~= (history + front).push(steps.last()));
        assert(is_neutral(steps[steps.len() - 1]));
        lemma_outstanding_push(history + front, steps.last());
        lemma_neutral_steps(history, front);
    }
}

/// Allocate/release pairing: a round trip leaves what is outstanding as it
/// was, whatever the history before it.
pub proof fn lemma_round_trip_settles(history: Seq<Step>, steps: Seq<Step>)
    requires
        is_round_trip(steps),
    ensures
        outstanding(history + steps) == outstanding(history),
{
    if forall|i: int| 0 <= i < steps.len() ==> is_neutral(#[trigger] steps[i]) {
        lemma_neutral_steps(history, steps);
    } else {
        let p = match steps[0] {
            Step::Allocate { granted: Some(p), .. } => p,
            _ => 0,
        };
        let opened = history.push(steps[0]);
        let middle = steps.subrange(1, steps.len() - 1);
        assert(history + steps =~= (opened + middle).push(steps.last()));
        lemma_outstanding_push(history, steps[0]);
        assert forall|i: int| 0 <= i < middle.len() implies is_neutral(#[trigger] middle[i]) by {
            assert(middle[i] == steps[i + 1]);
        }
        lemma_neutral_steps(opened, middle);
        lemma_outstanding_push(opened + middle, steps.last());
        assert(outstanding(history).insert(p).remove(p) =~= outstanding(history));
    }
}

/// Any number of round trips, one after the other, leave what is
/// outstanding as it was.
pub proof fn lemma_round_trips_settle(history: Seq<Step>, rounds: Seq<Seq<Step>>)
    requires
        forall|i: int| 0 <= i < rounds.len() ==> is_round_trip(#[trigger] rounds[i]),
    ensures
        outstanding(history + rounds.flatten()) == outstanding(history),
    decreases rounds.len(),
{
    if rounds.len() == 0 {
        assert(rounds.flatten() =~= Seq::<Step>::empty());
        assert(history + rounds.flatten() =~= history);
    } else {
        let first = rounds.first();
        let rest = rounds.drop_first();
        assert(rounds.flatten() =~= first + rest.flatten());
        assert(history + rounds.flatten() =~= (history + first) + rest.flatten());
        assert(is_round_trip(rounds[0]));
        assert forall|i: int| 0 <= i < rest.len() implies is_round_trip(#[trigger] rest[i]) by {
            assert(rest[i] == rounds[i + 1]);
        }
        lemma_round_trips_settle(history + first, rest);
        lemma_round_trip_settles(history, first);
    }
}

/// A required export of the detector module.
#[derive(Clone, Copy, Debug, PartialEq, Eq, Structural)]
pub enum Export {
    Allocate,
    Release,
    DetectSqli,
    DetectXss,
    Memory,
}

/// The name under which the detector module exports `export`.
pub open spec fn export_name(export: Export) -> Seq<char> {
    match export {
        Export::Allocate => "malloc"@,
        Export::Release => "free"@,
        Export::DetectSqli => "libinjection_sqli"@,
        Export::DetectXss => "libinjection_xss"@,
        Export::Memory => "memory"@,
    }
}

/// The place of `export` in the order in which a binding seeks the exports.
pub open spec fn export_order(export: Export) -> nat {
    match export {
        Export::Allocate => 0,
        Export::Release => 1,
        Export::DetectSqli => 2,
        Export::DetectXss => 3,
        Export::Memory => 4,
    }
}

/// Whether `instance` has `export`: under its name, and of the type that the
/// host expects of it.
pub open spec fn has_export(instance: Instance, export: Export) -> bool {
    match export {
        Export::Allocate => unary_export(instance, export_name(export)) is Some,
        Export::Release => sink_export(instance, export_name(export)) is Some,
        Export::DetectSqli => ternary_export(instance, export_name(export)) is Some,
        Export::DetectXss => binary_export(instance, export_name(export)) is Some,
        Export::Memory => memory_export(instance, export_name(export)) is Some,
    }
}

/// Why a sandbox could not be brought up.
#[derive(Clone, Copy, Debug, PartialEq, Eq, Structural)]
pub enum StartupError {
    /// The module image did not compile.
    InvalidImage,
    /// The store could not be made, or the module could not be linked or
    /// instantiated in it.
    Instantiation,
    /// An export is absent or has another type than the host expects, or
    /// could not be looked up.
    MissingExport(Export),
}

/// The compiled detector module, shared by every sandbox made from it.
pub struct DetectorImage {
    module: Module,
}

impl DetectorImage {
    /// The compiled module itself.
    pub closed spec fn module(&self) -> Module {
        self.module
    }

    /// The image that was compiled, byte for byte.
    pub closed spec fn source(&self) -> Seq<u8> {
        module_image(self.module)
    }

    /// The memory settings that the engine which compiled it was given:
    /// reservation, reservation for growth and guard size. `None` where it
    /// was given none and has the runtime's own.
    pub closed spec fn memory_settings(&self) -> Option<(u64, u64, u64)> {
        module_memory(self.module)
    }

    /// The identity of the engine that compiled it.
    pub closed spec fn engine(&self) -> int {
        module_engine(self.module)
    }

    /// What the outcome of a compilation gives: the image that holds the
    /// module where there is one, and otherwise the refusal of the image.
    pub fn from_compiled(compiled: Result<Module, Error>) -> (out: Result<
        DetectorImage,
        StartupError,
    >)
        ensures
            match compiled {
                Ok(module) => out is Ok && out->Ok_0.module() == module,
                Err(_) => out == Err::<DetectorImage, StartupError>(StartupError::InvalidImage),
            },
    {
        match compiled {
            Ok(module) => Ok(DetectorImage { module }),
            Err(_) => Err(StartupError::InvalidImage),
        }
    }
}

/// The resolved entry points and the memory of one sandbox, with the
/// instance that they are of.
pub struct Abi {
    instance: Instance,
    memory: Memory,
    allocate: TypedFunc<u32, u32>,
    release: TypedFunc<u32, ()>,
    detect_sqli: TypedFunc<(u32, u32, u32), u32>,
    detect_xss: TypedFunc<(u32, u32), u32>,
}

impl Abi {
    /// The instance whose exports the binding holds.
    pub closed spec fn instance(&self) -> Instance {
        self.instance
    }

    /// The guest's allocator.
    pub closed spec fn allocate(&self) -> TypedFunc<u32, u32> {
        self.allocate
    }

    /// The guest's release.
    pub closed spec fn release(&self) -> TypedFunc<u32, ()> {
        self.release
    }

    /// The SQL-injection detector.
    pub closed spec fn detect_sqli(&self) -> TypedFunc<(u32, u32, u32), u32> {
        self.detect_sqli
    }

    /// The cross-site-scripting detector.
    pub closed spec fn detect_xss(&self) -> TypedFunc<(u32, u32), u32> {
        self.detect_xss
    }

    /// The guest's linear memory.
    pub closed spec fn memory(&self) -> Memory {
        self.memory
    }

    /// Every handle belongs to the store with identity `home`.
    pub open spec fn bound_to(&self, home: int) -> bool {
        &&& memory_home(self.memory()) == home
        &&& unary_home(self.allocate()) == home
        &&& sink_home(self.release()) == home
        &&& ternary_home(self.detect_sqli()) == home
        &&& binary_home(self.detect_xss()) == home
    }

    /// The five handles are what `instance` exports under the five names:
    /// all of one instance, and each the export that its place asks for.
    pub open spec fn is_binding_of(&self, instance: Instance) -> bool {
        &&& self.instance() == instance
        &&& unary_export(instance, export_name(Export::Allocate)) == Some(self.allocate())
        &&& sink_export(instance, export_name(Export::Release)) == Some(self.release())
        &&& ternary_export(instance, export_name(Export::DetectSqli)) == Some(self.detect_sqli())
        &&& binary_export(instance, export_name(Export::DetectXss)) == Some(self.detect_xss())
        &&& memory_export(instance, export_name(Export::Memory)) == Some(self.memory())
    }

    /// The binding is that of its own instance, and instance and handles all
    /// live in the store with identity `home`.
    pub open spec fn is_binding_in(&self, home: int) -> bool {
        &&& instance_home(self.instance()) == home
        &&& self.is_binding_of(self.instance())
        &&& self.bound_to(home)
    }

    /// The export whose lookup failed first, in the order in which the
    /// binding needs them; `None` where all five were found.
    pub open spec fn first_missing(
        allocate: bool,
        release: bool,
        detect_sqli: bool,
        detect_xss: bool,
        memory: bool,
    ) -> Option<Export> {
        if !allocate {
            Some(Export::Allocate)
        } else if !release {
            Some(Export::Release)
        } else if !detect_sqli {
            Some(Export::DetectSqli)
        } else if !detect_xss {
            Some(Export::DetectXss)
        } else if !memory {
            Some(Export::Memory)
        } else {
            None
        }
    }

    /// Builds the binding from the outcome of the five lookups in
    /// `instance`: where every export was found, the binding that holds
    /// exactly these five handles, and otherwise the error that names the
    /// first one that was not.
    pub fn assemble(
        instance: Instance,
        allocate: Option<TypedFunc<u32, u32>>,
        release: Option<TypedFunc<u32, ()>>,
        detect_sqli: Option<TypedFunc<(u32, u32, u32), u32>>,
        detect_xss: Option<TypedFunc<(u32, u32), u32>>,
        memory: Option<Memory>,
    ) -> (out: Result<Abi, StartupError>)
        ensures
            match Abi::first_missing(
                allocate is Some,
                release is Some,
                detect_sqli is Some,
                detect_xss is Some,
                memory is Some,
            ) {
                Some(export) => out == Err::<Abi, StartupError>(
                    StartupError::MissingExport(export),
                ),
                None => {
                    &&& out is Ok
                    &&& out->Ok_0.instance() == instance
                    &&& out->Ok_0.allocate() == allocate->Some_0
                    &&& out->Ok_0.release() == release->Some_0
                    &&& out->Ok_0.detect_sqli() == detect_sqli->Some_0
                    &&& out->Ok_0.detect_xss() == detect_xss->Some_0
                    &&& out->Ok_0.memory() == memory->Some_0
                },
            },
    {
        let allocate = match allocate {
            Some(f) => f,
            None => return Err(StartupError::MissingExport(Export::Allocate)),
        };
        let release = match release {
            Some(f) => f,
            None => return Err(StartupError::MissingExport(Export::Release)),
        };
        let detect_sqli = match detect_sqli {
            Some(f) => f,
            None => return Err(StartupError::MissingExport(Export::DetectSqli)),
        };
        let detect_xss = match detect_xss {
            Some(f) => f,
            None => return Err(StartupError::MissingExport(Export::DetectXss)),
        };
        let memory = match memory {
            Some(m) => m,
            None => return Err(StartupError::MissingExport(Export::Memory)),
        };
        Ok(Abi { instance, memory, allocate, release, detect_sqli, detect_xss })
    }
}

/// Address space that a frugal sandbox sets aside for its memory from the
/// start.
pub const MEMORY_RESERVATION: u64 = 0x0100_0000;

/// Address space that a frugal sandbox adds when its memory has outgrown the
/// first reservation.
pub const MEMORY_GROWTH: u64 = 0x0010_0000;

/// Address space that a frugal sandbox keeps unmapped behind its memory.
pub const MEMORY_GUARD: u64 = 0x0001_0000;

/// Compiles the detector's module image, once for all the sandboxes that
/// will run it, on an engine as the runtime configures it by itself.
///
/// What comes back is the compiled form of exactly the bytes given. Whether
/// the image compiles is the runtime's to say; one that does not is refused
/// as invalid.
pub fn get_engine(image: &[u8]) -> (out: Result<DetectorImage, StartupError>)
    ensures
        out is Ok ==> out->Ok_0.source() == image@,
        out is Ok ==> out->Ok_0.memory_settings() is None,
        out is Err ==> out->Err_0 == StartupError::InvalidImage,
{
    let config = default_config();
    DetectorImage::from_compiled(compile_module(&config, image))
}

/// Compiles the detector's module image as `get_engine` does, on an engine
/// whose sandboxes take the address space that the three settings say: so
/// much set aside for a memory from the start, so much added when it has
/// outgrown that, so much kept unmapped behind it. With `MEMORY_RESERVATION`,
/// `MEMORY_GROWTH` and `MEMORY_GUARD` a process can hold a sandbox for each
/// of many workers.
pub fn get_engine_with(image: &[u8], reservation: u64, growth: u64, guard: u64) -> (out: Result<
    DetectorImage,
    StartupError,
>)
    ensures
        out is Ok ==> out->Ok_0.source() == image@,
        out is Ok ==> out->Ok_0.memory_settings() == Some((reservation, growth, guard)),
        out is Err ==> out->Err_0 == StartupError::InvalidImage,
{
    let mut config = default_config();
    set_memory(&mut config, reservation, growth, guard);
    DetectorImage::from_compiled(compile_module(&config, image))
}

/// What the attempt to make a store gives: the store where there is one,
/// and otherwise the refusal to instantiate.
pub fn store_from(made: Result<Store<WasiP1Ctx>, Error>) -> (out: Result<
    Store<WasiP1Ctx>,
    StartupError,
>)
    ensures
        match made {
            Ok(store) => out == Ok::<Store<WasiP1Ctx>, StartupError>(store),
            Err(_) => out == Err::<Store<WasiP1Ctx>, StartupError>(StartupError::Instantiation),
        },
{
    match made {
        Ok(store) => Ok(store),
        Err(_) => Err(StartupError::Instantiation),
    }
}

/// Makes the store of a new sandbox: an execution context of its own, with
/// no access to files, network or environment.
///
/// What comes back runs on the engine that compiled `image`, and its system
/// interface is closed to the host. Whether a store can be made is the
/// runtime's to say.
pub(crate) fn get_store(image: &DetectorImage) -> (out: Result<Store<WasiP1Ctx>, StartupError>)
    ensures
        out is Ok ==> store_engine(out->Ok_0) == image.engine(),
        out is Ok ==> store_is_closed(out->Ok_0),
        out is Err ==> out->Err_0 == StartupError::Instantiation,
{
    store_from(fresh_store(&image.module))
}

/// What the attempt to instantiate gives: the instance where there is one,
/// and otherwise the refusal to instantiate.
pub fn instance_from(made: Result<Instance, Error>) -> (out: Result<Instance, StartupError>)
    ensures
        match made {
            Ok(instance) => out == Ok::<Instance, StartupError>(instance),
            Err(_) => out == Err::<Instance, StartupError>(StartupError::Instantiation),
        },
{
    match made {
        Ok(instance) => Ok(instance),
        Err(_) => Err(StartupError::Instantiation),
    }
}

/// Resolves the four entry points and the memory of `instance`, each under
/// its name: `malloc`, `free`, `libinjection_sqli`, `libinjection_xss` and
/// `memory`.
///
/// A binding that comes back holds exactly what `instance` exports under
/// those names. Where the instance lacks one of them there is no binding,
/// and the error names that export or one that is sought before it; the
/// exports that are sought before the one that an error names are all
/// there. A lookup can also fail for the runtime's own reasons, so that a
/// complete instance is not sure of its binding.
pub fn bind(store: &mut Store<WasiP1Ctx>, instance: Instance) -> (out: Result<Abi, StartupError>)
    requires
        instance_home(instance) == store_home(*old(store)),
    ensures
        same_store(*old(store), *final(store)),
        out is Ok ==> out->Ok_0.is_binding_of(instance) && out->Ok_0.is_binding_in(
            store_home(*final(store)),
        ),
        out is Err ==> out->Err_0 is MissingExport,
        out is Err ==> forall|export: Export|
            export_order(export) < export_order(out->Err_0->MissingExport_0) ==> has_export(
                instance,
                export,
            ),
        forall|export: Export|
            !has_export(instance, export) ==> out is Err && export_order(
                out->Err_0->MissingExport_0,
            ) <= export_order(export),
        out == Err::<Abi, StartupError>(StartupError::MissingExport(Export::Memory))
            ==> !has_export(instance, Export::Memory),
{
    let allocate = export_unary(store, &instance, "malloc").ok();
    let release = export_sink(store, &instance, "free").ok();
    let detect_sqli = export_ternary(store, &instance, "libinjection_sqli").ok();
    let detect_xss = export_binary(store, &instance, "libinjection_xss").ok();
    let memory = export_memory(store, &instance, "memory");
    Abi::assemble(instance, allocate, release, detect_sqli, detect_xss, memory)
}

/// Instantiates the detector in `store` and resolves the four entry points
/// and the memory. A sandbox that cannot be instantiated, or that lacks one
/// of them, is refused.
///
/// A binding that comes back is that of one instance of the image's module,
/// which lives in `store`: its five handles are what that instance exports
/// under the five names.
pub(crate) fn get_abi(store: &mut Store<WasiP1Ctx>, image: &DetectorImage) -> (out: Result<
    Abi,
    StartupError,
>)
    ensures
        same_store(*old(store), *final(store)),
        out is Ok ==> out->Ok_0.is_binding_in(store_home(*final(store))),
        out is Ok ==> instance_module(out->Ok_0.instance()) == image.module(),
        out is Err ==> out->Err_0 is Instantiation || out->Err_0 is MissingExport,
{
    match instance_from(instantiate(store, &image.module)) {
        Ok(instance) => bind(store, instance),
        Err(e) => Err(e),
    }
}

/// One sandbox: a store with the detector instantiated in it, the binding to
/// its entry points, and the history of what the host has asked of it.
///
/// A sandbox is used by one caller at a time; every operation takes it by
/// exclusive reference, and nothing in it is shared with another sandbox but
/// the compiled image.
pub struct Sandbox {
    store: Store<WasiP1Ctx>,
    abi: Abi,
    history: Ghost<Seq<Step>>,
}

impl Sandbox {
    /// The binding of the sandbox.
    pub closed spec fn abi(&self) -> Abi {
        self.abi
    }

    /// The identity of the store of the sandbox.
    pub closed spec fn home(&self) -> int {
        store_home(self.store)
    }

    /// The identity of the engine that the sandbox runs on.
    pub closed spec fn engine(&self) -> int {
        store_engine(self.store)
    }

    /// Whether the system interface of the sandbox is closed to the host: no
    /// argument, no environment variable, no directory, no socket address.
    pub closed spec fn is_closed(&self) -> bool {
        store_is_closed(self.store)
    }

    /// The module that the sandbox runs an instance of.
    pub open spec fn module(&self) -> Module {
        instance_module(self.abi().instance())
    }

    /// Execution context and binding are a matching pair: the binding is
    /// that of one instance, which lives in the store of this sandbox.
    pub open spec fn wf(&self) -> bool {
        self.abi().is_binding_in(self.home())
    }

    /// What no use of a sandbox changes: its binding, its store, the engine
    /// it runs on, and whether it is closed to the host.
    pub open spec fn is_still(&self, before: Sandbox) -> bool {
        &&& self.abi() == before.abi()
        &&& self.home() == before.home()
        &&& self.engine() == before.engine()
        &&& self.is_closed() == before.is_closed()
    }

    /// Everything the host has done to this sandbox, oldest first.
    pub closed spec fn history(&self) -> Seq<Step> {
        self.history@
    }

    /// The guest memory as it stands.
    pub closed spec fn memory(&self) -> Seq<u8> {
        memory_bytes(self.store, self.abi.memory)
    }

    /// The allocations that this sandbox still owes a release.
    pub open spec fn outstanding(&self) -> Multiset<u32> {
        outstanding(self.history())
    }

    /// Brings up a sandbox of its own for the caller, with an empty history.
    ///
    /// A sandbox that comes back runs one instance of the image's module, on
    /// the engine that compiled the image, and is closed to the host.
    pub fn new(image: &DetectorImage) -> (out: Result<Sandbox, StartupError>)
        ensures
            out is Ok ==> out->Ok_0.wf() && out->Ok_0.history() == Seq::<Step>::empty(),
            out is Ok ==> out->Ok_0.module() == image.module(),
            out is Ok ==> out->Ok_0.engine() == image.engine(),
            out is Ok ==> out->Ok_0.is_closed(),
            out is Err ==> out->Err_0 is Instantiation || out->Err_0 is MissingExport,
    {
        let mut store = match get_store(image) {
            Ok(store) => store,
            Err(e) => return Err(e),
        };
        match get_abi(&mut store, image) {
            Ok(abi) => Ok(Sandbox { store, abi, history: Ghost(Seq::empty()) }),
            Err(e) => Err(e),
        }
    }

    /// Makes sure that `slot` holds a sandbox: one that is there stays as it
    /// is, and an empty slot is filled with a new sandbox of `image`, or
    /// stays empty where none can be brought up.
    pub fn provision(slot: &mut Option<Sandbox>, image: &DetectorImage) -> (out: Result<
        (),
        StartupError,
    >)
        ensures
            *old(slot) is Some ==> out is Ok && *final(slot) == *old(slot),
            *old(slot) is None && out is Ok ==> {
                &&& *final(slot) is Some
                &&& (*final(slot))->Some_0.wf()
                &&& (*final(slot))->Some_0.history() == Seq::<Step>::empty()
                &&& (*final(slot))->Some_0.module() == image.module()
                &&& (*final(slot))->Some_0.engine() == image.engine()
                &&& (*final(slot))->Some_0.is_closed()
            },
            *old(slot) is None && out is Err ==> *final(slot) is None,
            out is Err ==> out->Err_0 is Instantiation || out->Err_0 is MissingExport,
    {
        if slot.is_some() {
            return Ok(());
        }
        match Sandbox::new(image) {
            Ok(sandbox) => {
                *slot = Some(sandbox);
                Ok(())
            },
            Err(e) => Err(e),
        }
    }

    /// Asks the guest's allocator for `size` bytes.
    pub(crate) fn allocate(&mut self, size: u32) -> (granted: Option<u32>)
        requires
            old(self).wf(),
        ensures
            final(self).wf(),
            final(self).is_still(*old(self)),
            final(self).history() == old(self).history().push(Step::Allocate { size, granted }),
    {
        let granted = call_unary(&mut self.store, &self.abi.allocate, size).ok();
        self.history = Ghost(self.history@.push(Step::Allocate { size, granted }));
        granted
    }

    /// Hands `pointer` back to the guest's allocator.
    pub(crate) fn release(&mut self, pointer: u32) -> (done: bool)
        requires
            old(self).wf(),
        ensures
            final(self).wf(),
            final(self).is_still(*old(self)),
            final(self).history() == old(self).history().push(Step::Release { pointer, done }),
    {
        let done = call_sink(&mut self.store, &self.abi.release, pointer).is_ok();
        self.history = Ghost(self.history@.push(Step::Release { pointer, done }));
        done
    }

    /// Copies `data` into guest memory at `pointer`, byte for byte, or leaves
    /// the memory alone where the region does not lie inside it.
    pub(crate) fn write(&mut self, pointer: u32, data: &[u8]) -> (stored: bool)
        requires
            old(self).wf(),
        ensures
            final(self).wf(),
            final(self).is_still(*old(self)),
            final(self).history() == old(self).history().push(
                Step::Write { pointer, bytes: data@, stored },
            ),
            stored ==> pointer + data@.len() <= final(self).memory().len()
                && final(self).memory().subrange(pointer as int, pointer + data@.len())
                == data@,
    {
        let stored = write_memory(&mut self.store, &self.abi.memory, pointer as usize, data);
        self.history = Ghost(self.history@.push(Step::Write { pointer, bytes: data@, stored }));
        proof {
            if stored {
                assert(self.memory().subrange(pointer as int, pointer + data@.len()) =~= data@);
            }
        }
        stored
    }

    /// Reads `length` bytes of guest memory at `pointer`.
    pub(crate) fn read(&mut self, pointer: u32, length: u32) -> (bytes: Option<Vec<u8>>)
        requires
            old(self).wf(),
            length <= isize::MAX,
        ensures
            final(self).wf(),
            final(self).is_still(*old(self)),
            final(self).memory() == old(self).memory(),
            final(self).history() == old(self).history().push(
                Step::Read { pointer, length, seen: contents(bytes) },
            ),
            bytes is Some <==> pointer + length <= old(self).memory().len(),
            bytes is Some ==> bytes->Some_0@ == old(self).memory().subrange(
                pointer as int,
                pointer + length,
            ),
    {
        let bytes = read_memory(&self.store, &self.abi.memory, pointer as usize, length as usize);
        self.history = Ghost(
            self.history@.push(Step::Read { pointer, length, seen: contents(bytes) }),
        );
        bytes
    }

    /// Runs the SQL-injection detector on `length` bytes at `pointer`; the
    /// guest writes its fingerprint at `slot`.
    pub(crate) fn detect_sqli(&mut self, pointer: u32, length: u32, slot: u32) -> (verdict: Option<
        u32,
    >)
        requires
            old(self).wf(),
        ensures
            final(self).wf(),
            final(self).is_still(*old(self)),
            final(self).history() == old(self).history().push(
                Step::DetectSqli { pointer, length, slot, memory: old(self).memory(), verdict },
            ),
    {
        let ghost memory = self.memory();
        let verdict = call_ternary(
            &mut self.store,
            &self.abi.detect_sqli,
            pointer,
            length,
            slot,
        ).ok();
        self.history = Ghost(
            self.history@.push(Step::DetectSqli { pointer, length, slot, memory, verdict }),
        );
        verdict
    }

    /// Runs the cross-site-scripting detector on `length` bytes at `pointer`.
    pub(crate) fn detect_xss(&mut self, pointer: u32, length: u32) -> (verdict: Option<u32>)
        requires
            old(self).wf(),
        ensures
            final(self).wf(),
            final(self).is_still(*old(self)),
            final(self).history() == old(self).history().push(
                Step::DetectXss { pointer, length, memory: old(self).memory(), verdict },
            ),
    {
        let ghost memory = self.memory();
        let verdict = call_binary(&mut self.store, &self.abi.detect_xss, pointer, length).ok();
        self.history = Ghost(
            self.history@.push(Step::DetectXss { pointer, length, memory, verdict }),
        );
        verdict
    }
}

} // verus!
