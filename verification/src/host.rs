//! The trusted boundary: every call into the WebAssembly runtime goes through
//! one of the small functions of this file. Their contracts are believed, not
//! proved; each says only what the runtime's documentation and source show.
//!
//! Handles of the runtime (instances, memories, functions) belong to the store
//! they were made in, and the runtime panics when one is used with another
//! store. The `*_home` names below stand for that owner, so that the contracts
//! can rule such a use out. The `*_export` names stand for what an instance
//! exports under a name, so that the contracts can say which handle is which.

use vstd::prelude::*;
use wasmtime::{Config, Engine, Error, Instance, Linker, Memory, Module, Store, TypedFunc};
use wasmtime_wasi::p1::WasiP1Ctx;
use wasmtime_wasi::WasiCtxBuilder;

verus! {

#[verifier::external_type_specification]
#[verifier::external_body]
pub struct ExConfig(Config);

#[verifier::external_type_specification]
#[verifier::external_body]
pub struct ExModule(Module);

#[verifier::external_type_specification]
#[verifier::external_body]
#[verifier::reject_recursive_types(T)]
pub struct ExStore<T: 'static>(Store<T>);

#[verifier::external_type_specification]
#[verifier::external_body]
pub struct ExInstance(Instance);

#[verifier::external_type_specification]
#[verifier::external_body]
pub struct ExMemory(Memory);

#[verifier::external_type_specification]
#[verifier::external_body]
#[verifier::reject_recursive_types(Params)]
#[verifier::reject_recursive_types(Results)]
pub struct ExTypedFunc<Params, Results>(TypedFunc<Params, Results>);

#[verifier::external_type_specification]
#[verifier::external_body]
pub struct ExError(Error);

#[verifier::external_type_specification]
#[verifier::external_body]
pub struct ExWasiP1Ctx(WasiP1Ctx);

/// The memory settings that a configuration was given: reservation,
/// reservation for growth and guard size, in that order. `None` where it
/// was given none and has the runtime's own.
pub uninterp spec fn config_memory(config: Config) -> Option<(u64, u64, u64)>;

/// The image that a module was compiled from, byte for byte.
pub uninterp spec fn module_image(module: Module) -> Seq<u8>;

/// The memory settings that the configuration of a module's engine was
/// given, as `config_memory` has them.
pub uninterp spec fn module_memory(module: Module) -> Option<(u64, u64, u64)>;

/// The identity of the engine that compiled a module.
pub uninterp spec fn module_engine(module: Module) -> int;

/// The identity of a store: the `StoreId` that the runtime gives it when it
/// is made, and that every handle made in it carries.
pub uninterp spec fn store_home(store: Store<WasiP1Ctx>) -> int;

/// The identity of the engine that a store runs on.
pub uninterp spec fn store_engine(store: Store<WasiP1Ctx>) -> int;

/// Whether the system interface of a store is closed to the host: it hands
/// its guest no argument and no environment variable, has no directory
/// opened for it, and admits no socket address.
pub uninterp spec fn store_is_closed(store: Store<WasiP1Ctx>) -> bool;

/// The bytes of a linear memory as its store currently holds them.
pub uninterp spec fn memory_bytes(store: Store<WasiP1Ctx>, memory: Memory) -> Seq<u8>;

/// The identity of the store that owns an instance.
pub uninterp spec fn instance_home(instance: Instance) -> int;

/// The module that an instance was made from.
pub uninterp spec fn instance_module(instance: Instance) -> Module;

/// The identity of the store that owns a linear memory.
pub uninterp spec fn memory_home(memory: Memory) -> int;

/// The identity of the store that owns a function from one number to one number.
pub uninterp spec fn unary_home(func: TypedFunc<u32, u32>) -> int;

/// The identity of the store that owns a function from one number to nothing.
pub uninterp spec fn sink_home(func: TypedFunc<u32, ()>) -> int;

/// The identity of the store that owns a function from two numbers to one number.
pub uninterp spec fn binary_home(func: TypedFunc<(u32, u32), u32>) -> int;

/// The identity of the store that owns a function from three numbers to one number.
pub uninterp spec fn ternary_home(func: TypedFunc<(u32, u32, u32), u32>) -> int;

/// What an instance exports under `name`, where that is a function from one
/// number to one number; `None` where it exports nothing of that name and
/// type.
pub uninterp spec fn unary_export(instance: Instance, name: Seq<char>) -> Option<
    TypedFunc<u32, u32>,
>;

/// What an instance exports under `name`, where that is a function from one
/// number to nothing.
pub uninterp spec fn sink_export(instance: Instance, name: Seq<char>) -> Option<
    TypedFunc<u32, ()>,
>;

/// What an instance exports under `name`, where that is a function from two
/// numbers to one number.
pub uninterp spec fn binary_export(instance: Instance, name: Seq<char>) -> Option<
    TypedFunc<(u32, u32), u32>,
>;

/// What an instance exports under `name`, where that is a function from
/// three numbers to one number.
pub uninterp spec fn ternary_export(instance: Instance, name: Seq<char>) -> Option<
    TypedFunc<(u32, u32, u32), u32>,
>;

/// What an instance exports under `name`, where that is a linear memory of
/// its own.
pub uninterp spec fn memory_export(instance: Instance, name: Seq<char>) -> Option<Memory>;

/// `bytes` with `data` laid over it from `offset` on.
pub open spec fn overlaid(bytes: Seq<u8>, offset: int, data: Seq<u8>) -> Seq<u8> {
    bytes.subrange(0, offset) + data + bytes.subrange(offset + data.len(), bytes.len() as int)
}

/// What no use of a store changes: its identity, the engine it runs on, and
/// whether its system interface is closed to the host.
pub open spec fn same_store(before: Store<WasiP1Ctx>, after: Store<WasiP1Ctx>) -> bool {
    &&& store_home(after) == store_home(before)
    &&& store_engine(after) == store_engine(before)
    &&& store_is_closed(after) == store_is_closed(before)
}

/// `Config::new`: the runtime's own configuration, with no memory setting
/// given.
#[verifier::external_body]
pub(crate) fn default_config() -> (config: Config)
    ensures
        config_memory(config) is None,
{
    Config::new()
}

/// `Config::memory_reservation`, `Config::memory_reservation_for_growth` and
/// `Config::memory_guard_size`: gives a configuration the three memory
/// settings.
#[verifier::external_body]
pub(crate) fn set_memory(config: &mut Config, reservation: u64, growth: u64, guard: u64)
    ensures
        config_memory(*final(config)) == Some((reservation, growth, guard)),
{
    config.memory_reservation(reservation);
    config.memory_reservation_for_growth(growth);
    config.memory_guard_size(guard);
}

/// `Module::new` on an `Engine::new` of the configuration: compiles a module
/// image. Whether that succeeds is the runtime's affair; a configuration or
/// an image that it rejects gives an error. A module that comes back is the
/// compiled form of this image, on an engine of this configuration.
#[verifier::external_body]
pub(crate) fn compile_module(config: &Config, image: &[u8]) -> (out: Result<Module, Error>)
    ensures
        out is Ok ==> module_image(out->Ok_0) == image@,
        out is Ok ==> module_memory(out->Ok_0) == config_memory(*config),
{
    Module::new(&Engine::new(config)?, image)
}

/// `Store::try_new` on the module's engine, with the state that
/// `WasiCtxBuilder::new().build_p1()` gives. Whether that succeeds is the
/// runtime's affair; a store that cannot be allocated gives an error. A
/// store that comes back runs on the engine that compiled the module, and
/// its system interface is as a builder leaves it to which nothing was
/// added: no argument, no environment variable, no preopened directory, and
/// every socket address denied.
#[verifier::external_body]
pub(crate) fn fresh_store(module: &Module) -> (out: Result<Store<WasiP1Ctx>, Error>)
    ensures
        out is Ok ==> store_engine(out->Ok_0) == module_engine(*module),
        out is Ok ==> store_is_closed(out->Ok_0),
{
    Store::try_new(module.engine(), WasiCtxBuilder::new().build_p1())
}

/// `Linker::new` on the store's own engine, `p1::add_to_linker_sync`,
/// `Linker::module` under the empty name and `Linker::instantiate`, in that
/// order, the first error ending the sequence. The store stays the same
/// store, and an instance that comes back belongs to it and is one of this
/// module.
#[verifier::external_body]
pub(crate) fn instantiate(store: &mut Store<WasiP1Ctx>, module: &Module) -> (out: Result<
    Instance,
    Error,
>)
    ensures
        same_store(*old(store), *final(store)),
        out is Ok ==> instance_home(out->Ok_0) == store_home(*final(store)),
        out is Ok ==> instance_module(out->Ok_0) == *module,
{
    let mut linker = Linker::new(store.engine());
    wasmtime_wasi::p1::add_to_linker_sync(&mut linker, |state| state)?;
    linker.module(&mut *store, "", module)?;
    linker.instantiate(store, module)
}

/// `Instance::get_typed_func::<u32, u32>`: looks an export up by name and
/// checks its type. A function that comes back is what the instance exports
/// under that name; where the instance exports no function of that name and
/// type, an error comes back. The runtime may also fail for want of memory,
/// so that an error does not say that the export is missing. The runtime
/// panics unless the store owns the instance.
#[verifier::external_body]
pub(crate) fn export_unary(store: &mut Store<WasiP1Ctx>, instance: &Instance, name: &str) -> (out:
    Result<TypedFunc<u32, u32>, Error>)
    requires
        instance_home(*instance) == store_home(*old(store)),
    ensures
        same_store(*old(store), *final(store)),
        out is Ok ==> unary_export(*instance, name@) == Some(out->Ok_0),
        out is Ok ==> unary_home(out->Ok_0) == store_home(*final(store)),
{
    instance.get_typed_func::<u32, u32>(store, name)
}

/// `Instance::get_typed_func::<u32, ()>`: as above, for a function that
/// returns nothing.
#[verifier::external_body]
pub(crate) fn export_sink(store: &mut Store<WasiP1Ctx>, instance: &Instance, name: &str) -> (out:
    Result<TypedFunc<u32, ()>, Error>)
    requires
        instance_home(*instance) == store_home(*old(store)),
    ensures
        same_store(*old(store), *final(store)),
        out is Ok ==> sink_export(*instance, name@) == Some(out->Ok_0),
        out is Ok ==> sink_home(out->Ok_0) == store_home(*final(store)),
{
    instance.get_typed_func::<u32, ()>(store, name)
}

/// `Instance::get_typed_func::<(u32, u32), u32>`: as above, for a function of
/// two numbers.
#[verifier::external_body]
pub(crate) fn export_binary(store: &mut Store<WasiP1Ctx>, instance: &Instance, name: &str) -> (out:
    Result<TypedFunc<(u32, u32), u32>, Error>)
    requires
        instance_home(*instance) == store_home(*old(store)),
    ensures
        same_store(*old(store), *final(store)),
        out is Ok ==> binary_export(*instance, name@) == Some(out->Ok_0),
        out is Ok ==> binary_home(out->Ok_0) == store_home(*final(store)),
{
    instance.get_typed_func::<(u32, u32), u32>(store, name)
}

/// `Instance::get_typed_func::<(u32, u32, u32), u32>`: as above, for a
/// function of three numbers.
#[verifier::external_body]
pub(crate) fn export_ternary(store: &mut Store<WasiP1Ctx>, instance: &Instance, name: &str) -> (out:
    Result<TypedFunc<(u32, u32, u32), u32>, Error>)
    requires
        instance_home(*instance) == store_home(*old(store)),
    ensures
        same_store(*old(store), *final(store)),
        out is Ok ==> ternary_export(*instance, name@) == Some(out->Ok_0),
        out is Ok ==> ternary_home(out->Ok_0) == store_home(*final(store)),
{
    instance.get_typed_func::<(u32, u32, u32), u32>(store, name)
}

/// `Instance::get_memory`: looks an exported linear memory up by name. What
/// comes back is what the instance exports under that name, and nothing
/// where it exports no memory of that name. The runtime panics unless the
/// store owns the instance.
#[verifier::external_body]
pub(crate) fn export_memory(store: &mut Store<WasiP1Ctx>, instance: &Instance, name: &str) -> (out:
    Option<Memory>)
    requires
        instance_home(*instance) == store_home(*old(store)),
    ensures
        same_store(*old(store), *final(store)),
        out == memory_export(*instance, name@),
        out is Some ==> memory_home(out->Some_0) == store_home(*final(store)),
{
    instance.get_memory(store, name)
}

/// `TypedFunc::call` on a function from one number to one number. The guest
/// runs; what it returns and what it leaves in its memory is its own affair,
/// and a trap gives an error. The call comes back when the guest does. The
/// runtime panics unless the store owns the function.
#[verifier::external_body]
pub(crate) fn call_unary(store: &mut Store<WasiP1Ctx>, func: &TypedFunc<u32, u32>, a: u32) -> (out:
    Result<u32, Error>)
    requires
        unary_home(*func) == store_home(*old(store)),
    ensures
        same_store(*old(store), *final(store)),
{
    func.call(store, a)
}

/// `TypedFunc::call` on a function from one number to nothing: as above.
#[verifier::external_body]
pub(crate) fn call_sink(store: &mut Store<WasiP1Ctx>, func: &TypedFunc<u32, ()>, a: u32) -> (out:
    Result<(), Error>)
    requires
        sink_home(*func) == store_home(*old(store)),
    ensures
        same_store(*old(store), *final(store)),
{
    func.call(store, a)
}

/// `TypedFunc::call` on a function from two numbers to one number: as above.
#[verifier::external_body]
pub(crate) fn call_binary(
    store: &mut Store<WasiP1Ctx>,
    func: &TypedFunc<(u32, u32), u32>,
    a: u32,
    b: u32,
) -> (out: Result<u32, Error>)
    requires
        binary_home(*func) == store_home(*old(store)),
    ensures
        same_store(*old(store), *final(store)),
{
    func.call(store, (a, b))
}

/// `TypedFunc::call` on a function from three numbers to one number: as above.
#[verifier::external_body]
pub(crate) fn call_ternary(
    store: &mut Store<WasiP1Ctx>,
    func: &TypedFunc<(u32, u32, u32), u32>,
    a: u32,
    b: u32,
    c: u32,
) -> (out: Result<u32, Error>)
    requires
        ternary_home(*func) == store_home(*old(store)),
    ensures
        same_store(*old(store), *final(store)),
{
    func.call(store, (a, b, c))
}

/// `Memory::write`: copies `data` into the memory at `offset` when the whole
/// range lies inside it, and otherwise writes nothing and reports the miss.
/// The runtime panics unless the store owns the memory.
#[verifier::external_body]
pub(crate) fn write_memory(
    store: &mut Store<WasiP1Ctx>,
    memory: &Memory,
    offset: usize,
    data: &[u8],
) -> (stored: bool)
    requires
        memory_home(*memory) == store_home(*old(store)),
    ensures
        same_store(*old(store), *final(store)),
        stored <==> offset + data@.len() <= memory_bytes(*old(store), *memory).len(),
        stored ==> memory_bytes(*final(store), *memory) == overlaid(
            memory_bytes(*old(store), *memory),
            offset as int,
            data@,
        ),
        !stored ==> memory_bytes(*final(store), *memory) == memory_bytes(*old(store), *memory),
{
    memory.write(store, offset, data).is_ok()
}

/// `Memory::read` into a buffer of `len` bytes: copies that many bytes out of
/// the memory from `offset` when the whole range lies inside it, and
/// otherwise reports the miss. The runtime panics unless the store owns the
/// memory, and no buffer is longer than `isize::MAX`.
#[verifier::external_body]
pub(crate) fn read_memory(store: &Store<WasiP1Ctx>, memory: &Memory, offset: usize, len: usize) -> (out:
    Option<Vec<u8>>)
    requires
        memory_home(*memory) == store_home(*store),
        len <= isize::MAX,
    ensures
        out is Some <==> offset + len <= memory_bytes(*store, *memory).len(),
        out is Some ==> out->Some_0@ == memory_bytes(*store, *memory).subrange(
            offset as int,
            offset + len,
        ),
{
    let mut buffer = vec![0u8; len];
    memory.read(store, offset, &mut buffer).ok().map(|_| buffer)
}

/// `String::push`: appends one character.
#[verifier::external_body]
pub(crate) fn push_char(text: &mut String, c: char)
    ensures
        final(text)@ == old(text)@.push(c),
{
    text.push(c)
}

} // verus!
