//! The WebAssembly engine that guests run in.
//!
//! What a guest computes is not modelled. What is stated of the engine is which
//! store owns which handle, since a handle is used only with its own store, what
//! was done in a store, and what reads and writes do to the memory of a guest.

use vstd::prelude::*;
use wasmtime::{Engine, Instance, Memory, Module, Store, TypedFunc};

verus! {

#[verifier::external_type_specification]
#[verifier::external_body]
pub struct ExEngine(wasmtime::Engine);

#[verifier::external_type_specification]
#[verifier::external_body]
pub struct ExModule(wasmtime::Module);

#[verifier::external_type_specification]
#[verifier::external_body]
#[verifier::reject_recursive_types(T)]
pub struct ExStore<T: 'static>(wasmtime::Store<T>);

#[verifier::external_type_specification]
#[verifier::external_body]
pub struct ExInstance(wasmtime::Instance);

#[verifier::external_type_specification]
#[verifier::external_body]
pub struct ExMemory(wasmtime::Memory);

#[verifier::external_type_specification]
#[verifier::external_body]
#[verifier::reject_recursive_types(P)]
#[verifier::reject_recursive_types(R)]
pub struct ExTypedFunc<P, R>(wasmtime::TypedFunc<P, R>);

/// One thing that was done in a store.
pub enum StoreStep {
    /// An artifact was instantiated.
    Instantiated {
        artifact: Seq<u8>,
        instance: Instance,
    },
    /// The guest told its version.
    VersionRead {
        function: TypedFunc<(), u32>,
        version: u32,
    },
    /// The guest made a buffer.
    Allocated {
        function: TypedFunc<u32, u32>,
        len: u32,
        ptr: u32,
    },
    /// The host wrote into a memory of the guest.
    Written {
        memory: Memory,
        offset: int,
        bytes: Seq<u8>,
    },
    /// The guest registered.
    Registered {
        function: TypedFunc<(), u64>,
        handle: u64,
    },
    /// The guest advanced.
    Advanced {
        function: TypedFunc<(u32, u32), u64>,
        ptr: u32,
        len: u32,
        handle: u64,
    },
    /// The guest took a buffer back.
    Freed {
        function: TypedFunc<(u32, u32), ()>,
        ptr: u32,
        len: u32,
    },
}

/// Which store this is.
pub uninterp spec fn store_key(store: Store<()>) -> int;

/// What was done in a store, in order.
pub uninterp spec fn store_log(store: Store<()>) -> Seq<StoreStep>;

/// The artifact that a module was compiled from.
pub uninterp spec fn module_artifact(module: Module) -> Seq<u8>;

/// The store that owns an instance.
pub uninterp spec fn instance_key(instance: Instance) -> int;

/// The store that owns a memory.
pub uninterp spec fn memory_key(memory: Memory) -> int;

/// Whether an instance exports a memory under a name.
pub uninterp spec fn exports_memory(instance: Instance, name: Seq<char>, memory: Memory) -> bool;

/// The bytes that a memory of the store holds.
pub uninterp spec fn guest_memory(store: Store<()>, memory: Memory) -> Seq<u8>;

/// The store that owns a function from nothing to a 32-bit number.
pub uninterp spec fn version_key(function: TypedFunc<(), u32>) -> int;

/// Whether an instance exports a function from nothing to a 32-bit number, under a name.
pub uninterp spec fn exports_version(
    instance: Instance,
    name: Seq<char>,
    function: TypedFunc<(), u32>,
) -> bool;

/// The store that owns a function from a length to a pointer.
pub uninterp spec fn alloc_key(function: TypedFunc<u32, u32>) -> int;

/// Whether an instance exports a function from a length to a pointer, under a name.
pub uninterp spec fn exports_alloc(
    instance: Instance,
    name: Seq<char>,
    function: TypedFunc<u32, u32>,
) -> bool;

/// The store that owns a function from a pointer and a length to nothing.
pub uninterp spec fn free_key(function: TypedFunc<(u32, u32), ()>) -> int;

/// Whether an instance exports a function from a pointer and a length to nothing,
/// under a name.
pub uninterp spec fn exports_free(
    instance: Instance,
    name: Seq<char>,
    function: TypedFunc<(u32, u32), ()>,
) -> bool;

/// The store that owns a function from nothing to a packed handle.
pub uninterp spec fn register_key(function: TypedFunc<(), u64>) -> int;

/// Whether an instance exports a function from nothing to a packed handle, under a name.
pub uninterp spec fn exports_register(
    instance: Instance,
    name: Seq<char>,
    function: TypedFunc<(), u64>,
) -> bool;

/// The store that owns a function from a pointer and a length to a packed handle.
pub uninterp spec fn advance_key(function: TypedFunc<(u32, u32), u64>) -> int;

/// Whether an instance exports a function from a pointer and a length to a packed
/// handle, under a name.
pub uninterp spec fn exports_advance(
    instance: Instance,
    name: Seq<char>,
    function: TypedFunc<(u32, u32), u64>,
) -> bool;

/// Whether an engine runs guests under the default configuration.
pub uninterp spec fn has_default_configuration(engine: Engine) -> bool;

/// `wasmtime::Engine::default` makes an engine with the default configuration.
/// What that configuration is on a machine is left unsaid. There is no engine for
/// a machine that is not supported: the call panics there.
#[verifier::external_body]
pub(crate) fn default_engine() -> (engine: Engine)
    ensures
        has_default_configuration(engine),
{
    wasmtime::Engine::default()
}

/// `wasmtime::Engine::clone` gives another handle to one engine.
#[verifier::external_body]
pub(crate) fn same_engine(engine: &Engine) -> (handle: Engine)
    ensures
        handle == *engine,
{
    engine.clone()
}

/// `wasmtime::Module::new` compiles an artifact, or says why it cannot. Which
/// artifacts compile is left unsaid.
#[verifier::external_body]
pub(crate) fn compile_module(engine: &Engine, artifact: &Vec<u8>) -> (result: Result<
    Module,
    String,
>)
    ensures
        result is Ok ==> module_artifact(result->Ok_0) == artifact@,
{
    wasmtime::Module::new(engine, artifact).map_err(|error| error.to_string())
}

/// `wasmtime::Store::new` makes a store in which nothing was done yet.
#[verifier::external_body]
pub(crate) fn new_store(engine: &Engine) -> (store: Store<()>)
    ensures
        store_log(store) == Seq::<StoreStep>::empty(),
{
    wasmtime::Store::new(engine, ())
}

/// `wasmtime::Instance::new` instantiates a module without imports. The
/// instance belongs to the store. Which modules can be instantiated is left
/// unsaid.
#[verifier::external_body]
pub(crate) fn instantiate(store: &mut Store<()>, module: &Module) -> (result: Result<
    Instance,
    String,
>)
    ensures
        store_key(*final(store)) == store_key(*old(store)),
        result is Ok ==> instance_key(result->Ok_0) == store_key(*old(store)),
        result is Ok ==> store_log(*final(store)) == store_log(*old(store)).push(
            StoreStep::Instantiated {
                artifact: module_artifact(*module),
                instance: result->Ok_0,
            },
        ),
{
    wasmtime::Instance::new(store, module, &[]).map_err(|error| error.to_string())
}

/// `wasmtime::Instance::get_memory` looks an exported memory up by its name.
/// The memory belongs to the store. Which names are exported is left unsaid.
#[verifier::external_body]
pub(crate) fn exported_memory(store: &mut Store<()>, instance: &Instance, name: &str) -> (result:
    Option<Memory>)
    requires
        instance_key(*instance) == store_key(*old(store)),
    ensures
        store_key(*final(store)) == store_key(*old(store)),
        store_log(*final(store)) == store_log(*old(store)),
        result is Some ==> memory_key(result->0) == store_key(*old(store)),
        result is Some ==> exports_memory(*instance, name@, result->0),
{
    instance.get_memory(store, name)
}

/// `wasmtime::Memory::read` fills a buffer from a range of a memory. It fails, and
/// leaves the buffer as it is, where the range goes beyond the memory.
#[verifier::external_body]
fn fill_from_memory(
    store: &Store<()>,
    memory: &Memory,
    offset: usize,
    buffer: &mut Vec<u8>,
) -> (result: Result<(), String>)
    requires
        memory_key(*memory) == store_key(*store),
    ensures
        result is Ok <==> offset + old(buffer)@.len() <= guest_memory(*store, *memory).len(),
        final(buffer)@ == if result is Ok {
            guest_memory(*store, *memory).subrange(offset as int, offset + old(buffer)@.len())
        } else {
            old(buffer)@
        },
{
    memory.read(store, offset, buffer).map_err(|error| error.to_string())
}

/// Copy a range of a memory out.
pub(crate) fn read_memory(store: &Store<()>, memory: &Memory, offset: usize, len: usize) -> (result:
    Result<Vec<u8>, String>)
    requires
        memory_key(*memory) == store_key(*store),
    ensures
        result is Ok <==> offset + len <= guest_memory(*store, *memory).len(),
        result is Ok ==> result->Ok_0@ == guest_memory(*store, *memory).subrange(
            offset as int,
            offset + len,
        ),
{
    let mut bytes: Vec<u8> = vec![0u8; len];
    match fill_from_memory(store, memory, offset, &mut bytes) {
        Ok(()) => Ok(bytes),
        Err(reason) => Err(reason),
    }
}

/// `wasmtime::Memory::write` copies bytes over a range of a memory. It fails,
/// and writes nothing, where the range goes beyond the memory.
#[verifier::external_body]
pub(crate) fn write_memory(
    store: &mut Store<()>,
    memory: &Memory,
    offset: usize,
    bytes: &Vec<u8>,
) -> (result: Result<(), String>)
    requires
        memory_key(*memory) == store_key(*old(store)),
    ensures
        store_key(*final(store)) == store_key(*old(store)),
        result is Ok <==> offset + bytes@.len() <= guest_memory(*old(store), *memory).len(),
        guest_memory(*final(store), *memory) == if result is Ok {
            guest_memory(*old(store), *memory).subrange(0, offset as int) + bytes@
                + guest_memory(*old(store), *memory).subrange(
                offset + bytes@.len(),
                guest_memory(*old(store), *memory).len() as int,
            )
        } else {
            guest_memory(*old(store), *memory)
        },
        result is Ok ==> store_log(*final(store)) == store_log(*old(store)).push(
            StoreStep::Written { memory: *memory, offset: offset as int, bytes: bytes@ },
        ),
{
    memory.write(store, offset, bytes).map_err(|error| error.to_string())
}

/// `wasmtime::Instance::get_typed_func` looks an exported function up by its
/// name and type: a function from nothing to a 32-bit number. The
/// function belongs to the store. Which names are exported is left unsaid.
#[verifier::external_body]
pub(crate) fn exported_version(store: &mut Store<()>, instance: &Instance, name: &str) -> (result:
    Result<TypedFunc<(), u32>, String>)
    requires
        instance_key(*instance) == store_key(*old(store)),
    ensures
        store_key(*final(store)) == store_key(*old(store)),
        store_log(*final(store)) == store_log(*old(store)),
        result is Ok ==> version_key(result->Ok_0) == store_key(*old(store)),
        result is Ok ==> exports_version(*instance, name@, result->Ok_0),
{
    instance.get_typed_func::<(), u32>(store, name).map_err(|error| error.to_string())
}

/// `wasmtime::TypedFunc::call` runs an exported guest function. What the guest
/// returns, and what it does to its memory, is up to the guest and left unsaid.
#[verifier::external_body]
pub(crate) fn call_version(
    store: &mut Store<()>,
    function: &TypedFunc<(), u32>,
) -> (result: Result<u32, String>)
    requires
        version_key(*function) == store_key(*old(store)),
    ensures
        store_key(*final(store)) == store_key(*old(store)),
        result is Ok ==> store_log(*final(store)) == store_log(*old(store)).push(
            StoreStep::VersionRead { function: *function, version: result->Ok_0 },
        ),
{
    function.call(store, ()).map_err(|error| error.to_string())
}

/// `wasmtime::Instance::get_typed_func` looks an exported function up by its
/// name and type: a function from a length to a pointer. The
/// function belongs to the store. Which names are exported is left unsaid.
#[verifier::external_body]
pub(crate) fn exported_alloc(store: &mut Store<()>, instance: &Instance, name: &str) -> (result:
    Result<TypedFunc<u32, u32>, String>)
    requires
        instance_key(*instance) == store_key(*old(store)),
    ensures
        store_key(*final(store)) == store_key(*old(store)),
        store_log(*final(store)) == store_log(*old(store)),
        result is Ok ==> alloc_key(result->Ok_0) == store_key(*old(store)),
        result is Ok ==> exports_alloc(*instance, name@, result->Ok_0),
{
    instance.get_typed_func::<u32, u32>(store, name).map_err(|error| error.to_string())
}

/// `wasmtime::TypedFunc::call` runs an exported guest function. What the guest
/// returns, and what it does to its memory, is up to the guest and left unsaid.
#[verifier::external_body]
pub(crate) fn call_alloc(
    store: &mut Store<()>,
    function: &TypedFunc<u32, u32>,
    len: u32,
) -> (result: Result<u32, String>)
    requires
        alloc_key(*function) == store_key(*old(store)),
    ensures
        store_key(*final(store)) == store_key(*old(store)),
        result is Ok ==> store_log(*final(store)) == store_log(*old(store)).push(
            StoreStep::Allocated { function: *function, len, ptr: result->Ok_0 },
        ),
{
    function.call(store, len).map_err(|error| error.to_string())
}

/// `wasmtime::Instance::get_typed_func` looks an exported function up by its
/// name and type: a function from a pointer and a length to nothing. The
/// function belongs to the store. Which names are exported is left unsaid.
#[verifier::external_body]
pub(crate) fn exported_free(store: &mut Store<()>, instance: &Instance, name: &str) -> (result:
    Result<TypedFunc<(u32, u32), ()>, String>)
    requires
        instance_key(*instance) == store_key(*old(store)),
    ensures
        store_key(*final(store)) == store_key(*old(store)),
        store_log(*final(store)) == store_log(*old(store)),
        result is Ok ==> free_key(result->Ok_0) == store_key(*old(store)),
        result is Ok ==> exports_free(*instance, name@, result->Ok_0),
{
    instance.get_typed_func::<(u32, u32), ()>(store, name).map_err(|error| error.to_string())
}

/// `wasmtime::TypedFunc::call` runs an exported guest function. What the guest
/// returns, and what it does to its memory, is up to the guest and left unsaid.
#[verifier::external_body]
pub(crate) fn call_free(
    store: &mut Store<()>,
    function: &TypedFunc<(u32, u32), ()>,
    ptr: u32,
    len: u32,
) -> (result: Result<(), String>)
    requires
        free_key(*function) == store_key(*old(store)),
    ensures
        store_key(*final(store)) == store_key(*old(store)),
        result is Ok ==> store_log(*final(store)) == store_log(*old(store)).push(
            StoreStep::Freed { function: *function, ptr, len },
        ),
{
    function.call(store, (ptr, len)).map_err(|error| error.to_string())
}

/// `wasmtime::Instance::get_typed_func` looks an exported function up by its
/// name and type: a function from nothing to a packed handle. The
/// function belongs to the store. Which names are exported is left unsaid.
#[verifier::external_body]
pub(crate) fn exported_register(store: &mut Store<()>, instance: &Instance, name: &str) -> (result:
    Result<TypedFunc<(), u64>, String>)
    requires
        instance_key(*instance) == store_key(*old(store)),
    ensures
        store_key(*final(store)) == store_key(*old(store)),
        store_log(*final(store)) == store_log(*old(store)),
        result is Ok ==> register_key(result->Ok_0) == store_key(*old(store)),
        result is Ok ==> exports_register(*instance, name@, result->Ok_0),
{
    instance.get_typed_func::<(), u64>(store, name).map_err(|error| error.to_string())
}

/// `wasmtime::TypedFunc::call` runs an exported guest function. What the guest
/// returns, and what it does to its memory, is up to the guest and left unsaid.
#[verifier::external_body]
pub(crate) fn call_register(
    store: &mut Store<()>,
    function: &TypedFunc<(), u64>,
) -> (result: Result<u64, String>)
    requires
        register_key(*function) == store_key(*old(store)),
    ensures
        store_key(*final(store)) == store_key(*old(store)),
        result is Ok ==> store_log(*final(store)) == store_log(*old(store)).push(
            StoreStep::Registered { function: *function, handle: result->Ok_0 },
        ),
{
    function.call(store, ()).map_err(|error| error.to_string())
}

/// `wasmtime::Instance::get_typed_func` looks an exported function up by its
/// name and type: a function from a pointer and a length to a packed handle. The
/// function belongs to the store. Which names are exported is left unsaid.
#[verifier::external_body]
pub(crate) fn exported_advance(store: &mut Store<()>, instance: &Instance, name: &str) -> (result:
    Result<TypedFunc<(u32, u32), u64>, String>)
    requires
        instance_key(*instance) == store_key(*old(store)),
    ensures
        store_key(*final(store)) == store_key(*old(store)),
        store_log(*final(store)) == store_log(*old(store)),
        result is Ok ==> advance_key(result->Ok_0) == store_key(*old(store)),
        result is Ok ==> exports_advance(*instance, name@, result->Ok_0),
{
    instance.get_typed_func::<(u32, u32), u64>(store, name).map_err(|error| error.to_string())
}

/// `wasmtime::TypedFunc::call` runs an exported guest function. What the guest
/// returns, and what it does to its memory, is up to the guest and left unsaid.
#[verifier::external_body]
pub(crate) fn call_advance(
    store: &mut Store<()>,
    function: &TypedFunc<(u32, u32), u64>,
    ptr: u32,
    len: u32,
) -> (result: Result<u64, String>)
    requires
        advance_key(*function) == store_key(*old(store)),
    ensures
        store_key(*final(store)) == store_key(*old(store)),
        result is Ok ==> store_log(*final(store)) == store_log(*old(store)).push(
            StoreStep::Advanced { function: *function, ptr, len, handle: result->Ok_0 },
        ),
{
    function.call(store, (ptr, len)).map_err(|error| error.to_string())
}

/// The handle of a guest buffer: its length above its pointer.
pub open spec fn handle_of(ptr: u32, len: u32) -> int {
    len * 0x1_0000_0000 + ptr
}

/// Pack a guest buffer into one number.
pub fn pack_handle(ptr: u32, len: u32) -> (packed: u64)
    ensures
        packed == handle_of(ptr, len),
{
    let high = len as u64;
    let low = ptr as u64;
    assert((high << 32) | low == high * 0x1_0000_0000 + low) by (bit_vector)
        requires
            high <= 0xffff_ffff,
            low <= 0xffff_ffff,
    ;
    (high << 32) | low
}

/// The pointer and the length of a packed guest buffer.
pub fn unpack_handle(packed: u64) -> (parts: (u32, u32))
    ensures
        handle_of(parts.0, parts.1) == packed,
{
    let low = packed & 0xffff_ffff;
    let high = packed >> 32;
    assert(low <= 0xffff_ffff && high <= 0xffff_ffff && high * 0x1_0000_0000 + low == packed) by (
    bit_vector)
        requires
            low == packed & 0xffff_ffff,
            high == packed >> 32,
    ;
    (low as u32, high as u32)
}

/// What a guest exports.
pub struct GuestExports {
    pub instance: Instance,
    pub memory: Memory,
    pub version: TypedFunc<(), u32>,
    pub alloc: TypedFunc<u32, u32>,
    pub free: TypedFunc<(u32, u32), ()>,
    pub register: TypedFunc<(), u64>,
    pub advance: TypedFunc<(u32, u32), u64>,
}

impl GuestExports {
    /// Whether the instance exports all this under the names of the raw
    /// interface. Interfaces differ in how they name the last two functions.
    pub open spec fn are_exported(self, free_name: Seq<char>, advance_name: Seq<char>) -> bool {
        &&& exports_memory(self.instance, "memory"@, self.memory)
        &&& exports_version(self.instance, "mango_automation_abi_version"@, self.version)
        &&& exports_alloc(self.instance, "mango_automation_alloc"@, self.alloc)
        &&& exports_free(self.instance, free_name, self.free)
        &&& exports_register(self.instance, "mango_automation_register"@, self.register)
        &&& exports_advance(self.instance, advance_name, self.advance)
    }

    /// What is done with a guest before it is asked anything: it is instantiated,
    /// and it speaks `version` of the raw interface.
    pub open spec fn greeting(self, artifact: Seq<u8>, version: u32) -> Seq<StoreStep> {
        seq![
            StoreStep::Instantiated { artifact, instance: self.instance },
            StoreStep::VersionRead { function: self.version, version },
        ]
    }

    /// What is done to have a guest register.
    pub open spec fn registration(self, handle: u64) -> Seq<StoreStep> {
        seq![StoreStep::Registered { function: self.register, handle }]
    }

    /// What is done to have a guest advance: the request goes into a buffer of the
    /// guest, which is given back after the call.
    pub open spec fn advance_of(self, request: Seq<u8>, len: u32, ptr: u32, handle: u64) -> Seq<
        StoreStep,
    > {
        seq![
            StoreStep::Allocated { function: self.alloc, len, ptr },
            StoreStep::Written { memory: self.memory, offset: ptr as int, bytes: request },
            StoreStep::Advanced { function: self.advance, ptr, len, handle },
            StoreStep::Freed { function: self.free, ptr, len },
        ]
    }

    /// Whether `answer` is what the guest held at `handle` in some store after
    /// `steps`, and no more was done after that than to give the buffer back.
    pub open spec fn answered(self, steps: Seq<StoreStep>, handle: u64, answer: Seq<u8>) -> bool {
        exists|asked: Store<()>, done: Store<()>, ptr: u32, len: u32|
            {
                &&& #[trigger] store_log(asked) == steps
                &&& #[trigger] handle_of(ptr, len) == handle
                &&& ptr + len <= guest_memory(asked, self.memory).len()
                &&& answer == guest_memory(asked, self.memory).subrange(ptr as int, ptr + len)
                &&& #[trigger] store_log(done) == steps.push(
                    StoreStep::Freed { function: self.free, ptr, len },
                )
            }
    }
}

/// A handle names one buffer: no two buffers have the same handle.
pub proof fn handle_names_one_buffer(ptr: u32, len: u32, other_ptr: u32, other_len: u32)
    requires
        handle_of(ptr, len) == handle_of(other_ptr, other_len),
    ensures
        ptr == other_ptr,
        len == other_len,
{
}

/// A handle holds the length of its buffer above the pointer.
pub proof fn handle_holds_length_and_pointer(ptr: u32, len: u32)
    ensures
        handle_of(ptr, len) / 0x1_0000_0000 == len,
        handle_of(ptr, len) % 0x1_0000_0000 == ptr,
        0 <= handle_of(ptr, len) <= u64::MAX,
{
}

/// An answer is the bytes of the guest that its handle points at, in the store as the
/// guest left it, and the guest gets this buffer back.
pub proof fn answer_is_what_the_handle_points_at(
    exports: GuestExports,
    steps: Seq<StoreStep>,
    handle: u64,
    answer: Seq<u8>,
) -> (stores: (Store<()>, Store<()>))
    requires
        exports.answered(steps, handle, answer),
    ensures
        store_log(stores.0) == steps,
        (handle as int) % 0x1_0000_0000 + (handle as int) / 0x1_0000_0000 <= guest_memory(
            stores.0,
            exports.memory,
        ).len(),
        answer.len() == (handle as int) / 0x1_0000_0000,
        forall|i: int|
            0 <= i < answer.len() ==> #[trigger] answer[i] == guest_memory(
                stores.0,
                exports.memory,
            )[(handle as int) % 0x1_0000_0000 + i],
        store_log(stores.1) == steps + seq![
            StoreStep::Freed {
                function: exports.free,
                ptr: ((handle as int) % 0x1_0000_0000) as u32,
                len: ((handle as int) / 0x1_0000_0000) as u32,
            },
        ],
{
    let (asked, done, ptr, len) = choose|asked: Store<()>, done: Store<()>, ptr: u32, len: u32|
        {
            &&& #[trigger] store_log(asked) == steps
            &&& #[trigger] handle_of(ptr, len) == handle
            &&& ptr + len <= guest_memory(asked, exports.memory).len()
            &&& answer == guest_memory(asked, exports.memory).subrange(ptr as int, ptr + len)
            &&& #[trigger] store_log(done) == steps.push(
                StoreStep::Freed { function: exports.free, ptr, len },
            )
        };
    handle_holds_length_and_pointer(ptr, len);
    assert(steps.push(StoreStep::Freed { function: exports.free, ptr, len }) =~= steps + seq![
        StoreStep::Freed { function: exports.free, ptr, len },
    ]);
    (asked, done)
}

}
