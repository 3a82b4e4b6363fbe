//! Guests of activations, one instance for each call.

use crate::automation_control::error::{ControlPlaneError, ControlPlaneErrorModel};
use crate::protocol::AUTOMATION_ABI_VERSION;
use crate::wasm::{
    advance_key, alloc_key, call_advance, call_alloc, call_free, call_register, call_version,
    compile_module, default_engine, exported_advance, exported_alloc, exported_free,
    exported_memory, exported_register, exported_version, exports_advance, exports_alloc,
    exports_free, exports_memory, exports_register, exports_version, free_key, handle_of,
    has_default_configuration, instantiate, memory_key, new_store, read_memory, register_key,
    same_engine, store_key, store_log, unpack_handle, version_key, write_memory, GuestExports, StoreStep,
};
use vstd::prelude::*;
use wasmtime::{Engine, Memory, Store, TypedFunc};

verus! {

/// Refuse a guest that speaks another version of the raw interface.
pub fn check_abi_version(version: u32) -> (result: Result<(), ControlPlaneError>)
    ensures
        result is Ok <==> version == AUTOMATION_ABI_VERSION,
        result is Err ==> result->Err_0.deep_view() == (ControlPlaneErrorModel::AbiVersionMismatch {
            expected: AUTOMATION_ABI_VERSION,
            actual: version,
        }),
{
    if version == AUTOMATION_ABI_VERSION {
        Ok(())
    } else {
        Err(
            ControlPlaneError::AbiVersionMismatch {
                expected: AUTOMATION_ABI_VERSION,
                actual: version,
            },
        )
    }
}

/// The memory that a guest exports, or the error where it exports none.
pub fn require_memory(memory: Option<Memory>) -> (result: Result<Memory, ControlPlaneError>)
    ensures
        match memory {
            Some(memory) => result == Ok::<Memory, ControlPlaneError>(memory),
            None => result is Err && result->Err_0.deep_view() == ControlPlaneErrorModel::Runtime(
                "guest did not export memory"@,
            ),
        },
{
    match memory {
        Some(memory) => Ok(memory),
        None => Err(ControlPlaneError::Runtime("guest did not export memory".to_string())),
    }
}

fn runtime_result<T>(result: Result<T, String>) -> (mapped: Result<T, ControlPlaneError>)
    ensures
        match result {
            Ok(value) => mapped == Ok::<T, ControlPlaneError>(value),
            Err(reason) => mapped is Err && mapped->Err_0.deep_view()
                == ControlPlaneErrorModel::Runtime(reason@),
        },
{
    match result {
        Ok(value) => Ok(value),
        Err(reason) => Err(ControlPlaneError::Runtime(reason)),
    }
}

/// What a guest told in its decoded answer: a value, or the message of an error.
pub fn guest_answer<T>(answer: Result<T, String>) -> (result: Result<T, ControlPlaneError>)
    ensures
        match answer {
            Ok(value) => result == Ok::<T, ControlPlaneError>(value),
            Err(message) => result is Err && result->Err_0.deep_view()
                == ControlPlaneErrorModel::Runtime(message@),
        },
{
    runtime_result(answer)
}

/// Whether a failure is one of the runtime or of the interface version.
pub open spec fn fails_in_guest<T>(result: Result<T, ControlPlaneError>) -> bool {
    result is Err ==> result->Err_0.deep_view() is Runtime
        || result->Err_0.deep_view() is AbiVersionMismatch
}

/// Whether `answer` is what a guest of `artifact` registers with.
pub open spec fn guest_registered(artifact: Seq<u8>, answer: Seq<u8>) -> bool {
    exists|exports: GuestExports, handle: u64|
        {
            &&& exports.are_exported("mango_automation_dealloc"@, "mango_automation_step"@)
            &&& #[trigger] exports.answered(
                exports.greeting(artifact, AUTOMATION_ABI_VERSION) + exports.registration(handle),
                handle,
                answer,
            )
        }
}

/// Whether `answer` is what a guest of `artifact` answers to `request`, of which
/// it is told the length `len`.
pub open spec fn guest_stepped(
    artifact: Seq<u8>,
    request: Seq<u8>,
    len: u32,
    answer: Seq<u8>,
) -> bool {
    exists|exports: GuestExports, ptr: u32, handle: u64|
        {
            &&& exports.are_exported("mango_automation_dealloc"@, "mango_automation_step"@)
            &&& #[trigger] exports.answered(
                exports.greeting(artifact, AUTOMATION_ABI_VERSION) + exports.advance_of(
                    request,
                    len,
                    ptr,
                    handle,
                ),
                handle,
                answer,
            )
        }
}

/// A guest that was instantiated for one call, with what it exports.
struct GuestInvocation {
    store: Store<()>,
    memory: Memory,
    abi_version: TypedFunc<(), u32>,
    alloc: TypedFunc<u32, u32>,
    dealloc: TypedFunc<(u32, u32), ()>,
    register: TypedFunc<(), u64>,
    step: TypedFunc<(u32, u32), u64>,
}

impl GuestInvocation {
    /// Whether the exports belong to the store.
    spec fn wf(self) -> bool {
        &&& memory_key(self.memory) == store_key(self.store)
        &&& version_key(self.abi_version) == store_key(self.store)
        &&& alloc_key(self.alloc) == store_key(self.store)
        &&& free_key(self.dealloc) == store_key(self.store)
        &&& register_key(self.register) == store_key(self.store)
        &&& advance_key(self.step) == store_key(self.store)
    }

    /// Whether the guest holds `exports`.
    spec fn holds(self, exports: GuestExports) -> bool {
        &&& exports.are_exported("mango_automation_dealloc"@, "mango_automation_step"@)
        &&& self.memory == exports.memory
        &&& self.abi_version == exports.version
        &&& self.alloc == exports.alloc
        &&& self.dealloc == exports.free
        &&& self.register == exports.register
        &&& self.step == exports.advance
    }

    /// Whether the guest holds `exports`, was made of `artifact` just now, and speaks
    /// the version of the host.
    spec fn greeted(self, exports: GuestExports, artifact: Seq<u8>) -> bool {
        &&& self.holds(exports)
        &&& store_log(self.store) == exports.greeting(artifact, AUTOMATION_ABI_VERSION)
    }

    /// Instantiate an artifact, find what it must export, and refuse a guest that
    /// speaks another version of the raw interface.
    fn new(engine: &Engine, artifact: &Vec<u8>) -> (result: Result<Self, ControlPlaneError>)
        ensures
            result is Ok ==> result->Ok_0.wf(),
            result is Ok ==> exists|exports: GuestExports| #[trigger]
                result->Ok_0.greeted(exports, artifact@),
            fails_in_guest(result),
    {
        let module = runtime_result(compile_module(engine, artifact))?;
        let mut store = new_store(engine);
        let instance = runtime_result(instantiate(&mut store, &module))?;
        let memory = require_memory(exported_memory(&mut store, &instance, "memory"))?;
        let abi_version = runtime_result(
            exported_version(&mut store, &instance, "mango_automation_abi_version"),
        )?;
        let alloc = runtime_result(
            exported_alloc(&mut store, &instance, "mango_automation_alloc"),
        )?;
        let dealloc = runtime_result(
            exported_free(&mut store, &instance, "mango_automation_dealloc"),
        )?;
        let register = runtime_result(
            exported_register(&mut store, &instance, "mango_automation_register"),
        )?;
        let step = runtime_result(
            exported_advance(&mut store, &instance, "mango_automation_step"),
        )?;
        let version: u32 = runtime_result(call_version(&mut store, &abi_version))?;
        match check_abi_version(version) {
            Ok(()) => {},
            Err(error) => {
                return Err(error);
            },
        }
        let ghost exports = GuestExports {
            instance,
            memory,
            version: abi_version,
            alloc,
            free: dealloc,
            register,
            advance: step,
        };
        let invocation = GuestInvocation {
            store,
            memory,
            abi_version,
            alloc,
            dealloc,
            register,
            step,
        };
        assert(store_log(invocation.store) =~= exports.greeting(artifact@, AUTOMATION_ABI_VERSION));
        let result: Result<Self, ControlPlaneError> = Ok(invocation);
        assert(result->Ok_0.greeted(exports, artifact@));
        result
    }

    /// Copy a buffer of the guest out and give it back to the guest.
    fn read_response(&mut self, handle: u64) -> (result: Result<Vec<u8>, ControlPlaneError>)
        requires
            old(self).wf(),
        ensures
            final(self).wf(),
            result is Ok ==> forall|exports: GuestExports| #[trigger]
                old(self).holds(exports) ==> exports.answered(
                    store_log(old(self).store),
                    handle,
                    result->Ok_0@,
                ),
            fails_in_guest(result),
    {
        let (ptr, len) = unpack_handle(handle);
        let bytes = runtime_result(
            read_memory(&self.store, &self.memory, ptr as usize, len as usize),
        )?;
        runtime_result(call_free(&mut self.store, &self.dealloc, ptr, len))?;
        assert(handle_of(ptr, len) == handle);
        assert(store_log(self.store) == store_log(old(self).store).push(
            StoreStep::Freed { function: self.dealloc, ptr, len },
        ));
        Ok(bytes)
    }
}

/// Runs guest artifacts, each call in a store of its own.
#[derive(Debug)]
pub struct WasmGuestRuntime {
    pub engine: Engine,
}

impl Clone for WasmGuestRuntime {
    fn clone(&self) -> (copy: Self)
        ensures
            copy == *self,
    {
        WasmGuestRuntime { engine: same_engine(&self.engine) }
    }
}

impl Default for WasmGuestRuntime {
    fn default() -> (runtime: Self)
        ensures
            has_default_configuration(runtime.engine),
    {
        WasmGuestRuntime { engine: default_engine() }
    }
}

impl WasmGuestRuntime {
    /// A runtime with the default engine.
    pub fn new() -> (runtime: Self)
        ensures
            has_default_configuration(runtime.engine),
    {
        WasmGuestRuntime::default()
    }

    /// Load a guest and read its registration. `decode` reads the answer of the guest:
    /// a registration or the message of an error. It fails where there is neither.
    /// What the guest answers is up to it.
    pub fn read_registration<T, D>(&self, artifact: &Vec<u8>, decode: D) -> (result: Result<
        T,
        ControlPlaneError,
    >) where D: FnOnce(&Vec<u8>) -> Result<Result<T, String>, String>
        requires
            forall|answer: &Vec<u8>| #[trigger] decode.requires((answer,)),
        ensures
            result is Ok ==> exists|answer: &Vec<u8>|
                {
                    &&& #[trigger] guest_registered(artifact@, answer@)
                    &&& decode.ensures((answer,), Ok(Ok(result->Ok_0)))
                },
            fails_in_guest(result),
    {
        let answer = self.registration_bytes(artifact)?;
        assert(guest_registered(artifact@, answer@));
        guest_answer(runtime_result(decode(&answer))?)
    }

    /// Load a guest and have it take one step for an encoded request. `decode` reads
    /// the answer of the guest: a response or the message of an error. It fails where
    /// there is neither. What the guest answers is up to it.
    ///
    /// The guest is told the length of the request in 32 bits.
    pub fn step<T, D>(&self, artifact: &Vec<u8>, request: &Vec<u8>, decode: D) -> (result: Result<
        T,
        ControlPlaneError,
    >) where D: FnOnce(&Vec<u8>) -> Result<Result<T, String>, String>
        requires
            forall|answer: &Vec<u8>| #[trigger] decode.requires((answer,)),
        ensures
            result is Ok ==> exists|answer: &Vec<u8>|
                {
                    &&& #[trigger] guest_stepped(
                        artifact@,
                        request@,
                        ((request@.len() as int) % 0x1_0000_0000) as u32,
                        answer@,
                    )
                    &&& decode.ensures((answer,), Ok(Ok(result->Ok_0)))
                },
            fails_in_guest(result),
    {
        let answer = self.step_bytes(artifact, request)?;
        assert(guest_stepped(
            artifact@,
            request@,
            ((request@.len() as int) % 0x1_0000_0000) as u32,
            answer@,
        ));
        guest_answer(runtime_result(decode(&answer))?)
    }

    /// What a guest leaves in its memory for its registration.
    fn registration_bytes(&self, artifact: &Vec<u8>) -> (result: Result<
        Vec<u8>,
        ControlPlaneError,
    >)
        ensures
            result is Ok ==> guest_registered(artifact@, result->Ok_0@),
            fails_in_guest(result),
    {
        let mut invocation = GuestInvocation::new(&self.engine, artifact)?;
        let ghost exports = choose|exports: GuestExports| #[trigger]
            invocation.greeted(exports, artifact@);
        let handle: u64 = runtime_result(
            call_register(&mut invocation.store, &invocation.register),
        )?;
        let ghost asked = invocation;
        let answer = invocation.read_response(handle)?;
        assert(asked.holds(exports));
        assert(store_log(asked.store) =~= exports.greeting(artifact@, AUTOMATION_ABI_VERSION)
            + exports.registration(handle));
        Ok(answer)
    }

    /// What a guest leaves in its memory for one step.
    fn step_bytes(&self, artifact: &Vec<u8>, request: &Vec<u8>) -> (result: Result<
        Vec<u8>,
        ControlPlaneError,
    >)
        ensures
            result is Ok ==> guest_stepped(
                artifact@,
                request@,
                ((request@.len() as int) % 0x1_0000_0000) as u32,
                result->Ok_0@,
            ),
            fails_in_guest(result),
    {
        let mut invocation = GuestInvocation::new(&self.engine, artifact)?;
        let ghost exports = choose|exports: GuestExports| #[trigger]
            invocation.greeted(exports, artifact@);
        let len: u32 = request_len(request.len());
        let ptr: u32 = runtime_result(
            call_alloc(&mut invocation.store, &invocation.alloc, len),
        )?;
        runtime_result(
            write_memory(&mut invocation.store, &invocation.memory, ptr as usize, request),
        )?;
        let handle: u64 = runtime_result(
            call_advance(&mut invocation.store, &invocation.step, ptr, len),
        )?;
        runtime_result(call_free(&mut invocation.store, &invocation.dealloc, ptr, len))?;
        let ghost asked = invocation;
        let answer = invocation.read_response(handle)?;
        assert(asked.holds(exports));
        assert(store_log(asked.store) =~= exports.greeting(artifact@, AUTOMATION_ABI_VERSION)
            + exports.advance_of(request@, len, ptr, handle));
        Ok(answer)
    }
}

/// The length that a guest is told of a request: its low 32 bits.
pub fn request_len(len: usize) -> (told: u32)
    ensures
        told == (len as int) % 0x1_0000_0000,
{
    let wide = len as u64;
    assert(wide & 0xffff_ffff == wide % 0x1_0000_0000) by (bit_vector);
    (wide & 0xffff_ffff) as u32
}

/// A guest that registered was made of the artifact and nothing else, spoke the first
/// version of the raw interface, and was asked for its registration once. What it
/// answered is what its handle points at.
pub proof fn guest_is_asked_to_register(artifact: Seq<u8>, answer: Seq<u8>) -> (asked: (
    GuestExports,
    u64,
))
    requires
        guest_registered(artifact, answer),
    ensures
        ({
            let (exports, handle) = asked;
            &&& exports_memory(exports.instance, "memory"@, exports.memory)
            &&& exports_version(
                exports.instance,
                "mango_automation_abi_version"@,
                exports.version,
            )
            &&& exports_alloc(exports.instance, "mango_automation_alloc"@, exports.alloc)
            &&& exports_free(exports.instance, "mango_automation_dealloc"@, exports.free)
            &&& exports_register(exports.instance, "mango_automation_register"@, exports.register)
            &&& exports_advance(exports.instance, "mango_automation_step"@, exports.advance)
            &&& exports.answered(
                seq![
                    StoreStep::Instantiated { artifact, instance: exports.instance },
                    StoreStep::VersionRead { function: exports.version, version: 1 },
                    StoreStep::Registered { function: exports.register, handle },
                ],
                handle,
                answer,
            )
        }),
{
    let (exports, handle) = choose|exports: GuestExports, handle: u64|
        {
            &&& exports.are_exported("mango_automation_dealloc"@, "mango_automation_step"@)
            &&& #[trigger] exports.answered(
                exports.greeting(artifact, AUTOMATION_ABI_VERSION) + exports.registration(handle),
                handle,
                answer,
            )
        };
    assert(exports.greeting(artifact, AUTOMATION_ABI_VERSION) + exports.registration(handle) =~= seq![
        StoreStep::Instantiated { artifact, instance: exports.instance },
        StoreStep::VersionRead { function: exports.version, version: 1 },
        StoreStep::Registered { function: exports.register, handle },
    ]);
    (exports, handle)
}

/// A guest that advanced was made of the artifact and nothing else, and spoke the first
/// version of the raw interface. The whole request was written into a buffer that the
/// guest made for it, the guest was asked once with this buffer, and got it back. What
/// it answered is what its handle points at.
pub proof fn guest_is_asked_to_advance(artifact: Seq<u8>, request: Seq<u8>, len: u32, answer: Seq<u8>) -> (
asked: (GuestExports, u32, u64))
    requires
        guest_stepped(artifact, request, len, answer),
    ensures
        ({
            let (exports, ptr, handle) = asked;
            &&& exports_memory(exports.instance, "memory"@, exports.memory)
            &&& exports_version(
                exports.instance,
                "mango_automation_abi_version"@,
                exports.version,
            )
            &&& exports_alloc(exports.instance, "mango_automation_alloc"@, exports.alloc)
            &&& exports_free(exports.instance, "mango_automation_dealloc"@, exports.free)
            &&& exports_register(exports.instance, "mango_automation_register"@, exports.register)
            &&& exports_advance(exports.instance, "mango_automation_step"@, exports.advance)
            &&& exports.answered(
                seq![
                    StoreStep::Instantiated { artifact, instance: exports.instance },
                    StoreStep::VersionRead { function: exports.version, version: 1 },
                    StoreStep::Allocated { function: exports.alloc, len: len, ptr },
                    StoreStep::Written {
                        memory: exports.memory,
                        offset: ptr as int,
                        bytes: request,
                    },
                    StoreStep::Advanced {
                        function: exports.advance,
                        ptr,
                        len: len,
                        handle,
                    },
                    StoreStep::Freed { function: exports.free, ptr, len: len },
                ],
                handle,
                answer,
            )
        }),
{
    let (exports, ptr, handle) = choose|exports: GuestExports, ptr: u32, handle: u64|
        {
            &&& exports.are_exported("mango_automation_dealloc"@, "mango_automation_step"@)
            &&& #[trigger] exports.answered(
                exports.greeting(artifact, AUTOMATION_ABI_VERSION) + exports.advance_of(
                    request,
                    len,
                    ptr,
                    handle,
                ),
                handle,
                answer,
            )
        };
    assert(exports.greeting(artifact, AUTOMATION_ABI_VERSION) + exports.advance_of(
        request,
        len,
        ptr,
        handle,
    ) =~= seq![
        StoreStep::Instantiated { artifact, instance: exports.instance },
        StoreStep::VersionRead { function: exports.version, version: 1 },
        StoreStep::Allocated { function: exports.alloc, len: len, ptr },
        StoreStep::Written { memory: exports.memory, offset: ptr as int, bytes: request },
        StoreStep::Advanced { function: exports.advance, ptr, len: len, handle },
        StoreStep::Freed { function: exports.free, ptr, len: len },
    ]);
    (exports, ptr, handle)
}

/// A guest that fails does so at run time or by the version that it speaks, and in no
/// other way.
pub proof fn guests_fail_as_guests<T>(result: Result<T, ControlPlaneError>)
    requires
        fails_in_guest(result),
        result is Err,
    ensures
        result->Err_0 is Runtime || result->Err_0 is AbiVersionMismatch,
{
}

}
