//! Guests of the control plane: Wasm artifacts behind a small raw interface.

use crate::automations::error::{AutomationsError, AutomationsErrorModel};
use crate::protocol::{
    AdvanceEnvelope, AdvanceEnvelopeModel, AdvanceResponse, RegistrationEnvelope,
    RegistrationEnvelopeModel, RegistrationResponse, AUTOMATION_ABI_VERSION,
};
use crate::text::{decimal, decimal_text};
use crate::wasm::{
    advance_key, alloc_key, call_advance, call_alloc, call_free, call_register, call_version,
    compile_module, default_engine, exported_advance, exported_alloc, exported_free,
    exported_memory, exported_register, exported_version, exports_advance, exports_alloc,
    exports_free, exports_memory, exports_register, exports_version, free_key, handle_of,
    has_default_configuration, instantiate, memory_key, new_store, read_memory, register_key,
    same_engine, store_key, store_log, unpack_handle, write_memory, GuestExports, StoreStep,
};
use vstd::prelude::*;
use wasmtime::{Engine, Memory, Store, TypedFunc};

verus! {

/// Refuse a guest that speaks another version of the raw interface.
pub fn check_abi_version(version: u32) -> (result: Result<(), AutomationsError>)
    ensures
        result is Ok <==> version == AUTOMATION_ABI_VERSION,
        result is Err ==> result->Err_0.deep_view() == AutomationsErrorModel::Guest(
            "automation ABI version mismatch: guest="@ + decimal(version as nat) + ", host="@
                + decimal(AUTOMATION_ABI_VERSION as nat),
        ),
{
    if version == AUTOMATION_ABI_VERSION {
        Ok(())
    } else {
        Err(
            AutomationsError::Guest(
                "automation ABI version mismatch: guest=".to_string().concat(
                    decimal_text(version as u64).as_str(),
                ).concat(", host=").concat(decimal_text(AUTOMATION_ABI_VERSION as u64).as_str()),
            ),
        )
    }
}

/// The memory that a guest exports, or the error where it exports none.
pub fn require_memory(memory: Option<Memory>) -> (result: Result<Memory, AutomationsError>)
    ensures
        match memory {
            Some(memory) => result == Ok::<Memory, AutomationsError>(memory),
            None => result is Err && result->Err_0.deep_view() == AutomationsErrorModel::Guest(
                "guest does not export memory"@,
            ),
        },
{
    match memory {
        Some(memory) => Ok(memory),
        None => Err(AutomationsError::Guest("guest does not export memory".to_string())),
    }
}

/// The length of a request as guests take it.
pub fn guest_request_len(len: usize) -> (result: Result<u32, AutomationsError>)
    ensures
        result is Ok <==> len <= u32::MAX,
        result is Ok ==> result->Ok_0 == len,
        result is Err ==> result->Err_0.deep_view() == AutomationsErrorModel::Guest(
            "guest request exceeded Wasm32 ABI"@,
        ),
{
    if len <= u32::MAX as usize {
        Ok(len as u32)
    } else {
        Err(AutomationsError::Guest("guest request exceeded Wasm32 ABI".to_string()))
    }
}

impl RegistrationEnvelope {
    /// The response in the envelope, or the error that the guest reported.
    pub fn into_result(self) -> (result: Result<RegistrationResponse, AutomationsError>)
        ensures
            match self.deep_view() {
                RegistrationEnvelopeModel::Success(response) => result is Ok
                    && result->Ok_0.deep_view() == response,
                RegistrationEnvelopeModel::Failure(message) => result is Err
                    && result->Err_0.deep_view() == AutomationsErrorModel::Guest(message),
            },
    {
        match self {
            RegistrationEnvelope::Success(response) => Ok(response),
            RegistrationEnvelope::Failure(message) => Err(AutomationsError::Guest(message)),
        }
    }
}

impl AdvanceEnvelope {
    /// The response in the envelope, or the error that the guest reported.
    pub fn into_result(self) -> (result: Result<AdvanceResponse, AutomationsError>)
        ensures
            match self.deep_view() {
                AdvanceEnvelopeModel::Success(response) => result is Ok
                    && result->Ok_0.deep_view() == response,
                AdvanceEnvelopeModel::Failure(message) => result is Err
                    && result->Err_0.deep_view() == AutomationsErrorModel::Guest(message),
            },
    {
        match self {
            AdvanceEnvelope::Success(response) => Ok(response),
            AdvanceEnvelope::Failure(message) => Err(AutomationsError::Guest(message)),
        }
    }
}

fn guest_result<T>(result: Result<T, String>) -> (mapped: Result<T, AutomationsError>)
    ensures
        match result {
            Ok(value) => mapped == Ok::<T, AutomationsError>(value),
            Err(reason) => mapped is Err && mapped->Err_0.deep_view()
                == AutomationsErrorModel::Guest(reason@),
        },
{
    match result {
        Ok(value) => Ok(value),
        Err(reason) => Err(AutomationsError::Guest(reason)),
    }
}

/// Whether every failure is one of the guest.
spec fn fails_as_guest<T>(result: Result<T, AutomationsError>) -> bool {
    result is Err ==> result->Err_0.deep_view() is Guest
}

/// Whether `answer` is what a guest of `artifact` registers with.
pub open spec fn guest_registered(artifact: Seq<u8>, answer: Seq<u8>) -> bool {
    exists|exports: GuestExports, handle: u64|
        {
            &&& exports.are_exported("mango_automation_free"@, "mango_automation_advance"@)
            &&& #[trigger] exports.answered(
                exports.greeting(artifact, AUTOMATION_ABI_VERSION) + exports.registration(handle),
                handle,
                answer,
            )
        }
}

/// Whether `answer` is what a guest of `artifact` answers to `request`.
pub open spec fn guest_advanced(artifact: Seq<u8>, request: Seq<u8>, answer: Seq<u8>) -> bool {
    exists|exports: GuestExports, ptr: u32, handle: u64|
        {
            &&& exports.are_exported("mango_automation_free"@, "mango_automation_advance"@)
            &&& #[trigger] exports.answered(
                exports.greeting(artifact, AUTOMATION_ABI_VERSION) + exports.advance_of(
                    request,
                    request.len() as u32,
                    ptr,
                    handle,
                ),
                handle,
                answer,
            )
        }
}

/// A guest that was instantiated, with what it exports.
struct LoadedGuest {
    store: Store<()>,
    memory: Memory,
    alloc: TypedFunc<u32, u32>,
    free: TypedFunc<(u32, u32), ()>,
    register: TypedFunc<(), u64>,
    advance: TypedFunc<(u32, u32), u64>,
}

impl LoadedGuest {
    /// Whether the exports belong to the store.
    spec fn wf(self) -> bool {
        &&& memory_key(self.memory) == store_key(self.store)
        &&& alloc_key(self.alloc) == store_key(self.store)
        &&& free_key(self.free) == store_key(self.store)
        &&& register_key(self.register) == store_key(self.store)
        &&& advance_key(self.advance) == store_key(self.store)
    }

    /// Whether the guest holds `exports`.
    spec fn holds(self, exports: GuestExports) -> bool {
        &&& exports.are_exported("mango_automation_free"@, "mango_automation_advance"@)
        &&& self.memory == exports.memory
        &&& self.alloc == exports.alloc
        &&& self.free == exports.free
        &&& self.register == exports.register
        &&& self.advance == exports.advance
    }

    /// Whether the guest holds `exports` and was made of `artifact` just now.
    spec fn holds_of(self, exports: GuestExports, artifact: Seq<u8>) -> bool {
        &&& self.holds(exports)
        &&& store_log(self.store) == exports.greeting(artifact, AUTOMATION_ABI_VERSION)
    }

    /// Instantiate an artifact and find what it must export.
    fn load(engine: &Engine, artifact: &Vec<u8>) -> (result: Result<Self, AutomationsError>)
        ensures
            result is Ok ==> result->Ok_0.wf(),
            result is Ok ==> exists|exports: GuestExports| #[trigger]
                result->Ok_0.holds_of(exports, artifact@),
            fails_as_guest(result),
    {
        let module = guest_result(compile_module(engine, artifact))?;
        let mut store = new_store(engine);
        let instance = guest_result(instantiate(&mut store, &module))?;
        let version_function = guest_result(
            exported_version(&mut store, &instance, "mango_automation_abi_version"),
        )?;
        let version: u32 = guest_result(call_version(&mut store, &version_function))?;
        match check_abi_version(version) {
            Ok(()) => {},
            Err(error) => {
                return Err(error);
            },
        }
        let memory = require_memory(exported_memory(&mut store, &instance, "memory"))?;
        let alloc = guest_result(
            exported_alloc(&mut store, &instance, "mango_automation_alloc"),
        )?;
        let free = guest_result(exported_free(&mut store, &instance, "mango_automation_free"))?;
        let register = guest_result(
            exported_register(&mut store, &instance, "mango_automation_register"),
        )?;
        let advance = guest_result(
            exported_advance(&mut store, &instance, "mango_automation_advance"),
        )?;
        let ghost exports = GuestExports {
            instance,
            memory,
            version: version_function,
            alloc,
            free,
            register,
            advance,
        };
        let guest = LoadedGuest { store, memory, alloc, free, register, advance };
        assert(store_log(guest.store) =~= exports.greeting(artifact@, AUTOMATION_ABI_VERSION));
        assert(guest.holds_of(exports, artifact@));
        let result: Result<Self, AutomationsError> = Ok(guest);
        assert(result->Ok_0.holds_of(exports, artifact@));
        result
    }

    /// Ask the guest for its registration.
    fn register(&mut self) -> (result: Result<Vec<u8>, AutomationsError>)
        requires
            old(self).wf(),
        ensures
            final(self).wf(),
            result is Ok ==> forall|exports: GuestExports| #[trigger]
                old(self).holds(exports) ==> exists|handle: u64| #[trigger]
                    exports.answered(
                        store_log(old(self).store) + exports.registration(handle),
                        handle,
                        result->Ok_0@,
                    ),
            fails_as_guest(result),
    {
        let packed: u64 = guest_result(call_register(&mut self.store, &self.register))?;
        let ghost asked = *self;
        let answer = self.read_guest_buffer(packed)?;
        assert forall|exports: GuestExports| #[trigger] old(self).holds(exports) implies exists|
            handle: u64,
        | #[trigger]
            exports.answered(
                store_log(old(self).store) + exports.registration(handle),
                handle,
                answer@,
            ) by {
            assert(asked.holds(exports));
            assert(store_log(asked.store) =~= store_log(old(self).store) + exports.registration(
                packed,
            ));
            assert(exports.answered(
                store_log(old(self).store) + exports.registration(packed),
                packed,
                answer@,
            ));
        }
        Ok(answer)
    }

    /// Ask the guest for one transition.
    fn advance(&mut self, request: &Vec<u8>) -> (result: Result<Vec<u8>, AutomationsError>)
        requires
            old(self).wf(),
        ensures
            final(self).wf(),
            result is Ok ==> forall|exports: GuestExports| #[trigger]
                old(self).holds(exports) ==> exists|ptr: u32, handle: u64| #[trigger]
                    exports.answered(
                        store_log(old(self).store) + exports.advance_of(
                            request@,
                            request@.len() as u32,
                            ptr,
                            handle,
                        ),
                        handle,
                        result->Ok_0@,
                    ),
            fails_as_guest(result),
            request@.len() > u32::MAX ==> result is Err,
    {
        let request_len: u32 = guest_request_len(request.len())?;
        let ptr: u32 = guest_result(call_alloc(&mut self.store, &self.alloc, request_len))?;
        guest_result(write_memory(&mut self.store, &self.memory, ptr as usize, request))?;
        let packed: u64 = guest_result(
            call_advance(&mut self.store, &self.advance, ptr, request_len),
        )?;
        guest_result(call_free(&mut self.store, &self.free, ptr, request_len))?;
        let ghost asked = *self;
        let answer = self.read_guest_buffer(packed)?;
        assert forall|exports: GuestExports| #[trigger] old(self).holds(exports) implies exists|
            ptr: u32,
            handle: u64,
        | #[trigger]
            exports.answered(
                store_log(old(self).store) + exports.advance_of(
                    request@,
                    request@.len() as u32,
                    ptr,
                    handle,
                ),
                handle,
                answer@,
            ) by {
            assert(asked.holds(exports));
            assert(store_log(asked.store) =~= store_log(old(self).store) + exports.advance_of(
                request@,
                request@.len() as u32,
                ptr,
                packed,
            ));
            assert(exports.answered(
                store_log(old(self).store) + exports.advance_of(
                    request@,
                    request@.len() as u32,
                    ptr,
                    packed,
                ),
                packed,
                answer@,
            ));
        }
        Ok(answer)
    }

    /// Copy a buffer of the guest out and give it back to the guest.
    fn read_guest_buffer(&mut self, packed: u64) -> (result: Result<Vec<u8>, AutomationsError>)
        requires
            old(self).wf(),
        ensures
            final(self).wf(),
            result is Ok ==> forall|exports: GuestExports| #[trigger]
                old(self).holds(exports) ==> exports.answered(
                    store_log(old(self).store),
                    packed,
                    result->Ok_0@,
                ),
            fails_as_guest(result),
    {
        let (ptr, len) = unpack_handle(packed);
        let bytes = guest_result(
            read_memory(&self.store, &self.memory, ptr as usize, len as usize),
        )?;
        guest_result(call_free(&mut self.store, &self.free, ptr, len))?;
        assert(handle_of(ptr, len) == packed);
        assert(store_log(self.store) == store_log(old(self).store).push(
            StoreStep::Freed { function: self.free, ptr, len },
        ));
        Ok(bytes)
    }
}

/// Runs guest artifacts, each in a store of its own.
#[derive(Debug)]
pub struct WasmAutomationRuntime {
    pub engine: Engine,
}

impl Clone for WasmAutomationRuntime {
    fn clone(&self) -> (copy: Self)
        ensures
            copy == *self,
    {
        WasmAutomationRuntime { engine: same_engine(&self.engine) }
    }
}

impl Default for WasmAutomationRuntime {
    fn default() -> (runtime: Self)
        ensures
            has_default_configuration(runtime.engine),
    {
        WasmAutomationRuntime::new()
    }
}

impl WasmAutomationRuntime {
    /// A runtime with the default engine.
    pub fn new() -> (runtime: Self)
        ensures
            has_default_configuration(runtime.engine),
    {
        WasmAutomationRuntime { engine: default_engine() }
    }

    /// Load a guest and read its registration envelope.
    ///
    /// The envelope is the one that the guest left in its memory. What it holds is
    /// up to the guest.
    pub fn register(&self, artifact: &Vec<u8>) -> (result: Result<Vec<u8>, AutomationsError>)
        ensures
            result is Ok ==> guest_registered(artifact@, result->Ok_0@),
            result is Err ==> result->Err_0.deep_view() is Guest,
    {
        let mut guest = LoadedGuest::load(&self.engine, artifact)?;
        guest.register()
    }

    /// Load a guest and advance it for one encoded request.
    ///
    /// The guest is handed the request as it is, in a buffer that it made itself.
    /// The envelope is the one that it left in its memory. What it holds is up to
    /// the guest.
    pub fn advance(&self, artifact: &Vec<u8>, request: &Vec<u8>) -> (result: Result<
        Vec<u8>,
        AutomationsError,
    >)
        ensures
            result is Ok ==> guest_advanced(artifact@, request@, result->Ok_0@),
            result is Err ==> result->Err_0.deep_view() is Guest,
            request@.len() > u32::MAX ==> result is Err,
    {
        let mut guest = LoadedGuest::load(&self.engine, artifact)?;
        guest.advance(request)
    }
}

/// A guest that registered was made of the artifact and nothing else, spoke the first
/// version of the raw interface, and was asked for its registration once. What it
/// answered is what its handle points at.
pub proof fn guest_is_asked_to_register(artifact: Seq<u8>, answer: Seq<u8>) -> (asked: (
    GuestExports,
    u64,
))
    requires
        guest_registered(artifact, answer),
    ensures
        ({
            let (exports, handle) = asked;
            &&& exports_memory(exports.instance, "memory"@, exports.memory)
            &&& exports_version(
                exports.instance,
                "mango_automation_abi_version"@,
                exports.version,
            )
            &&& exports_alloc(exports.instance, "mango_automation_alloc"@, exports.alloc)
            &&& exports_free(exports.instance, "mango_automation_free"@, exports.free)
            &&& exports_register(exports.instance, "mango_automation_register"@, exports.register)
            &&& exports_advance(exports.instance, "mango_automation_advance"@, exports.advance)
            &&& exports.answered(
                seq![
                    StoreStep::Instantiated { artifact, instance: exports.instance },
                    StoreStep::VersionRead { function: exports.version, version: 1 },
                    StoreStep::Registered { function: exports.register, handle },
                ],
                handle,
                answer,
            )
        }),
{
    let (exports, handle) = choose|exports: GuestExports, handle: u64|
        {
            &&& exports.are_exported("mango_automation_free"@, "mango_automation_advance"@)
            &&& #[trigger] exports.answered(
                exports.greeting(artifact, AUTOMATION_ABI_VERSION) + exports.registration(handle),
                handle,
                answer,
            )
        };
    assert(exports.greeting(artifact, AUTOMATION_ABI_VERSION) + exports.registration(handle) =~= seq![
        StoreStep::Instantiated { artifact, instance: exports.instance },
        StoreStep::VersionRead { function: exports.version, version: 1 },
        StoreStep::Registered { function: exports.register, handle },
    ]);
    (exports, handle)
}

/// A guest that advanced was made of the artifact and nothing else, and spoke the first
/// version of the raw interface. The whole request was written into a buffer that the
/// guest made for it, the guest was asked once with this buffer, and got it back. What
/// it answered is what its handle points at.
pub proof fn guest_is_asked_to_advance(artifact: Seq<u8>, request: Seq<u8>, answer: Seq<u8>) -> (
asked: (GuestExports, u32, u64))
    requires
        guest_advanced(artifact, request, answer),
    ensures
        ({
            let (exports, ptr, handle) = asked;
            &&& exports_memory(exports.instance, "memory"@, exports.memory)
            &&& exports_version(
                exports.instance,
                "mango_automation_abi_version"@,
                exports.version,
            )
            &&& exports_alloc(exports.instance, "mango_automation_alloc"@, exports.alloc)
            &&& exports_free(exports.instance, "mango_automation_free"@, exports.free)
            &&& exports_register(exports.instance, "mango_automation_register"@, exports.register)
            &&& exports_advance(exports.instance, "mango_automation_advance"@, exports.advance)
            &&& exports.answered(
                seq![
                    StoreStep::Instantiated { artifact, instance: exports.instance },
                    StoreStep::VersionRead { function: exports.version, version: 1 },
                    StoreStep::Allocated { function: exports.alloc, len: request.len() as u32, ptr },
                    StoreStep::Written {
                        memory: exports.memory,
                        offset: ptr as int,
                        bytes: request,
                    },
                    StoreStep::Advanced {
                        function: exports.advance,
                        ptr,
                        len: request.len() as u32,
                        handle,
                    },
                    StoreStep::Freed { function: exports.free, ptr, len: request.len() as u32 },
                ],
                handle,
                answer,
            )
        }),
{
    let (exports, ptr, handle) = choose|exports: GuestExports, ptr: u32, handle: u64|
        {
            &&& exports.are_exported("mango_automation_free"@, "mango_automation_advance"@)
            &&& #[trigger] exports.answered(
                exports.greeting(artifact, AUTOMATION_ABI_VERSION) + exports.advance_of(
                    request,
                    request.len() as u32,
                    ptr,
                    handle,
                ),
                handle,
                answer,
            )
        };
    assert(exports.greeting(artifact, AUTOMATION_ABI_VERSION) + exports.advance_of(
        request,
        request.len() as u32,
        ptr,
        handle,
    ) =~= seq![
        StoreStep::Instantiated { artifact, instance: exports.instance },
        StoreStep::VersionRead { function: exports.version, version: 1 },
        StoreStep::Allocated { function: exports.alloc, len: request.len() as u32, ptr },
        StoreStep::Written { memory: exports.memory, offset: ptr as int, bytes: request },
        StoreStep::Advanced { function: exports.advance, ptr, len: request.len() as u32, handle },
        StoreStep::Freed { function: exports.free, ptr, len: request.len() as u32 },
    ]);
    (exports, ptr, handle)
}

}
