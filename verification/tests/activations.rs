use mango::automation_control::error::ControlPlaneError;
use mango::automation_control::runtime::{
    check_abi_version, guest_answer, request_len, WasmGuestRuntime,
};
use mango::automation_control::store::{
    ControlPlaneState, ControlPlaneStore, JsonFileControlPlaneStore, MemoryControlPlaneStore,
};
use wasmtime::{Config, Engine};

const ECHO: &str = r#"(module
    (memory (export "memory") 1)
    (func (export "mango_automation_abi_version") (result i32) i32.const 1)
    (func (export "mango_automation_alloc") (param i32) (result i32) i32.const 512)
    (func (export "mango_automation_dealloc") (param i32 i32))
    (func (export "mango_automation_register") (result i64) i64.const 21474836480)
    (func (export "mango_automation_step") (param i32 i32) (result i64)
        (i64.or
            (i64.shl (i64.extend_i32_u (local.get 1)) (i64.const 32))
            (i64.extend_i32_u (local.get 0))))
    (data (i32.const 0) "hello")
)"#;

/// A runtime that reserves no more address space than its guests ask for.
fn frugal_runtime() -> WasmGuestRuntime {
    let mut config = Config::new();
    config
        .memory_reservation(0)
        .memory_reservation_for_growth(0)
        .memory_guard_size(0)
        .memory_init_cow(false);
    WasmGuestRuntime {
        engine: Engine::new(&config).expect("engine"),
    }
}

/// The bytes of an answer as they are.
fn told(answer: &Vec<u8>) -> Result<Result<Vec<u8>, String>, String> {
    Ok(Ok(answer.clone()))
}

#[test]
fn guests_answer_with_errors() {
    let runtime = frugal_runtime().clone();
    let wasm = wat::parse_str(ECHO).expect("wasm");
    let refused: Result<(), ControlPlaneError> = runtime.read_registration(&wasm, |answer| {
        Ok(Err(String::from_utf8(answer.clone()).expect("text")))
    });
    assert_eq!(refused, Err(ControlPlaneError::Runtime("hello".to_string())));
    let unreadable: Result<(), ControlPlaneError> =
        runtime.step(&wasm, &b"request".to_vec(), |_| Err("no answer".to_string()));
    assert_eq!(
        unreadable,
        Err(ControlPlaneError::Runtime("no answer".to_string()))
    );
    assert_eq!(guest_answer(Ok::<u8, String>(7)), Ok(7));
    assert_eq!(
        guest_answer(Err::<u8, String>("failed".to_string())),
        Err(ControlPlaneError::Runtime("failed".to_string()))
    );
}

#[test]
fn guests_register_and_step() {
    let runtime = frugal_runtime();
    let wasm = wat::parse_str(ECHO).expect("wasm");
    assert_eq!(runtime.read_registration(&wasm, told), Ok(b"hello".to_vec()));
    let request = b"what the guest is asked".to_vec();
    assert_eq!(runtime.step(&wasm, &request, told), Ok(request));
}

#[test]
fn guests_that_cannot_run_are_refused() {
    let runtime = frugal_runtime();
    let wasm = |text: &str| wat::parse_str(text).expect("wasm");
    assert_eq!(
        runtime.read_registration(&wasm(&ECHO.replace(
            "(result i32) i32.const 1)",
            "(result i32) i32.const 7)"
        )), told),
        Err(ControlPlaneError::AbiVersionMismatch {
            expected: 1,
            actual: 7,
        })
    );
    for text in [
        ECHO.replace("mango_automation_step", "other_step"),
        ECHO.replace("(result i64) i64.const 21474836480", "(result i64) unreachable"),
        ECHO.replace("i64.const 21474836480", "i64.const 21474902012"),
    ] {
        assert!(matches!(
            runtime.read_registration(&wasm(&text), told),
            Err(ControlPlaneError::Runtime(_))
        ));
    }
    assert!(matches!(
        runtime.step(&wasm(ECHO), &vec![b'x'; 65_536], told),
        Err(ControlPlaneError::Runtime(_))
    ));
    assert_eq!(
        WasmGuestRuntime::new().read_registration(&wasm("(module)"), told),
        Err(ControlPlaneError::Runtime(
            "guest did not export memory".to_string()
        ))
    );
    assert!(matches!(
        WasmGuestRuntime::default().step(&b"no module".to_vec(), &Vec::new(), told),
        Err(ControlPlaneError::Runtime(_))
    ));
}

#[test]
fn lengths_are_told_in_their_low_bits() {
    assert_eq!(request_len(0), 0);
    assert_eq!(request_len(4_294_967_295), u32::MAX);
    assert_eq!(request_len(4_294_967_296 + 5), 5);
    assert_eq!(check_abi_version(1), Ok(()));
}

#[test]
fn identifiers_are_allocated_in_order() {
    let mut state = ControlPlaneState::default();
    assert_eq!(state.allocate_revision_id(), 1);
    assert_eq!(state.allocate_revision_id(), 2);
    assert_eq!(state.allocate_activation_id(), 1);
    assert_eq!(state.next_revision_id, 2);

    let mut store = MemoryControlPlaneStore::new();
    assert_eq!(
        store.snapshot().expect("snapshot"),
        ControlPlaneState::default()
    );
    store.save(state.clone()).expect("save");
    assert_eq!(store.snapshot().expect("snapshot"), state);
    assert_eq!(
        store.transact(|state| Ok(state.allocate_activation_id())),
        Ok(2)
    );
    assert_eq!(store.snapshot().expect("snapshot").next_activation_id, 2);
    let refused: Result<(), ControlPlaneError> = store.transact(|state| {
        state.next_activation_id = 9;
        Err(ControlPlaneError::RevisionNotFound(3))
    });
    assert_eq!(refused, Err(ControlPlaneError::RevisionNotFound(3)));
    assert_eq!(
        store.snapshot().expect("snapshot").next_activation_id,
        9,
        "a store in memory is changed in place"
    );
    assert_eq!(
        MemoryControlPlaneStore::default().snapshot(),
        Ok(ControlPlaneState::default())
    );
    assert_eq!(
        JsonFileControlPlaneStore::new("state.json".to_string())
            .clone()
            .path(),
        "state.json"
    );
}

#[test]
fn control_plane_errors_have_messages() {
    let reason = || "x".to_string();
    for (error, message) in [
        (ControlPlaneError::Store(reason()), "store failed: x"),
        (ControlPlaneError::Runtime(reason()), "runtime failed: x"),
        (
            ControlPlaneError::Artifact(reason()),
            "artifact store failed: x",
        ),
        (
            ControlPlaneError::RevisionNotFound(7),
            "revision 7 was not found",
        ),
        (
            ControlPlaneError::ActivationNotFound(10),
            "activation 10 was not found",
        ),
        (
            ControlPlaneError::AbiVersionMismatch {
                expected: 1,
                actual: 2,
            },
            "guest ABI version mismatch: expected 1, got 2",
        ),
    ] {
        assert_eq!(error.message(), message);
    }
}

/// A store whose every change is written as a whole.
struct WholeStore {
    state: ControlPlaneState,
}

impl ControlPlaneStore for WholeStore {
    fn snapshot(&self) -> Result<ControlPlaneState, ControlPlaneError> {
        Ok(self.state.clone())
    }

    fn save(&mut self, state: ControlPlaneState) -> Result<(), ControlPlaneError> {
        self.state = state;
        Ok(())
    }
}

#[test]
fn stores_that_are_written_as_a_whole_drop_failed_changes() {
    let mut store = WholeStore {
        state: ControlPlaneState::default(),
    };
    assert_eq!(
        store.transact(|state| Ok(state.allocate_revision_id())),
        Ok(1)
    );
    let refused: Result<(), ControlPlaneError> = store.transact(|state| {
        state.next_revision_id = 9;
        Err(ControlPlaneError::RevisionNotFound(3))
    });
    assert_eq!(refused, Err(ControlPlaneError::RevisionNotFound(3)));
    assert_eq!(store.snapshot().expect("snapshot").next_revision_id, 1);
}
