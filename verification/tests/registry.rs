use wasmcore::error::HostError;
use wasmcore::handle::{kind_of, HandleKind};
use wasmcore::process::Process;
use wasmcore::registry::Registry;
use wasmcore::value::Value;

const I32: u8 = 0x7f;
const I64: u8 = 0x7e;
const F32: u8 = 0x7d;
const F64: u8 = 0x7c;

fn leb(mut n: u32) -> Vec<u8> {
    let mut out = Vec::new();
    loop {
        let byte = (n & 0x7f) as u8;
        n >>= 7;
        if n == 0 {
            out.push(byte);
            return out;
        }
        out.push(byte | 0x80);
    }
}

fn name(text: &str) -> Vec<u8> {
    let mut out = leb(text.len() as u32);
    out.extend_from_slice(text.as_bytes());
    out
}

fn vector(items: Vec<Vec<u8>>) -> Vec<u8> {
    let mut out = leb(items.len() as u32);
    for item in items {
        out.extend(item);
    }
    out
}

fn section(id: u8, payload: Vec<u8>) -> Vec<u8> {
    let mut out = vec![id];
    out.extend(leb(payload.len() as u32));
    out.extend(payload);
    out
}

fn module(sections: Vec<Vec<u8>>) -> Vec<u8> {
    let mut out = vec![0x00, 0x61, 0x73, 0x6d, 0x01, 0x00, 0x00, 0x00];
    for s in sections {
        out.extend(s);
    }
    out
}

fn func_type(params: &[u8], results: &[u8]) -> Vec<u8> {
    let mut out = vec![0x60];
    out.extend(leb(params.len() as u32));
    out.extend_from_slice(params);
    out.extend(leb(results.len() as u32));
    out.extend_from_slice(results);
    out
}

fn body(code: &[u8]) -> Vec<u8> {
    let mut inner = vec![0x00];
    inner.extend_from_slice(code);
    inner.push(0x0b);
    let mut out = leb(inner.len() as u32);
    out.extend(inner);
    out
}

fn export(text: &str, kind: u8, index: u32) -> Vec<u8> {
    let mut out = name(text);
    out.push(kind);
    out.extend(leb(index));
    out
}

fn import_func(namespace: &str, field: &str, type_index: u32) -> Vec<u8> {
    let mut out = name(namespace);
    out.extend(name(field));
    out.push(0x00);
    out.extend(leb(type_index));
    out
}

/// Exports `test() -> i32`, which returns 1337.
fn constant_module() -> Vec<u8> {
    vec![
        0x00, 0x61, 0x73, 0x6d, 0x01, 0x00, 0x00, 0x00, 0x01, 0x05, 0x01, 0x60, 0x00, 0x01, 0x7f,
        0x03, 0x02, 0x01, 0x00, 0x07, 0x08, 0x01, 0x04, 0x74, 0x65, 0x73, 0x74, 0x00, 0x00, 0x0a,
        0x07, 0x01, 0x05, 0x00, 0x41, 0xb9, 0x0a, 0x0b,
    ]
}

/// Imports `env.frob(i32) -> i32`, exports `add(a, b) = a + frob(b)`.
fn adder_module() -> Vec<u8> {
    vec![
        0x00, 0x61, 0x73, 0x6d, 0x01, 0x00, 0x00, 0x00, 0x01, 0x0c, 0x02, 0x60, 0x01, 0x7f, 0x01,
        0x7f, 0x60, 0x02, 0x7f, 0x7f, 0x01, 0x7f, 0x02, 0x0c, 0x01, 0x03, 0x65, 0x6e, 0x76, 0x04,
        0x66, 0x72, 0x6f, 0x62, 0x00, 0x00, 0x03, 0x02, 0x01, 0x01, 0x07, 0x07, 0x01, 0x03, 0x61,
        0x64, 0x64, 0x00, 0x01, 0x0a, 0x0b, 0x01, 0x09, 0x00, 0x20, 0x00, 0x20, 0x01, 0x10, 0x00,
        0x6a, 0x0b,
    ]
}

/// Exports functions of several signatures, and a memory.
fn typed_module() -> Vec<u8> {
    module(vec![
        section(1, vector(vec![
            func_type(&[I32], &[I32]),
            func_type(&[I32, I64], &[I64]),
            func_type(&[F32], &[F32]),
            func_type(&[F64], &[F64]),
            func_type(&[], &[]),
        ])),
        section(3, vector(vec![leb(0), leb(1), leb(2), leb(3), leb(4), leb(4)])),
        section(5, vector(vec![vec![0x00, 0x01]])),
        section(7, vector(vec![
            export("neg", 0, 0),
            export("pick64", 0, 1),
            export("bits32", 0, 2),
            export("bits64", 0, 3),
            export("nop", 0, 4),
            export("boom", 0, 5),
            export("mem", 2, 0),
        ])),
        section(10, vector(vec![
            body(&[0x41, 0x00, 0x20, 0x00, 0x6b]),
            body(&[0x20, 0x01]),
            body(&[0x20, 0x00]),
            body(&[0x20, 0x00]),
            body(&[]),
            body(&[0x00]),
        ])),
    ])
}

/// Exports `bump() -> i32`, which counts its calls in a global.
fn counter_module() -> Vec<u8> {
    module(vec![
        section(1, vector(vec![func_type(&[], &[I32])])),
        section(3, vector(vec![leb(0)])),
        section(6, vector(vec![vec![I32, 0x01, 0x41, 0x00, 0x0b]])),
        section(7, vector(vec![export("bump", 0, 0)])),
        section(10, vector(vec![body(&[0x23, 0x00, 0x41, 0x01, 0x6a, 0x24, 0x00, 0x23, 0x00])])),
    ])
}

/// Declares a start function.
fn start_module() -> Vec<u8> {
    module(vec![
        section(1, vector(vec![func_type(&[], &[])])),
        section(3, vector(vec![leb(0)])),
        section(8, leb(0)),
        section(10, vector(vec![body(&[])])),
    ])
}

/// Imports the functions `a` and `b` under the given namespace.
fn two_imports_module(namespace: &str) -> Vec<u8> {
    module(vec![
        section(1, vector(vec![func_type(&[I32], &[I32])])),
        section(2, vector(vec![import_func(namespace, "a", 0), import_func(namespace, "b", 0)])),
    ])
}

/// Imports a memory under the host namespace.
fn memory_import_module() -> Vec<u8> {
    let mut entry = name("env");
    entry.extend(name("mem"));
    entry.extend_from_slice(&[0x02, 0x00, 0x01]);
    module(vec![section(2, vector(vec![entry]))])
}

fn slots(words: &[u64]) -> Vec<u8> {
    let mut out = Vec::new();
    for w in words {
        out.extend_from_slice(&w.to_le_bytes());
    }
    out
}

#[test]
fn the_test_modules_are_accepted_by_the_engine() {
    for bytes in [
        constant_module(),
        adder_module(),
        typed_module(),
        counter_module(),
        start_module(),
        two_imports_module("env"),
        memory_import_module(),
    ] {
        assert!(wasmi::Module::from_buffer(&bytes).is_ok());
        assert!(Process::load(&bytes).is_ok());
    }
}

#[test]
fn a_new_registry_is_empty() {
    let registry = Registry::new();
    assert_eq!(registry.created_count(), 0);
    assert_eq!(registry.spawned_count(), 0);
}

#[test]
fn create_registers_under_a_created_handle() {
    let mut registry = Registry::new();
    let h = registry.create(&constant_module()).unwrap();
    assert_eq!(h, 17);
    assert_eq!(kind_of(h), Some(HandleKind::Created));
    assert_eq!(registry.created_count(), 1);
    assert_eq!(registry.spawned_count(), 0);
    let process = registry.lookup_created(h).unwrap();
    assert_eq!(process.binding_count(), 0);
}

#[test]
fn create_refuses_malformed_bytecode() {
    let mut registry = Registry::new();
    let mut truncated = constant_module();
    truncated.pop();
    let mut trailing = constant_module();
    trailing.push(0);
    let mut wrong_magic = constant_module();
    wrong_magic[1] = 0x62;
    let cases: Vec<Vec<u8>> = vec![vec![], vec![0, 1, 2, 3], truncated, trailing, wrong_magic];
    for bytes in cases {
        assert_eq!(registry.create(&bytes), Err(HostError::BytecodeInvalid));
    }
    assert_eq!(registry.created_count(), 0);
    assert_eq!(registry.spawned_count(), 0);
}

#[test]
fn create_refuses_a_module_that_does_not_validate() {
    // The body of `test() -> i32` leaves nothing on the stack.
    let invalid = module(vec![
        section(1, vector(vec![func_type(&[], &[I32])])),
        section(3, vector(vec![leb(0)])),
        section(10, vector(vec![body(&[])])),
    ]);
    assert!(parity_wasm::elements::deserialize_buffer::<parity_wasm::elements::Module>(&invalid).is_ok());
    let mut registry = Registry::new();
    assert_eq!(registry.create(&invalid), Err(HostError::BytecodeInvalid));
    assert_eq!(registry.created_count(), 0);
}

#[test]
fn a_refused_create_still_uses_up_a_generation() {
    let mut registry = Registry::new();
    assert_eq!(registry.create(&[]), Err(HostError::BytecodeInvalid));
    assert_eq!(registry.create(&constant_module()), Ok(33));
}

#[test]
fn consecutive_creates_return_distinct_handles() {
    let mut registry = Registry::new();
    let a = registry.create(&constant_module()).unwrap();
    let b = registry.create(&constant_module()).unwrap();
    let c = registry.create(&adder_module()).unwrap();
    assert_eq!((a, b, c), (17, 33, 49));
    assert_eq!(registry.created_count(), 3);
}

#[test]
fn lookups_tell_unknown_from_wrong_namespace() {
    let mut registry = Registry::new();
    let created = registry.create(&constant_module()).unwrap();
    let other = registry.create(&constant_module()).unwrap();
    let spawned = registry.spawn(other).unwrap();
    assert_eq!(spawned, 50);

    assert!(registry.lookup_created(created).is_ok());
    assert!(registry.lookup_spawned(spawned).is_ok());
    assert_eq!(registry.lookup_created(spawned).err(), Some(HostError::HandleKindMismatch));
    assert_eq!(registry.lookup_spawned(created).err(), Some(HostError::HandleKindMismatch));
    // A tag alone decides the namespace, whether or not the handle exists.
    assert_eq!(registry.lookup_created(0x1002).err(), Some(HostError::HandleKindMismatch));
    assert_eq!(registry.lookup_spawned(0x1001).err(), Some(HostError::HandleKindMismatch));
    assert_eq!(registry.lookup_created(0x1001).err(), Some(HostError::HandleNotFound));
    assert_eq!(registry.lookup_spawned(0x1002).err(), Some(HostError::HandleNotFound));
    for h in [0u32, 16, 19, 0x1003, u32::MAX] {
        assert_eq!(registry.lookup_created(h).err(), Some(HostError::HandleNotFound));
        assert_eq!(registry.lookup_spawned(h).err(), Some(HostError::HandleNotFound));
    }
    // The consumed handle is unknown, not of the wrong namespace.
    assert_eq!(registry.lookup_created(other).err(), Some(HostError::HandleNotFound));
}

#[test]
fn remove_created_takes_the_entry_out() {
    let mut registry = Registry::new();
    let h = registry.create(&constant_module()).unwrap();
    assert!(registry.remove_created(h).is_ok());
    assert_eq!(registry.created_count(), 0);
    assert_eq!(registry.remove_created(h).err(), Some(HostError::HandleNotFound));
    assert_eq!(registry.remove_created(h + 1).err(), Some(HostError::HandleKindMismatch));
}

#[test]
fn allocate_hands_out_fresh_handles_of_either_kind() {
    let mut registry = Registry::new();
    assert_eq!(registry.allocate(HandleKind::Spawned), Some(18));
    assert_eq!(registry.create(&constant_module()), Ok(33));
    assert_eq!(registry.allocate(HandleKind::Created), Some(49));
    assert_eq!(registry.lookup_created(49).err(), Some(HostError::HandleNotFound));
}

#[test]
fn spawn_moves_the_process_to_the_other_table() {
    let mut registry = Registry::new();
    let h = registry.create(&constant_module()).unwrap();
    let s = registry.spawn(h).unwrap();
    assert_eq!(s, 34);
    assert_eq!(kind_of(s), Some(HandleKind::Spawned));
    assert_eq!(registry.created_count(), 0);
    assert_eq!(registry.spawned_count(), 1);
}

#[test]
fn spawning_twice_fails_with_handle_not_found() {
    let mut registry = Registry::new();
    let h = registry.create(&constant_module()).unwrap();
    assert!(registry.spawn(h).is_ok());
    assert_eq!(registry.spawn(h), Err(HostError::HandleNotFound));
    assert_eq!(registry.spawned_count(), 1);
}

#[test]
fn spawn_refuses_handles_that_name_no_created_process() {
    let mut registry = Registry::new();
    let h = registry.create(&constant_module()).unwrap();
    let s = registry.spawn(h).unwrap();
    assert_eq!(registry.spawn(s), Err(HostError::HandleKindMismatch));
    assert_eq!(registry.spawn(0), Err(HostError::HandleNotFound));
    assert_eq!(registry.spawn(0x51), Err(HostError::HandleNotFound));
    // A refused spawn uses up no generation.
    assert_eq!(registry.create(&constant_module()), Ok(49));
}

#[test]
fn spawn_reports_the_first_unresolved_import() {
    let mut registry = Registry::new();
    let h = registry.create(&adder_module()).unwrap();
    assert_eq!(registry.spawn(h), Err(HostError::UnresolvedImport(String::from("frob"))));
    assert_eq!(registry.spawned_count(), 0);
    assert_eq!(registry.created_count(), 0);

    let none = registry.create(&two_imports_module("env")).unwrap();
    assert_eq!(registry.spawn(none), Err(HostError::UnresolvedImport(String::from("a"))));
    let other = registry.create(&two_imports_module("other")).unwrap();
    assert_eq!(registry.spawn(other), Err(HostError::UnresolvedImport(String::from("a"))));
    let memory = registry.create(&memory_import_module()).unwrap();
    assert_eq!(registry.spawn(memory), Err(HostError::UnresolvedImport(String::from("mem"))));
    assert_eq!(registry.spawned_count(), 0);
}

#[test]
fn a_start_function_is_forbidden() {
    let mut registry = Registry::new();
    let h = registry.create(&start_module()).unwrap();
    assert_eq!(registry.spawn(h), Err(HostError::StartFunctionForbidden));
    assert_eq!(registry.spawned_count(), 0);
    assert_eq!(registry.created_count(), 0);
}

#[test]
fn invoke_returns_the_constant() {
    let mut registry = Registry::new();
    let h = registry.create(&constant_module()).unwrap();
    let s = registry.spawn(h).unwrap();
    assert_eq!(registry.invoke(s, "test", &[]), Ok(Some(Value::I32(1337))));
    assert_eq!(registry.invoke(s, "test", &slots(&[1, 2, 3])), Ok(Some(Value::I32(1337))));
}

#[test]
fn invoke_needs_a_spawned_process() {
    let mut registry = Registry::new();
    let h = registry.create(&constant_module()).unwrap();
    assert_eq!(registry.invoke(h, "test", &[]), Err(HostError::HandleKindMismatch));
    assert_eq!(registry.invoke(h + 1, "test", &[]), Err(HostError::HandleNotFound));
    assert_eq!(registry.invoke(0, "test", &[]), Err(HostError::HandleNotFound));
}

#[test]
fn invoke_refuses_unknown_and_uncallable_exports() {
    let mut registry = Registry::new();
    let h = registry.create(&typed_module()).unwrap();
    let s = registry.spawn(h).unwrap();
    assert_eq!(registry.invoke(s, "missing", &[]), Err(HostError::ExportNotFound));
    assert_eq!(registry.invoke(s, "", &[]), Err(HostError::ExportNotFound));
    assert_eq!(registry.invoke(s, "Neg", &slots(&[1])), Err(HostError::ExportNotFound));
    assert_eq!(registry.invoke(s, "mem", &[]), Err(HostError::ExportNotCallable));
}

#[test]
fn invoke_reads_the_arguments_by_the_signature() {
    let mut registry = Registry::new();
    let h = registry.create(&typed_module()).unwrap();
    let s = registry.spawn(h).unwrap();
    assert_eq!(registry.invoke(s, "neg", &slots(&[5])), Ok(Some(Value::I32(-5))));
    // The upper half of a 32-bit slot is padding.
    assert_eq!(
        registry.invoke(s, "neg", &slots(&[0xdead_beef_0000_0005])),
        Ok(Some(Value::I32(-5)))
    );
    assert_eq!(
        registry.invoke(s, "pick64", &slots(&[1, 0x0102_0304_0506_0708])),
        Ok(Some(Value::I64(0x0102_0304_0506_0708)))
    );
    assert_eq!(
        registry.invoke(s, "bits32", &slots(&[0x7fc0_0001])),
        Ok(Some(Value::F32(0x7fc0_0001)))
    );
    assert_eq!(
        registry.invoke(s, "bits64", &slots(&[0x7ff8_0000_0000_0001])),
        Ok(Some(Value::F64(0x7ff8_0000_0000_0001)))
    );
    assert_eq!(registry.invoke(s, "nop", &[]), Ok(None));
}

#[test]
fn invoke_reports_too_few_slots() {
    let mut registry = Registry::new();
    let h = registry.create(&typed_module()).unwrap();
    let s = registry.spawn(h).unwrap();
    assert_eq!(registry.invoke(s, "neg", &[]), Err(HostError::ArityUnderflow));
    assert_eq!(registry.invoke(s, "neg", &[5, 0, 0, 0]), Err(HostError::ArityUnderflow));
    assert_eq!(registry.invoke(s, "pick64", &slots(&[1])), Err(HostError::ArityUnderflow));
}

#[test]
fn a_trap_is_reported_as_engine_trap() {
    let mut registry = Registry::new();
    let h = registry.create(&typed_module()).unwrap();
    let s = registry.spawn(h).unwrap();
    assert_eq!(registry.invoke(s, "boom", &[]), Err(HostError::EngineTrap));
    // The process survives the trap.
    assert_eq!(registry.invoke(s, "neg", &slots(&[1])), Ok(Some(Value::I32(-1))));
}

#[test]
fn spawned_processes_are_isolated_from_each_other() {
    let mut registry = Registry::new();
    let a = registry.create(&counter_module()).unwrap();
    let b = registry.create(&counter_module()).unwrap();
    let a = registry.spawn(a).unwrap();
    let b = registry.spawn(b).unwrap();
    assert_eq!(registry.invoke(a, "bump", &[]), Ok(Some(Value::I32(1))));
    assert_eq!(registry.invoke(a, "bump", &[]), Ok(Some(Value::I32(2))));
    assert_eq!(registry.invoke(b, "bump", &[]), Ok(Some(Value::I32(1))));
    assert_eq!(registry.invoke(a, "bump", &[]), Ok(Some(Value::I32(3))));
}

#[test]
fn a_spawned_process_knows_its_exports() {
    let mut registry = Registry::new();
    let h = registry.create(&typed_module()).unwrap();
    let s = registry.spawn(h).unwrap();
    let process = registry.lookup_spawned(s).unwrap();
    assert_eq!(process.find_export("neg"), Some(0));
    assert_eq!(process.find_export("boom"), Some(5));
    assert_eq!(process.find_export("mem"), Some(6));
    assert_eq!(process.find_export("none"), None);
    let (index, args) = process.prepare_call("pick64", &slots(&[7, 8, 9])).unwrap();
    assert_eq!(index, 1);
    assert_eq!(args, vec![Value::I32(7), Value::I64(8)]);
    assert_eq!(process.prepare_call("mem", &[]).err(), Some(HostError::ExportNotCallable));
}

#[test]
fn an_exhausted_registry_refuses_without_effect() {
    let mut registry = Registry::new();
    let h = registry.create(&constant_module()).unwrap();
    let mut last = 0;
    while let Some(fresh) = registry.allocate(HandleKind::Spawned) {
        last = fresh;
    }
    assert_eq!(last, 0xFFFF_FFF2);
    assert_eq!(registry.create(&constant_module()), Err(HostError::HandlesExhausted));
    assert_eq!(registry.create(&[]), Err(HostError::HandlesExhausted));
    assert_eq!(registry.spawn(h), Err(HostError::HandlesExhausted));
    assert_eq!(registry.spawn(h), Err(HostError::HandlesExhausted));
    assert_eq!(registry.spawn(h + 16), Err(HostError::HandleNotFound));
    assert_eq!(registry.created_count(), 1);
    assert_eq!(registry.spawned_count(), 0);
    assert!(registry.lookup_created(h).is_ok());
}
