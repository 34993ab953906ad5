use wasmcore::client::{
    create, result_word, slots_of, BindProcessError, CreateProcessError, IntoFnHandle, IntoParam,
    InvokeError, Params, SpawnError, TableSlot, TAG_I32,
};
use wasmcore::host::Host;
use wasmcore::value::Value;

/// A supervisor with one page of memory and a table of four slots: slot 1
/// holds `frob(x) = x * 10 + 5`, slot 2 a function without parameters or
/// result, slots 0 and 3 are empty.
fn supervisor_module() -> Vec<u8> {
    let mut out = vec![0x00, 0x61, 0x73, 0x6d, 0x01, 0x00, 0x00, 0x00];
    out.extend_from_slice(&[0x01, 0x09, 0x02, 0x60, 0x01, 0x7f, 0x01, 0x7f, 0x60, 0x00, 0x00]);
    out.extend_from_slice(&[0x03, 0x03, 0x02, 0x00, 0x01]);
    out.extend_from_slice(&[0x04, 0x04, 0x01, 0x70, 0x00, 0x04]);
    out.extend_from_slice(&[0x05, 0x03, 0x01, 0x00, 0x01]);
    out.extend_from_slice(&[0x07, 0x26, 0x02, 0x19]);
    out.extend_from_slice(b"__indirect_function_table");
    out.extend_from_slice(&[0x01, 0x00, 0x06]);
    out.extend_from_slice(b"memory");
    out.extend_from_slice(&[0x02, 0x00]);
    out.extend_from_slice(&[0x09, 0x08, 0x01, 0x00, 0x41, 0x01, 0x0b, 0x02, 0x00, 0x01]);
    out.extend_from_slice(&[
        0x0a, 0x0f, 0x02, 0x0a, 0x00, 0x20, 0x00, 0x41, 0x0a, 0x6c, 0x41, 0x05, 0x6a, 0x0b, 0x02,
        0x00, 0x0b,
    ]);
    out
}

/// Exports `test() -> i32`, which returns 1337.
fn constant_module() -> Vec<u8> {
    vec![
        0x00, 0x61, 0x73, 0x6d, 0x01, 0x00, 0x00, 0x00, 0x01, 0x05, 0x01, 0x60, 0x00, 0x01, 0x7f,
        0x03, 0x02, 0x01, 0x00, 0x07, 0x08, 0x01, 0x04, 0x74, 0x65, 0x73, 0x74, 0x00, 0x00, 0x0a,
        0x07, 0x01, 0x05, 0x00, 0x41, 0xb9, 0x0a, 0x0b,
    ]
}

/// Imports `env.frob(i32) -> i32`, exports `add(a, b) = a + frob(b)`.
fn adder_module() -> Vec<u8> {
    vec![
        0x00, 0x61, 0x73, 0x6d, 0x01, 0x00, 0x00, 0x00, 0x01, 0x0c, 0x02, 0x60, 0x01, 0x7f, 0x01,
        0x7f, 0x60, 0x02, 0x7f, 0x7f, 0x01, 0x7f, 0x02, 0x0c, 0x01, 0x03, 0x65, 0x6e, 0x76, 0x04,
        0x66, 0x72, 0x6f, 0x62, 0x00, 0x00, 0x03, 0x02, 0x01, 0x01, 0x07, 0x07, 0x01, 0x03, 0x61,
        0x64, 0x64, 0x00, 0x01, 0x0a, 0x0b, 0x01, 0x09, 0x00, 0x20, 0x00, 0x20, 0x01, 0x10, 0x00,
        0x6a, 0x0b,
    ]
}

fn new_host() -> Host {
    let module = wasmi::Module::from_buffer(supervisor_module()).unwrap();
    let instance = wasmi::ModuleInstance::new(&module, &wasmi::ImportsBuilder::default())
        .unwrap()
        .assert_no_start();
    Host::new(instance).unwrap()
}

fn two_words(a: u32, b: u32) -> Params {
    let mut params = Params::empty();
    params.push(a);
    params.push(b);
    params
}

#[test]
fn typed_handles_run_the_whole_protocol() {
    let mut host = new_host();
    let mut handle = create(&mut host, &adder_module()).unwrap();
    handle.bind(&mut host, "frob", TableSlot(1)).unwrap();
    let mut process = handle.spawn(&mut host).unwrap();
    assert!(process.invoke(&host, "add", two_words(132, 120)).unwrap() as i32 == 1337);
}

#[test]
fn typed_handles_call_a_function_without_arguments() {
    let mut host = new_host();
    let handle = create(&mut host, &constant_module()).unwrap();
    assert_eq!(handle.handle(), 17);
    let mut process = handle.spawn(&mut host).unwrap();
    assert_eq!(process.handle(), 34);
    assert_eq!(process.invoke(&host, "test", Params::empty()), Ok(1337));
    assert_eq!(process.invoke(&host, "test", Params::new(vec![], vec![])), Ok(1337));
}

#[test]
fn typed_create_reports_the_status_of_the_host() {
    let mut host = new_host();
    assert_eq!(create(&mut host, &[1, 2, 3]).err(), Some(CreateProcessError::Unknown(1)));
    assert_eq!(create(&mut host, &[]).err(), Some(CreateProcessError::Unknown(1)));
    assert_eq!(host.processes().created_count(), 0);
}

#[test]
fn typed_bind_reports_the_status_of_the_host() {
    let mut host = new_host();
    let mut handle = create(&mut host, &adder_module()).unwrap();
    assert_eq!(handle.bind(&mut host, "frob", TableSlot(4)), Err(BindProcessError::Unknown(5)));
    assert_eq!(handle.bind(&mut host, "frob", TableSlot(0)), Err(BindProcessError::Unknown(16)));
    assert_eq!(handle.bind(&mut host, "frob", TableSlot(1)), Ok(()));
}

#[test]
fn typed_spawn_reports_the_status_of_the_host() {
    let mut host = new_host();
    let handle = create(&mut host, &adder_module()).unwrap();
    assert_eq!(handle.spawn(&mut host).err(), Some(SpawnError::Unknown(6)));
    let mut handle = create(&mut host, &adder_module()).unwrap();
    handle.bind(&mut host, "frob", TableSlot(2)).unwrap();
    assert_eq!(handle.spawn(&mut host).err(), Some(SpawnError::Unknown(12)));
    assert_eq!(host.processes().spawned_count(), 0);
}

#[test]
fn typed_invoke_reports_the_status_of_the_host() {
    let mut host = new_host();
    let mut handle = create(&mut host, &adder_module()).unwrap();
    handle.bind(&mut host, "frob", TableSlot(1)).unwrap();
    let mut process = handle.spawn(&mut host).unwrap();
    assert_eq!(process.invoke(&host, "sub", two_words(1, 2)), Err(InvokeError::Unknown(8)));
    assert_eq!(process.invoke(&host, "add", Params::empty()), Err(InvokeError::Unknown(10)));
    let mut one = Params::empty();
    one.push(1u32);
    assert_eq!(process.invoke(&host, "add", one), Err(InvokeError::Unknown(10)));
    assert_eq!(process.invoke(&host, "add", two_words(u32::MAX, 0)), Ok(4));
}

#[test]
fn a_32_bit_word_is_a_parameter() {
    assert_eq!(7u32.into_param(), 7u64);
    assert_eq!(u32::MAX.into_param(), 0xffff_ffffu64);
    assert_eq!(7u32.paramtype(), b'i');
    assert_eq!(TAG_I32, b'i');
}

#[test]
fn params_keep_words_and_tags_in_step() {
    let mut params = Params::empty();
    assert_eq!(params.len(), 0);
    params.push(132u32);
    params.push(120u32);
    assert_eq!(params.len(), 2);
    assert_eq!(Params::new(vec![1, 2, 3], vec![b'i', b'i', b'i']).len(), 3);
}

#[test]
fn a_table_slot_is_its_index() {
    assert_eq!(TableSlot(0).into_handle(), 0);
    assert_eq!(TableSlot(1).into_handle(), 1);
    assert_eq!(TableSlot(u32::MAX).into_handle(), u32::MAX);
}

#[test]
fn words_fill_one_slot_each() {
    assert_eq!(slots_of(&vec![]), Vec::<u8>::new());
    assert_eq!(
        slots_of(&vec![132, 0x0102_0304_0506_0708]),
        vec![132, 0, 0, 0, 0, 0, 0, 0, 8, 7, 6, 5, 4, 3, 2, 1]
    );
}

#[test]
fn a_result_is_read_back_without_sign_extension() {
    assert_eq!(result_word(None), 0);
    assert_eq!(result_word(Some(Value::I32(1337))), 1337);
    assert_eq!(result_word(Some(Value::I32(-1))), 0xffff_ffff);
    assert_eq!(result_word(Some(Value::I64(-1))), u64::MAX);
    assert_eq!(result_word(Some(Value::F32(0x3f80_0000))), 0x3f80_0000);
    assert_eq!(result_word(Some(Value::F64(0x3ff0_0000_0000_0000))), 0x3ff0_0000_0000_0000);
}
