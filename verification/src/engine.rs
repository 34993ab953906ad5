//! The execution engine, as far as this crate relies on it.
//!
//! Everything in this file is taken on trust: the types are opaque and the
//! contracts of the functions are stated, not proved. Each doc comment names
//! the engine function behind the item and says what is claimed of it.

use vstd::prelude::*;
use vstd::utf8::{encode_utf8, valid_utf8};
use crate::process::{ImportDecl, ImportKind};
use crate::value::{Value, ValueType};
use parity_wasm::elements::{deserialize_buffer, External, Module};
use wasmi::nan_preserving_float::{F32, F64};
use wasmi::RuntimeValue;

verus! {

/// `wasmi::Module`: a parsed and validated module that is not instantiated.
#[verifier::external_type_specification]
#[verifier::external_body]
pub struct ExLoadedModule(wasmi::Module);

/// `wasmi::ModuleRef`: a shared reference to a module instance.
#[verifier::external_type_specification]
#[verifier::external_body]
pub struct ExModuleRef(wasmi::ModuleRef);

/// `wasmi::FuncRef`: a shared reference to a function instance.
#[verifier::external_type_specification]
#[verifier::external_body]
pub struct ExFuncRef(wasmi::FuncRef);

/// `wasmi::MemoryRef`: a shared reference to a linear memory.
#[verifier::external_type_specification]
#[verifier::external_body]
pub struct ExMemoryRef(wasmi::MemoryRef);

/// `wasmi::TableRef`: a shared reference to a function table.
#[verifier::external_type_specification]
#[verifier::external_body]
pub struct ExTableRef(wasmi::TableRef);

/// `wasmi::ExternVal`: something a module instance exports.
#[verifier::external_type_specification]
#[verifier::external_body]
pub struct ExExternVal(wasmi::ExternVal);

/// `wasmi::Error`: the engine's error.
#[verifier::external_type_specification]
#[verifier::external_body]
pub struct ExEngineError(wasmi::Error);

/// `wasmi::Trap`: a fault raised while the engine ran a function.
#[verifier::external_type_specification]
#[verifier::external_body]
pub struct ExTrap(wasmi::Trap);

/// Whether `parity_wasm::elements::deserialize_buffer` decodes the bytes as
/// a module.
pub uninterp spec fn wasm_decodes(bytes: Seq<u8>) -> bool;

/// Whether `wasmi` accepts the bytes: they decode as a module and the module
/// validates.
pub uninterp spec fn module_loads(bytes: Seq<u8>) -> bool;

/// `wasmi::Module::from_buffer`. Whether it succeeds depends on the bytes
/// alone; it decodes them with `parity_wasm` before it validates, so what it
/// accepts also decodes.
#[verifier::external_body]
pub(crate) fn load_module(bytes: &[u8]) -> (r: Result<wasmi::Module, wasmi::Error>)
    ensures
        r is Ok <==> module_loads(bytes@),
        r is Ok ==> wasm_decodes(bytes@),
{
    wasmi::Module::from_buffer(bytes)
}

/// The entries of the import section of the module that the bytes decode
/// to, in their order, each by namespace, name and kind; none if the module
/// has no such section.
pub uninterp spec fn declared_imports(bytes: Seq<u8>) -> Seq<ImportDecl>;

/// The names of the entries of the export section of the module that the
/// bytes decode to, in their order; none if the module has no such section.
pub uninterp spec fn declared_export_names(bytes: Seq<u8>) -> Seq<String>;

/// Whether the module that the bytes decode to has a start section.
pub uninterp spec fn declares_start(bytes: Seq<u8>) -> bool;

/// `parity_wasm::elements::deserialize_buffer`, at the type of a module,
/// and of the module it gives `Module::import_section`,
/// `Module::export_section` and `Module::start_section`. Whether the bytes
/// decode, and what the three sections hold, depends on the bytes alone.
/// The import entries are copied out by `ImportEntry::module`, `field` and
/// the variant of `external`, the export entries by `ExportEntry::field`.
#[verifier::external_body]
pub(crate) fn decode_sections(bytes: &[u8]) -> (r: Option<(Vec<ImportDecl>, Vec<String>, bool)>)
    ensures
        r is Some <==> wasm_decodes(bytes@),
        r matches Some((imports, exports, start)) ==> {
            &&& imports@ == declared_imports(bytes@)
            &&& exports@ == declared_export_names(bytes@)
            &&& start == declares_start(bytes@)
        },
{
    let m = deserialize_buffer::<Module>(bytes).ok()?;
    let imports = m.import_section().into_iter().flat_map(|s| s.entries()).map(|e| ImportDecl {
        module: e.module().into(),
        field: e.field().into(),
        kind: match e.external() {
            External::Function(_) => ImportKind::Function,
            External::Table(_) => ImportKind::Table,
            External::Memory(_) => ImportKind::Memory,
            External::Global(_) => ImportKind::Global,
        },
    });
    let exports = m.export_section().into_iter().flat_map(|s| s.entries()).map(|e| e.field().into());
    Some((imports.collect(), exports.collect(), m.start_section().is_some()))
}

/// `wasmi::ModuleInstance::with_externvals`, with one function per import,
/// in the order of the import section. The instance is handed back as
/// `NotStartedModuleRef::not_started_instance` gives it: no start function
/// is run. Nothing is claimed of the result. The engine allocates the
/// tables and memories that the module declares and gives up if the system
/// has no room for them; like any failed allocation, that lies outside the
/// contract.
#[verifier::external_body]
pub(crate) fn instantiate(module: &wasmi::Module, imports: &Vec<wasmi::FuncRef>) -> Result<
    wasmi::ModuleRef,
    wasmi::Error,
> {
    let vals: Vec<wasmi::ExternVal> = imports.iter().map(
        |f| wasmi::ExternVal::Func(f.clone()),
    ).collect();
    let instance = wasmi::ModuleInstance::with_externvals(module, vals.iter())?;
    Ok(instance.not_started_instance().clone())
}

/// `wasmi::ModuleInstance::export_by_name`: the export of that name, if the
/// instance has one.
#[verifier::external_body]
pub(crate) fn export_by_name(instance: &wasmi::ModuleRef, name: &str) -> Option<wasmi::ExternVal> {
    instance.export_by_name(name)
}

/// `wasmi::ExternVal::as_func`: the function, if the export is one.
#[verifier::external_body]
pub(crate) fn as_func(export: &wasmi::ExternVal) -> Option<wasmi::FuncRef> {
    export.as_func().cloned()
}

/// `wasmi::ExternVal::as_memory`: the memory, if the export is one.
#[verifier::external_body]
pub(crate) fn as_memory(export: &wasmi::ExternVal) -> Option<wasmi::MemoryRef> {
    export.as_memory().cloned()
}

/// `wasmi::ExternVal::as_table`: the table, if the export is one.
#[verifier::external_body]
pub(crate) fn as_table(export: &wasmi::ExternVal) -> Option<wasmi::TableRef> {
    export.as_table().cloned()
}

/// `wasmi::Signature::params` of the function's signature.
#[verifier::external_body]
pub(crate) fn func_params(func: &wasmi::FuncRef) -> Vec<ValueType> {
    func.signature().params().iter().map(|t| match t {
        wasmi::ValueType::I32 => ValueType::I32,
        wasmi::ValueType::I64 => ValueType::I64,
        wasmi::ValueType::F32 => ValueType::F32,
        wasmi::ValueType::F64 => ValueType::F64,
    }).collect()
}

/// `wasmi::Signature::return_type` of the function's signature.
#[verifier::external_body]
pub(crate) fn func_result(func: &wasmi::FuncRef) -> Option<ValueType> {
    func.signature().return_type().map(|t| match t {
        wasmi::ValueType::I32 => ValueType::I32,
        wasmi::ValueType::I64 => ValueType::I64,
        wasmi::ValueType::F32 => ValueType::F32,
        wasmi::ValueType::F64 => ValueType::F64,
    })
}

/// `wasmi::FuncInstance::invoke` with `wasmi::NopExternals`: the callee
/// reaches no host function. The engine checks the arguments against the
/// signature and reports a mismatch as a trap. What the function returns
/// depends on the state of its instance; nothing is claimed of it.
///
/// The engine needs the instance that owns a function to be alive when it
/// runs the function, and it runs a function for as long as the function
/// takes. Neither can be said of an opaque value. The crate calls only the
/// exports of a spawned process, which holds its own instance; what such an
/// export reaches beyond that instance was bound by the host from the table
/// of the supervisor, which the host holds.
#[verifier::external_body]
pub(crate) fn call_func(func: &wasmi::FuncRef, args: &Vec<Value>) -> Result<
    Option<Value>,
    wasmi::Trap,
> {
    let args: Vec<RuntimeValue> = args.iter().map(|a| match *a {
        Value::I32(v) => RuntimeValue::I32(v),
        Value::I64(v) => RuntimeValue::I64(v),
        Value::F32(b) => RuntimeValue::F32(F32::from_bits(b)),
        Value::F64(b) => RuntimeValue::F64(F64::from_bits(b)),
    }).collect();
    let out = wasmi::FuncInstance::invoke(func, &args, &mut wasmi::NopExternals)?;
    Ok(out.map(|v| match v {
        RuntimeValue::I32(v) => Value::I32(v),
        RuntimeValue::I64(v) => Value::I64(v),
        RuntimeValue::F32(f) => Value::F32(f.to_bits()),
        RuntimeValue::F64(f) => Value::F64(f.to_bits()),
    }))
}

/// The host function with the given parameter types, result type and
/// dispatch index, as `wasmi::FuncInstance::alloc_host` makes it.
pub uninterp spec fn host_function(
    params: Seq<ValueType>,
    result: Option<ValueType>,
    index: usize,
) -> wasmi::FuncRef;

/// `wasmi::FuncInstance::alloc_host`, on a `wasmi::Signature::new` of the
/// given types: a host function with that signature and dispatch index. It
/// holds nothing but the two, so it depends on the arguments alone.
#[verifier::external_body]
pub(crate) fn host_func(params: &Vec<ValueType>, result: Option<ValueType>, index: usize) -> (r:
    wasmi::FuncRef)
    ensures
        r == host_function(params@, result, index),
{
    let convert = |t: &ValueType| match t {
        ValueType::I32 => wasmi::ValueType::I32,
        ValueType::I64 => wasmi::ValueType::I64,
        ValueType::F32 => wasmi::ValueType::F32,
        ValueType::F64 => wasmi::ValueType::F64,
    };
    let params: Vec<wasmi::ValueType> = params.iter().map(convert).collect();
    let signature = wasmi::Signature::new(params, result.as_ref().map(convert));
    wasmi::FuncInstance::alloc_host(signature, index)
}

/// `Clone::clone` of `wasmi::FuncRef`: another reference to the same
/// function instance.
#[verifier::external_body]
pub(crate) fn clone_func(func: &wasmi::FuncRef) -> (r: wasmi::FuncRef)
    ensures
        r == *func,
{
    func.clone()
}

/// `wasmi::TableInstance::current_size`: the number of slots of the table.
#[verifier::external_body]
pub(crate) fn table_size(table: &wasmi::TableRef) -> u32 {
    table.current_size()
}

/// `wasmi::TableInstance::get`: the function in a slot, `None` for an empty
/// slot, an error for an index outside the table.
#[verifier::external_body]
pub(crate) fn table_get(table: &wasmi::TableRef, index: u32) -> Result<
    Option<wasmi::FuncRef>,
    wasmi::Error,
> {
    table.get(index)
}

/// `wasmi::MemoryInstance::get`: a copy of `len` bytes at `offset`, or an
/// error if the region does not lie inside the memory. The engine takes the
/// buffer for itself while it copies, so no direct-access value of the
/// engine on this memory may be alive during the call.
#[verifier::external_body]
pub(crate) fn memory_read(memory: &wasmi::MemoryRef, offset: u32, len: usize) -> (r: Result<
    Vec<u8>,
    wasmi::Error,
>)
    ensures
        r matches Ok(bytes) ==> bytes@.len() == len,
{
    memory.get(offset, len)
}

/// `wasmi::MemoryInstance::set`: copies the bytes to `offset`, or fails and
/// writes nothing if the region does not lie inside the memory. The engine
/// takes the buffer for itself while it copies, so no direct-access value of
/// the engine on this memory may be alive during the call.
#[verifier::external_body]
pub(crate) fn memory_write(memory: &wasmi::MemoryRef, offset: u32, bytes: &[u8]) -> Result<
    (),
    wasmi::Error,
> {
    memory.set(offset, bytes)
}

/// `String::from_utf8`: the string whose UTF-8 encoding the bytes are, if
/// they are the encoding of one.
#[verifier::external_body]
pub(crate) fn string_from_utf8(bytes: Vec<u8>) -> (r: Option<String>)
    ensures
        r is Some <==> valid_utf8(bytes@),
        r matches Some(s) ==> encode_utf8(s@) == bytes@,
{
    String::from_utf8(bytes).ok()
}

} // verus!
