//! The host: the registry together with the supervisor whose memory and
//! function table the primitives read.
//!
//! Each primitive exists in two forms. One takes values (bytes, names,
//! argument buffers) and returns a `Result`. The other is the form the
//! supervisor calls: it takes pointers into the supervisor's memory, reads
//! them through the engine's bounds-checked accessors, and answers with a
//! handle or a status word.

use vstd::prelude::*;
use crate::codec::{encode_value, lemma_slot_round_trip, write_value};
use crate::engine::{
    as_memory, as_table, export_by_name, memory_read, memory_write, string_from_utf8, table_get,
    table_size,
};
use crate::error::{spec_status_of, status_of, HostError, STATUS_OK};
use crate::handle::NULL_HANDLE;
use crate::primitive::{spec_words, words, Primitive};
use crate::process::{has_export, named_export};
use crate::registry::Registry;
use crate::value::Value;

verus! {

/// The handle that a primitive hands to the supervisor: the handle itself,
/// or the null handle for any failure.
pub open spec fn spec_handle_or_null(r: Result<u32, HostError>) -> u32 {
    match r {
        Ok(h) => h,
        Err(_) => NULL_HANDLE,
    }
}

/// The handle that a primitive hands to the supervisor: the handle itself,
/// or the null handle for any failure.
pub fn handle_or_null(r: &Result<u32, HostError>) -> (h: u32)
    ensures
        h == spec_handle_or_null(*r),
{
    match r {
        Ok(h) => *h,
        Err(_) => NULL_HANDLE,
    }
}

/// How an invocation ends for the supervisor.
pub struct Completion {
    /// The status word.
    pub status: u32,
    /// The bytes to store at the result pointer, if any are to be stored.
    pub write: Option<Vec<u8>>,
}

/// How an invocation with the given outcome ends, as a status word and the
/// bytes to store: a result is stored in its own width and the status is
/// success; a call without a result, and any failure, stores nothing.
pub open spec fn spec_complete(outcome: Result<Option<Value>, HostError>) -> (u32, Option<Seq<u8>>) {
    match outcome {
        Ok(Some(v)) => (STATUS_OK, Some(encode_value(v))),
        Ok(None) => (STATUS_OK, None),
        Err(e) => (e.spec_code(), None),
    }
}

impl View for Completion {
    type V = (u32, Option<Seq<u8>>);

    open spec fn view(&self) -> (u32, Option<Seq<u8>>) {
        (
            self.status,
            match self.write {
                Some(bytes) => Some(bytes@),
                None => None,
            },
        )
    }
}

/// How an invocation with the given outcome ends.
pub fn complete_invoke(outcome: &Result<Option<Value>, HostError>) -> (done: Completion)
    ensures
        done@ == spec_complete(*outcome),
        done.status == STATUS_OK <==> *outcome is Ok,
{
    match outcome {
        Ok(Some(v)) => Completion { status: STATUS_OK, write: Some(write_value(*v)) },
        Ok(None) => Completion { status: STATUS_OK, write: None },
        Err(e) => Completion { status: e.code(), write: None },
    }
}

/// A call of a name that the spawned process does not export ends with the
/// status of `ExportNotFound`, and a call that fails for any reason stores
/// nothing.
pub proof fn lemma_unknown_export_stores_nothing(
    registry: &Registry,
    h: u32,
    name: Seq<char>,
    slots: Seq<u8>,
    r: Result<Option<Value>, HostError>,
)
    requires
        registry.invoke_post(h, name, slots, r),
    ensures
        r is Err ==> spec_complete(r).1 is None,
        registry.spawned().contains_key(h) && !has_export(
            registry.spawned()[h].exports(),
            name,
        ) ==> spec_complete(r) == (HostError::ExportNotFound.spec_code(), None::<Seq<u8>>),
{
}

/// A result is stored in the width of the type that the export's signature
/// declares: four bytes for a 32-bit type, eight for a 64-bit one.
pub proof fn lemma_result_has_declared_width(
    registry: &Registry,
    h: u32,
    name: Seq<char>,
    slots: Seq<u8>,
    r: Result<Option<Value>, HostError>,
)
    requires
        registry.spawned().contains_key(h),
        registry.invoke_post(h, name, slots, r),
        r matches Ok(Some(_)),
    ensures
        named_export(registry.spawned()[h].exports(), name).target is Function,
        named_export(registry.spawned()[h].exports(), name).target->Function_0.result is Some,
        spec_complete(r).1 is Some,
        spec_complete(r).1->0.len() == named_export(
            registry.spawned()[h].exports(),
            name,
        ).target->Function_0.result->0.spec_width(),
{
    lemma_slot_round_trip(r->Ok_0->0, Seq::empty());
}

/// The status of an invocation once the engine was asked to store its
/// result: the status as it was if the bytes were stored, and
/// `MemoryOutOfBounds` if the place for them lies outside the memory.
pub open spec fn spec_stored_status(status: u32, stored: Result<(), wasmi::Error>) -> u32 {
    if stored is Ok {
        status
    } else {
        HostError::MemoryOutOfBounds.spec_code()
    }
}

/// The status of an invocation once the engine was asked to store its
/// result.
pub fn stored_status(status: u32, stored: Result<(), wasmi::Error>) -> (s: u32)
    ensures
        s == spec_stored_status(status, stored),
{
    match stored {
        Ok(_) => status,
        Err(_) => HostError::MemoryOutOfBounds.code(),
    }
}

/// The text that bytes encode: `NameNotUtf8` exactly for bytes that are no
/// UTF-8.
pub fn name_from_bytes(bytes: Vec<u8>) -> (r: Result<String, HostError>)
    ensures
        r is Ok <==> vstd::utf8::valid_utf8(bytes@),
        r matches Ok(name) ==> vstd::utf8::encode_utf8(name@) == bytes@,
        r matches Err(e) ==> e == HostError::NameNotUtf8,
{
    match string_from_utf8(bytes) {
        Some(name) => Ok(name),
        None => Err(HostError::NameNotUtf8),
    }
}

/// The registry and the supervisor it serves.
pub struct Host {
    registry: Registry,
    supervisor: wasmi::ModuleRef,
    memory: wasmi::MemoryRef,
}

impl Host {
    /// The process registry.
    pub closed spec fn registry(&self) -> Registry {
        self.registry
    }

    /// The supervisor instance.
    pub closed spec fn supervisor(&self) -> wasmi::ModuleRef {
        self.supervisor
    }

    /// The linear memory of the supervisor.
    pub closed spec fn memory(&self) -> wasmi::MemoryRef {
        self.memory
    }

    /// The invariant of the host: that of its registry.
    pub open spec fn wf(&self) -> bool {
        self.registry().wf()
    }

    /// Whether two hosts serve the same supervisor through the same memory.
    pub open spec fn same_supervisor(&self, other: &Host) -> bool {
        &&& self.supervisor() == other.supervisor()
        &&& self.memory() == other.memory()
    }

    /// Whether the host has done nothing yet: its registry is empty and no
    /// handle has been issued.
    pub open spec fn is_fresh(&self) -> bool {
        &&& self.wf()
        &&& self.registry().generation() == 0
        &&& self.registry().created() == Map::<u32, crate::process::Process>::empty()
        &&& self.registry().spawned() == Map::<u32, crate::process::SpawnedProcess>::empty()
    }

    /// What the pointer form of `create` promises for `len` bytes of
    /// bytecode. Either the bytes could not be read: then the handle is null
    /// and the registry is as it was. Or some `len` bytes were read, and the
    /// handle is that of what `Registry::create` promises for them, null for
    /// a failure.
    pub open spec fn create_outcome(&self, len: u32, after: &Host, h: u32) -> bool {
        &&& after.wf()
        &&& after.same_supervisor(self)
        &&& {
            ||| h == NULL_HANDLE && after.registry().same_state(&self.registry())
            ||| exists|bytes: Seq<u8>, r: Result<u32, HostError>|
                bytes.len() == len && #[trigger] self.registry().create_post(
                    bytes,
                    &after.registry(),
                    r,
                ) && h == spec_handle_or_null(r)
        }
    }

    /// What `bind_function` promises. A handle that names no created
    /// process is reported as such. For any other handle the supervisor's
    /// table decides: the failure is `NameNotFound`, `TableIndexOutOfRange`
    /// or `TableSlotEmpty`, or the name is bound. Any failure leaves the
    /// registry as it was; success changes nothing but the one binding.
    pub open spec fn bind_outcome(
        &self,
        h: u32,
        name: Seq<char>,
        after: &Host,
        r: Result<(), HostError>,
    ) -> bool {
        &&& after.wf()
        &&& after.same_supervisor(self)
        &&& match self.registry().created_refusal(h) {
            Some(e) => r == Err::<(), HostError>(e) && after.registry().same_state(
                &self.registry(),
            ),
            None => match r {
                Ok(_) => self.registry().binds_name(&after.registry(), h, name),
                Err(e) => {
                    &&& after.registry().same_state(&self.registry())
                    &&& {
                        ||| e == HostError::NameNotFound
                        ||| e == HostError::TableIndexOutOfRange
                        ||| e == HostError::TableSlotEmpty
                    }
                },
            },
        }
    }

    /// What the pointer form of `bind` promises for a name of `name_len`
    /// bytes. A handle that names no created process is reported by its
    /// code. For any other handle, either the name could not be read or is
    /// no UTF-8, or a name of that many bytes was read and the status is
    /// that of what `bind_function` promises for it. Any failure leaves the
    /// registry as it was.
    pub open spec fn bind_status(&self, h: u32, name_len: u32, after: &Host, status: u32) -> bool {
        &&& after.wf()
        &&& after.same_supervisor(self)
        &&& status != STATUS_OK ==> after.registry().same_state(&self.registry())
        &&& match self.registry().created_refusal(h) {
            Some(e) => status == e.spec_code(),
            None => {
                ||| status == HostError::MemoryOutOfBounds.spec_code()
                ||| status == HostError::NameNotUtf8.spec_code()
                ||| exists|name: Seq<char>, r: Result<(), HostError>|
                    vstd::utf8::encode_utf8(name).len() == name_len && #[trigger] self.bind_outcome(
                        h,
                        name,
                        after,
                        r,
                    ) && status == spec_status_of(r)
            },
        }
    }

    /// What the pointer form of `spawn` promises: the handle of what
    /// `Registry::spawn` promises, or the null handle.
    pub open spec fn spawn_outcome(&self, h: u32, after: &Host, s: u32) -> bool {
        &&& after.same_supervisor(self)
        &&& exists|r: Result<u32, HostError>| #[trigger]
            self.registry().spawn_post(h, &after.registry(), r) && s == spec_handle_or_null(r)
    }

    /// What the pointer form of `invoke` promises for a name of `name_len`
    /// bytes and `arg_count` argument slots. The registry is as it was. A
    /// handle that names no spawned process is reported by its code. For
    /// any other handle, either the name, the slots or the place of the
    /// result lie outside the memory, or the name is no UTF-8, or a name of
    /// that many bytes and that many slots were read and the status is that
    /// of what `Registry::invoke` promises for them.
    pub open spec fn invoke_status(
        &self,
        h: u32,
        name_len: u32,
        arg_count: u32,
        after: &Host,
        status: u32,
    ) -> bool {
        &&& after.wf()
        &&& after.same_supervisor(self)
        &&& after.registry().same_state(&self.registry())
        &&& match self.registry().spawned_refusal(h) {
            Some(e) => status == e.spec_code(),
            None => {
                ||| status == HostError::MemoryOutOfBounds.spec_code()
                ||| status == HostError::NameNotUtf8.spec_code()
                ||| exists|name: Seq<char>, slots: Seq<u8>, r: Result<Option<Value>, HostError>|
                    vstd::utf8::encode_utf8(name).len() == name_len && slots.len() == 8
                        * arg_count && #[trigger] self.registry().invoke_post(h, name, slots, r)
                        && status == spec_complete(r).0
            },
        }
    }

    /// A host for the supervisor instance that reads and writes the given
    /// memory, with an empty registry. `NameNotFound` if no memory is given.
    pub fn with_memory(supervisor: wasmi::ModuleRef, memory: Option<wasmi::MemoryRef>) -> (r: Result<
        Host,
        HostError,
    >)
        ensures
            r is Ok <==> memory is Some,
            r matches Ok(host) ==> {
                &&& host.supervisor() == supervisor
                &&& host.memory() == memory->0
                &&& host.is_fresh()
            },
            r matches Err(e) ==> e == HostError::NameNotFound,
    {
        match memory {
            Some(memory) => Ok(Host { registry: Registry::new(), supervisor, memory }),
            None => Err(HostError::NameNotFound),
        }
    }

    /// A host for the supervisor instance, with an empty registry. The
    /// supervisor must export its linear memory as `memory`; the engine is
    /// asked for that export, and `with_memory` decides on what it finds:
    /// `NameNotFound` if there is no export of that name or the export is no
    /// memory. The host keeps the supervisor alive, and with it the
    /// functions of its table that are its own. Instances of other modules
    /// whose functions the table holds are the caller's to keep, as the
    /// engine asks of whoever instantiates a module with imports.
    pub fn new(supervisor: wasmi::ModuleRef) -> (r: Result<Host, HostError>)
        ensures
            r matches Ok(host) ==> host.supervisor() == supervisor && host.is_fresh(),
            r matches Err(e) ==> e == HostError::NameNotFound,
    {
        let memory: Option<wasmi::MemoryRef> = match export_by_name(&supervisor, "memory") {
            None => None,
            Some(export) => as_memory(&export),
        };
        Host::with_memory(supervisor, memory)
    }

    /// The process registry.
    pub fn processes(&self) -> (r: &Registry)
        ensures
            *r == self.registry(),
    {
        &self.registry
    }

    /// Reads `len` bytes at `ptr` from the supervisor's memory. The engine
    /// takes the memory's buffer for itself while it copies: a caller that
    /// holds a direct-access value of the engine on this memory must let go
    /// of it first.
    pub fn read_bytes(&self, ptr: u32, len: u32) -> (r: Result<Vec<u8>, HostError>)
        ensures
            r matches Ok(bytes) ==> bytes@.len() == len,
            r matches Err(e) ==> e == HostError::MemoryOutOfBounds,
    {
        match memory_read(&self.memory, ptr, len as usize) {
            Ok(bytes) => Ok(bytes),
            Err(_) => Err(HostError::MemoryOutOfBounds),
        }
    }

    /// Reads a name at `ptr` from the supervisor's memory: the text whose UTF-8 encoding is the `len` bytes there.
    pub fn read_name(&self, ptr: u32, len: u32) -> (r: Result<String, HostError>)
        ensures
            r matches Ok(name) ==> vstd::utf8::encode_utf8(name@).len() == len,
            r matches Err(e) ==> e == HostError::MemoryOutOfBounds || e == HostError::NameNotUtf8,
    {
        match self.read_bytes(ptr, len) {
            Ok(bytes) => name_from_bytes(bytes),
            Err(e) => Err(e),
        }
    }

    /// Reads `count` argument slots at `ptr` from the supervisor's memory.
    pub fn read_slots(&self, ptr: u32, count: u32) -> (r: Result<Vec<u8>, HostError>)
        ensures
            r matches Ok(bytes) ==> bytes@.len() == 8 * count,
            r matches Err(e) ==> e == HostError::MemoryOutOfBounds,
    {
        let len: u64 = count as u64 * 8;
        if len > usize::MAX as u64 {
            return Err(HostError::MemoryOutOfBounds);
        }
        match memory_read(&self.memory, ptr, len as usize) {
            Ok(bytes) => Ok(bytes),
            Err(_) => Err(HostError::MemoryOutOfBounds),
        }
    }

    /// The debugging hint: does nothing and changes nothing.
    pub fn pragma(&self, code: u32, ptr: u32) {
    }

    /// Registers bytecode as a created process.
    pub fn create_process(&mut self, bytecode: &[u8]) -> (r: Result<u32, HostError>)
        requires
            old(self).wf(),
        ensures
            old(self).registry().create_post(bytecode@, &final(self).registry(), r),
            final(self).same_supervisor(old(self)),
    {
        self.registry.create(bytecode)
    }

    /// Binds `name`, in the created process that `h` names, to the function
    /// at `table_index` of the supervisor's own function table, which the
    /// supervisor must export as `__indirect_function_table`.
    pub fn bind_function(&mut self, h: u32, name: &str, table_index: u32) -> (r: Result<
        (),
        HostError,
    >)
        requires
            old(self).wf(),
        ensures
            old(self).bind_outcome(h, name@, final(self), r),
    {
        if let Err(e) = self.registry.lookup_created(h) {
            return Err(e);
        }
        let table: wasmi::TableRef = match export_by_name(
            &self.supervisor,
            "__indirect_function_table",
        ) {
            None => {
                return Err(HostError::NameNotFound);
            },
            Some(export) => match as_table(&export) {
                None => {
                    return Err(HostError::NameNotFound);
                },
                Some(table) => table,
            },
        };
        let size: u32 = table_size(&table);
        let entry: Option<wasmi::FuncRef> = if table_index < size {
            match table_get(&table, table_index) {
                Ok(entry) => entry,
                Err(_) => {
                    return Err(HostError::TableIndexOutOfRange);
                },
            }
        } else {
            None
        };
        let r: Result<(), HostError> = self.registry.bind_table_entry(
            h,
            name,
            size,
            table_index,
            entry,
        );
        proof {
            if r is Ok {
                assert(old(self).registry().binds(&self.registry(), h, name@, entry->0));
            }
        }
        r
    }

    /// Instantiates a created process.
    pub fn spawn_process(&mut self, h: u32) -> (r: Result<u32, HostError>)
        requires
            old(self).wf(),
        ensures
            old(self).registry().spawn_post(h, &final(self).registry(), r),
            final(self).same_supervisor(old(self)),
    {
        self.registry.spawn(h)
    }

    /// Calls an export of a spawned process with the arguments that the
    /// buffer `slots` holds.
    pub fn invoke_export(&self, h: u32, name: &str, slots: &[u8]) -> (r: Result<
        Option<Value>,
        HostError,
    >)
        ensures
            self.registry().invoke_post(h, name@, slots@, r),
    {
        self.registry.invoke(h, name, slots)
    }

    /// The primitive `create` as the supervisor calls it: registers the
    /// `len` bytes at `ptr` as a created process and returns its handle, or
    /// the null handle if the bytes cannot be read or are refused. The error
    /// pointer is not written to.
    pub fn create(&mut self, ptr: u32, len: u32, error_ptr: u32) -> (h: u32)
        requires
            old(self).wf(),
        ensures
            old(self).create_outcome(len, final(self), h),
    {
        match self.read_bytes(ptr, len) {
            Err(_) => NULL_HANDLE,
            Ok(bytes) => {
                let r: Result<u32, HostError> = self.registry.create(bytes.as_slice());
                let h: u32 = handle_or_null(&r);
                assert(old(self).registry().create_post(bytes@, &self.registry(), r));
                h
            },
        }
    }

    /// The primitive `bind` as the supervisor calls it: binds the name of
    /// `name_len` bytes at `name_ptr` and answers with a status word.
    pub fn bind(&mut self, h: u32, name_ptr: u32, name_len: u32, table_index: u32) -> (status: u32)
        requires
            old(self).wf(),
        ensures
            old(self).bind_status(h, name_len, final(self), status),
    {
        if let Err(e) = self.registry.lookup_created(h) {
            return e.code();
        }
        let name: String = match self.read_name(name_ptr, name_len) {
            Ok(name) => name,
            Err(e) => {
                return e.code();
            },
        };
        let r: Result<(), HostError> = self.bind_function(h, name.as_str(), table_index);
        let status: u32 = status_of(&r);
        assert(old(self).bind_outcome(h, name@, self, r));
        status
    }

    /// The primitive `spawn` as the supervisor calls it: returns the handle
    /// of the spawned process, or the null handle for any failure.
    pub fn spawn(&mut self, h: u32) -> (s: u32)
        requires
            old(self).wf(),
        ensures
            old(self).spawn_outcome(h, final(self), s),
    {
        let r: Result<u32, HostError> = self.registry.spawn(h);
        let s: u32 = handle_or_null(&r);
        assert(old(self).registry().spawn_post(h, &self.registry(), r));
        s
    }

    /// The primitive `invoke` as the supervisor calls it. The export is
    /// named by `name_len` bytes at `name_ptr`; `arg_count` argument slots
    /// lie at `args_ptr`, of which the export's own signature says how many
    /// are read and at which types; a result is stored at `result_ptr` in
    /// its own width, and nothing is stored when the call yields none or
    /// fails. The type tags at `types_ptr` are not read.
    pub fn invoke(
        &mut self,
        h: u32,
        name_ptr: u32,
        name_len: u32,
        args_ptr: u32,
        types_ptr: u32,
        arg_count: u32,
        result_ptr: u32,
    ) -> (status: u32)
        requires
            old(self).wf(),
        ensures
            old(self).invoke_status(h, name_len, arg_count, final(self), status),
    {
        if let Err(e) = self.registry.lookup_spawned(h) {
            return e.code();
        }
        let name: String = match self.read_name(name_ptr, name_len) {
            Ok(name) => name,
            Err(e) => {
                return e.code();
            },
        };
        let slots: Vec<u8> = match self.read_slots(args_ptr, arg_count) {
            Ok(slots) => slots,
            Err(e) => {
                return e.code();
            },
        };
        let outcome: Result<Option<Value>, HostError> = self.registry.invoke(
            h,
            name.as_str(),
            slots.as_slice(),
        );
        let done: Completion = complete_invoke(&outcome);
        assert(self.registry().invoke_post(h, name@, slots@, outcome));
        match done.write {
            None => done.status,
            Some(bytes) => stored_status(
                done.status,
                memory_write(&self.memory, result_ptr, bytes.as_slice()),
            ),
        }
    }

    /// What `dispatch` promises. An index that names no primitive and
    /// arguments that do not fit the primitive are refused without effect;
    /// the hint has no result and no effect; every other primitive hands
    /// back one 32-bit integer, the handle or status that its pointer form
    /// promises for these arguments.
    pub open spec fn dispatch_post(
        &self,
        index: usize,
        args: Seq<Value>,
        after: &Host,
        r: Result<Option<Value>, HostError>,
    ) -> bool {
        &&& after.wf()
        &&& after.same_supervisor(self)
        &&& match Primitive::spec_from_index(index) {
            None => r == Err::<Option<Value>, HostError>(HostError::UnknownPrimitive)
                && after.registry().same_state(&self.registry()),
            Some(p) => match spec_words(args, p.spec_param_count()) {
                None => r == Err::<Option<Value>, HostError>(HostError::BadArguments)
                    && after.registry().same_state(&self.registry()),
                Some(w) => match p {
                    Primitive::Pragma => r == Ok::<Option<Value>, HostError>(None)
                        && after.registry().same_state(&self.registry()),
                    Primitive::Create => {
                        &&& r matches Ok(Some(Value::I32(x)))
                        &&& self.create_outcome(w[1], after, x as u32)
                    },
                    Primitive::Bind => {
                        &&& r matches Ok(Some(Value::I32(x)))
                        &&& self.bind_status(w[0], w[2], after, x as u32)
                    },
                    Primitive::Spawn => {
                        &&& r matches Ok(Some(Value::I32(x)))
                        &&& self.spawn_outcome(w[0], after, x as u32)
                    },
                    Primitive::Invoke => {
                        &&& r matches Ok(Some(Value::I32(x)))
                        &&& self.invoke_status(w[0], w[2], w[5], after, x as u32)
                    },
                },
            },
        }
    }

    /// The boundary that the supervisor calls into: runs the primitive of
    /// dispatch index `index` on the arguments.
    pub fn dispatch(&mut self, index: usize, args: &Vec<Value>) -> (r: Result<
        Option<Value>,
        HostError,
    >)
        requires
            old(self).wf(),
        ensures
            old(self).dispatch_post(index, args@, final(self), r),
    {
        let primitive: Primitive = match Primitive::from_index(index) {
            Some(p) => p,
            None => {
                return Err(HostError::UnknownPrimitive);
            },
        };
        let w: Vec<u32> = match words(args, primitive.param_count()) {
            Some(w) => w,
            None => {
                return Err(HostError::BadArguments);
            },
        };
        let answer: u32 = match primitive {
            Primitive::Pragma => {
                self.pragma(w[0], w[1]);
                return Ok(None);
            },
            Primitive::Create => self.create(w[0], w[1], w[2]),
            Primitive::Bind => self.bind(w[0], w[1], w[2], w[3]),
            Primitive::Spawn => self.spawn(w[0]),
            Primitive::Invoke => self.invoke(w[0], w[1], w[2], w[3], w[4], w[5], w[6]),
        };
        assert((answer as i32) as u32 == answer) by (bit_vector);
        Ok(Some(Value::I32(answer as i32)))
    }
}

} // verus!
