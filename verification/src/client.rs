//! A typed face for the primitives.
//!
//! A `CreateProcessHandle` names a created process and a `ProcessHandle` a
//! spawned one, so that the type of a handle says which operations it
//! admits; spawning consumes the first and gives the second. Arguments are
//! passed as 64-bit words, one per slot of the argument buffer.

use vstd::prelude::*;
use vstd::string::StringSliceAdditionalSpecFns;
use crate::codec::{
    decode_slot, lemma_le_u32_round_trip, lemma_le_u64_round_trip, push_u64, slot_at, u32_le_bytes,
    u64_le_bytes,
};
use crate::error::HostError;
use crate::host::Host;
use crate::value::{Value, ValueType};

verus! {

/// Names a created process.
#[derive(Debug)]
pub struct CreateProcessHandle(u32);

/// Names a spawned process.
#[derive(Debug)]
pub struct ProcessHandle(u32);

/// Why `create` failed.
#[derive(Debug, PartialEq, Eq)]
pub enum CreateProcessError {
    /// The bytecode is longer than a 32-bit length can say.
    TooLong,
    /// The host refused; the status code says why.
    Unknown(u32),
}

/// Why `bind` failed.
#[derive(Debug, PartialEq, Eq)]
pub enum BindProcessError {
    /// The name is longer than a 32-bit length can say.
    NameTooLong,
    /// The host refused; the status code says why.
    Unknown(u32),
}

/// Why `spawn` failed.
#[derive(Debug, PartialEq, Eq)]
pub enum SpawnError {
    /// The host refused; the status code says why.
    Unknown(u32),
}

/// Why `invoke` failed.
#[derive(Debug, PartialEq, Eq)]
pub enum InvokeError {
    /// The name is longer than a 32-bit length can say.
    NameTooLong,
    /// The host refused; the status code says why.
    Unknown(u32),
}

/// Something that names a function of the supervisor by its table index.
pub trait IntoFnHandle: Sized {
    /// The table index.
    spec fn table_index(&self) -> u32;

    /// The table index.
    fn into_handle(self) -> (index: u32)
        ensures
            index == self.table_index(),
    ;
}

/// A slot of the supervisor's function table.
#[derive(Clone, Copy, Debug, PartialEq, Eq, Structural)]
pub struct TableSlot(pub u32);

impl IntoFnHandle for TableSlot {
    open spec fn table_index(&self) -> u32 {
        self.0
    }

    fn into_handle(self) -> (index: u32) {
        self.0
    }
}

/// Marks the integer types that can stand in the signature of a bound
/// function. A float crosses the boundary as an integer of its width.
pub trait Arg {}

impl Arg for i32 {}

impl Arg for i64 {}

impl Arg for u32 {}

impl Arg for u64 {}

/// The type tag of a 32-bit integer argument.
pub const TAG_I32: u8 = 105;

/// Something that can be passed as an argument: it fills one 64-bit word and
/// has a type tag.
pub trait IntoParam: Sized {
    /// The word that carries the argument.
    spec fn spec_param(&self) -> u64;

    /// The tag of the argument's type.
    spec fn spec_paramtype(&self) -> u8;

    /// The word that carries the argument.
    fn into_param(self) -> (word: u64)
        ensures
            word == self.spec_param(),
    ;

    /// The tag of the argument's type.
    fn paramtype(self) -> (tag: u8)
        ensures
            tag == self.spec_paramtype(),
    ;
}

impl IntoParam for u32 {
    open spec fn spec_param(&self) -> u64 {
        *self as u64
    }

    open spec fn spec_paramtype(&self) -> u8 {
        TAG_I32
    }

    fn into_param(self) -> (word: u64) {
        self as u64
    }

    fn paramtype(self) -> (tag: u8) {
        TAG_I32
    }
}

/// The arguments of a call: one word and one type tag per argument.
pub struct Params(Vec<u64>, Vec<u8>);

impl Params {
    /// The words, in order.
    pub closed spec fn values(&self) -> Seq<u64> {
        self.0@
    }

    /// The type tags, in order.
    pub closed spec fn types(&self) -> Seq<u8> {
        self.1@
    }

    /// The arguments with the given words and tags. There must be one tag
    /// for each word.
    pub fn new(values: Vec<u64>, types: Vec<u8>) -> (r: Self)
        requires
            values@.len() == types@.len(),
        ensures
            r.values() == values@,
            r.types() == types@,
    {
        Params(values, types)
    }

    /// No arguments.
    pub fn empty() -> (r: Self)
        ensures
            r.values() == Seq::<u64>::empty(),
            r.types() == Seq::<u8>::empty(),
    {
        Params(Vec::new(), Vec::new())
    }

    /// Adds one argument at the end.
    pub fn push<P: IntoParam + Copy>(&mut self, param: P)
        ensures
            final(self).values() == old(self).values().push(param.spec_param()),
            final(self).types() == old(self).types().push(param.spec_paramtype()),
    {
        self.0.push(param.into_param());
        self.1.push(param.paramtype());
    }

    /// The number of arguments.
    pub fn len(&self) -> (n: usize)
        ensures
            n == self.values().len(),
    {
        self.0.len()
    }
}

/// The argument buffer of a list of words: eight bytes per word, lowest
/// first.
pub open spec fn spec_slots(values: Seq<u64>) -> Seq<u8> {
    Seq::new(8 * values.len(), |k: int| u64_le_bytes(values[k / 8])[k % 8])
}

/// Lays words out as an argument buffer.
pub fn slots_of(values: &Vec<u64>) -> (slots: Vec<u8>)
    ensures
        slots@ == spec_slots(values@),
{
    let mut slots: Vec<u8> = Vec::new();
    let mut i: usize = 0;
    while i < values.len()
        invariant
            i <= values@.len(),
            slots@.len() == 8 * i,
            forall|k: int| 0 <= k < 8 * i ==> slots@[k] == u64_le_bytes(values@[k / 8])[k % 8],
        decreases values@.len() - i,
    {
        let ghost before = slots@;
        push_u64(&mut slots, values[i]);
        assert forall|k: int| 0 <= k < 8 * (i + 1) implies slots@[k] == u64_le_bytes(
            values@[k / 8],
        )[k % 8] by {
            if k < 8 * i {
                assert(slots@[k] == before[k]);
            } else {
                assert(k / 8 == i as int);
                assert(k % 8 == k - 8 * i);
                assert(slots@[k] == u64_le_bytes(values@[i as int])[k - 8 * i]);
            }
        }
        i = i + 1;
    }
    assert(slots@ =~= spec_slots(values@));
    slots
}

/// Slot `i` of the buffer of a list of words holds word `i`: read at a
/// 64-bit type it is the whole word, read at a 32-bit type its lower half.
pub proof fn lemma_slots_hold_words(values: Seq<u64>, i: int)
    requires
        0 <= i < values.len(),
    ensures
        spec_slots(values).len() == 8 * values.len(),
        decode_slot(ValueType::I64, slot_at(spec_slots(values), i)) == Value::I64(values[i] as i64),
        decode_slot(ValueType::F64, slot_at(spec_slots(values), i)) == Value::F64(values[i]),
        decode_slot(ValueType::I32, slot_at(spec_slots(values), i)) == Value::I32(
            ((values[i] as int % 0x1_0000_0000) as u32) as i32,
        ),
        decode_slot(ValueType::F32, slot_at(spec_slots(values), i)) == Value::F32(
            (values[i] as int % 0x1_0000_0000) as u32,
        ),
{
    let buf = spec_slots(values);
    let slot = slot_at(buf, i);
    let w = values[i];
    let lo: u32 = (w as int % 0x1_0000_0000) as u32;
    let hi: u32 = (w as int / 0x1_0000_0000) as u32;
    let rest = buf.skip(8 * i + 8);
    assert(slot =~= u64_le_bytes(w) + rest) by {
        assert forall|k: int| 0 <= k < 8 implies slot[k] == u64_le_bytes(w)[k] by {
            assert((8 * i + k) / 8 == i);
            assert((8 * i + k) % 8 == k);
        }
    }
    assert(slot =~= u32_le_bytes(lo) + (u32_le_bytes(hi) + rest));
    lemma_le_u64_round_trip(w, rest);
    lemma_le_u32_round_trip(lo, u32_le_bytes(hi) + rest);
}

/// The word that a caller reads back from a result slot that was zero
/// before the call: the result without sign extension, zero if the call
/// yields no result.
pub open spec fn spec_result_word(result: Option<Value>) -> u64 {
    match result {
        None => 0,
        Some(Value::I32(x)) => (x as u32) as u64,
        Some(Value::I64(x)) => x as u64,
        Some(Value::F32(b)) => b as u64,
        Some(Value::F64(b)) => b,
    }
}

/// The word that a caller reads back from the result slot.
pub fn result_word(result: Option<Value>) -> (word: u64)
    ensures
        word == spec_result_word(result),
{
    match result {
        None => 0,
        Some(Value::I32(x)) => (x as u32) as u64,
        Some(Value::I64(x)) => x as u64,
        Some(Value::F32(b)) => b as u64,
        Some(Value::F64(b)) => b,
    }
}

/// How the answer of the host, `answer`, shows in what `create` returns.
pub open spec fn create_result(
    r: Result<CreateProcessHandle, CreateProcessError>,
    answer: Result<u32, HostError>,
) -> bool {
    match answer {
        Ok(h) => r matches Ok(handle) && handle.raw() == h,
        Err(e) => r == Err::<CreateProcessHandle, CreateProcessError>(
            CreateProcessError::Unknown(e.spec_code()),
        ),
    }
}

/// How the answer of the host, `answer`, shows in what `spawn` returns.
pub open spec fn spawn_result(r: Result<ProcessHandle, SpawnError>, answer: Result<u32, HostError>) -> bool {
    match answer {
        Ok(s) => r matches Ok(handle) && handle.raw() == s,
        Err(e) => r == Err::<ProcessHandle, SpawnError>(SpawnError::Unknown(e.spec_code())),
    }
}

/// How the answer of the host, `answer`, shows in what `bind` returns.
pub open spec fn bind_result(r: Result<(), BindProcessError>, answer: Result<(), HostError>) -> bool {
    match answer {
        Ok(_) => r is Ok,
        Err(e) => r == Err::<(), BindProcessError>(BindProcessError::Unknown(e.spec_code())),
    }
}

/// How the answer of the host, `answer`, shows in what `invoke` returns.
pub open spec fn invoke_result(
    r: Result<u64, InvokeError>,
    answer: Result<Option<Value>, HostError>,
) -> bool {
    match answer {
        Ok(v) => r == Ok::<u64, InvokeError>(spec_result_word(v)),
        Err(e) => r == Err::<u64, InvokeError>(InvokeError::Unknown(e.spec_code())),
    }
}

/// Creates a process from bytecode. Bytecode of more than `u32::MAX` bytes
/// is refused with `TooLong` before the host is asked.
pub fn create(host: &mut Host, bytecode: &[u8]) -> (r: Result<
    CreateProcessHandle,
    CreateProcessError,
>)
    requires
        old(host).wf(),
    ensures
        final(host).wf(),
        final(host).same_supervisor(old(host)),
        bytecode@.len() > u32::MAX ==> r == Err::<CreateProcessHandle, CreateProcessError>(
            CreateProcessError::TooLong,
        ) && final(host).registry().same_state(&old(host).registry()),
        bytecode@.len() <= u32::MAX ==> exists|answer: Result<u32, HostError>| #[trigger]
            old(host).registry().create_post(bytecode@, &final(host).registry(), answer)
                && create_result(r, answer),
{
    if bytecode.len() > u32::MAX as usize {
        return Err(CreateProcessError::TooLong);
    }
    let answer: Result<u32, HostError> = host.create_process(bytecode);
    let r: Result<CreateProcessHandle, CreateProcessError> = match &answer {
        Ok(h) => Ok(CreateProcessHandle(*h)),
        Err(e) => Err(CreateProcessError::Unknown(e.code())),
    };
    assert(old(host).registry().create_post(bytecode@, &host.registry(), answer));
    r
}

impl CreateProcessHandle {
    /// The handle as the host knows it.
    pub closed spec fn raw(&self) -> u32 {
        self.0
    }

    /// The handle as the host knows it.
    pub fn handle(&self) -> (h: u32)
        ensures
            h == self.raw(),
    {
        self.0
    }

    /// Binds `name` to the function that `to` names. A name of more than
    /// `u32::MAX` bytes is refused with `NameTooLong` before the host is
    /// asked.
    pub fn bind<F: IntoFnHandle>(&mut self, host: &mut Host, name: &str, to: F) -> (r: Result<
        (),
        BindProcessError,
    >)
        requires
            old(host).wf(),
        ensures
            final(host).wf(),
            final(host).same_supervisor(old(host)),
            final(self).raw() == old(self).raw(),
            name.spec_bytes().len() > u32::MAX ==> r == Err::<(), BindProcessError>(
                BindProcessError::NameTooLong,
            ) && final(host).registry().same_state(&old(host).registry()),
            name.spec_bytes().len() <= u32::MAX ==> exists|answer: Result<(), HostError>| #[trigger]
                old(host).bind_outcome(old(self).raw(), name@, final(host), answer) && bind_result(
                    r,
                    answer,
                ),
    {
        if name.as_bytes().len() > u32::MAX as usize {
            return Err(BindProcessError::NameTooLong);
        }
        let answer: Result<(), HostError> = host.bind_function(self.0, name, to.into_handle());
        let r: Result<(), BindProcessError> = match &answer {
            Ok(_) => Ok(()),
            Err(e) => Err(BindProcessError::Unknown(e.code())),
        };
        assert(old(host).bind_outcome(self.raw(), name@, host, answer));
        r
    }

    /// Spawns the process. The handle is used up whether or not the host
    /// succeeds.
    pub fn spawn(self, host: &mut Host) -> (r: Result<ProcessHandle, SpawnError>)
        requires
            old(host).wf(),
        ensures
            final(host).wf(),
            final(host).same_supervisor(old(host)),
            exists|answer: Result<u32, HostError>| #[trigger]
                old(host).registry().spawn_post(self.raw(), &final(host).registry(), answer)
                    && spawn_result(r, answer),
    {
        let answer: Result<u32, HostError> = host.spawn_process(self.0);
        let r: Result<ProcessHandle, SpawnError> = match &answer {
            Ok(s) => Ok(ProcessHandle(*s)),
            Err(e) => Err(SpawnError::Unknown(e.code())),
        };
        assert(old(host).registry().spawn_post(self.raw(), &host.registry(), answer));
        r
    }
}

impl ProcessHandle {
    /// The handle as the host knows it.
    pub closed spec fn raw(&self) -> u32 {
        self.0
    }

    /// The handle as the host knows it.
    pub fn handle(&self) -> (h: u32)
        ensures
            h == self.raw(),
    {
        self.0
    }

    /// Calls the export `fn_name` with the given arguments and returns the
    /// result as a word, zero if the export yields none. A name of more than
    /// `u32::MAX` bytes is refused with `NameTooLong` before the host is
    /// asked.
    pub fn invoke(&mut self, host: &Host, fn_name: &str, params: Params) -> (r: Result<
        u64,
        InvokeError,
    >)
        ensures
            final(self).raw() == old(self).raw(),
            fn_name.spec_bytes().len() > u32::MAX ==> r == Err::<u64, InvokeError>(
                InvokeError::NameTooLong,
            ),
            fn_name.spec_bytes().len() <= u32::MAX ==> exists|
                answer: Result<Option<Value>, HostError>,
            | #[trigger]
                host.registry().invoke_post(
                    old(self).raw(),
                    fn_name@,
                    spec_slots(params.values()),
                    answer,
                ) && invoke_result(r, answer),
    {
        if fn_name.as_bytes().len() > u32::MAX as usize {
            return Err(InvokeError::NameTooLong);
        }
        let slots: Vec<u8> = slots_of(&params.0);
        let answer: Result<Option<Value>, HostError> = host.invoke_export(
            self.0,
            fn_name,
            slots.as_slice(),
        );
        let r: Result<u64, InvokeError> = match &answer {
            Ok(v) => Ok(result_word(*v)),
            Err(e) => Err(InvokeError::Unknown(e.code())),
        };
        assert(host.registry().invoke_post(
            self.raw(),
            fn_name@,
            spec_slots(params.values()),
            answer,
        ));
        r
    }
}

/// Whether `size` and `align` make a layout as an allocator takes it: the
/// alignment is a power of two, and the size, rounded up to the alignment,
/// does not exceed `isize::MAX`.
pub open spec fn is_layout(size: usize, align: usize) -> bool {
    &&& align > 0
    &&& align & ((align - 1) as usize) == 0
    &&& size + align - 1 <= isize::MAX
}

/// Whether the allocator serves a request. The allocator behind this crate
/// serves every layout or ends the process; it hands no failure back.
pub open spec fn is_served(size: usize, align: usize) -> bool {
    is_layout(size, align)
}

/// The handler for a failed allocation. It is there for a runtime to enter
/// with the layout of a request that was not served, and from it no way
/// leads back to a caller. Under the allocator of this crate there is no
/// such request: no caller can meet the precondition, and the body never
/// runs.
pub fn alloc_error_handler(size: usize, align: usize)
    requires
        is_layout(size, align),
        !is_served(size, align),
{
}

} // verus!
