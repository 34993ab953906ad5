//! The process registry: the table of created processes, the table of
//! spawned processes, and the handle allocator that both share.

use std::collections::HashMap;
use vstd::prelude::*;
use crate::engine::{declared_imports, module_loads};
use crate::error::HostError;
use crate::handle::{
    handle_generation, handle_kind, kind_of, lemma_make_handle, make_handle, HandleAllocator,
    HandleKind, MAX_GENERATION,
};
use crate::process::{
    all_supplied, call_post, exports_listed, first_unsupplied, lemma_first_unsupplied_unique,
    reports_unresolved, supplies, Process, SpawnedProcess,
};
use crate::value::Value;

verus! {

broadcast use vstd::std_specs::hash::group_hash_axioms;

/// Why a table index cannot be bound, or `None` if it can: the index lies
/// outside the table, or the slot it names is empty.
pub open spec fn entry_refusal(table_size: u32, index: u32, entry: Option<wasmi::FuncRef>) -> Option<
    HostError,
> {
    if index >= table_size {
        Some(HostError::TableIndexOutOfRange)
    } else if entry is None {
        Some(HostError::TableSlotEmpty)
    } else {
        None
    }
}

/// The two process tables and the allocator of their handles.
pub struct Registry {
    allocator: HandleAllocator,
    created: HashMap<u32, Process>,
    spawned: HashMap<u32, SpawnedProcess>,
}

impl Registry {
    /// The created processes by handle.
    pub closed spec fn created(&self) -> Map<u32, Process> {
        self.created@
    }

    /// The spawned processes by handle.
    pub closed spec fn spawned(&self) -> Map<u32, SpawnedProcess> {
        self.spawned@
    }

    /// The generation of the handle issued last, zero before the first.
    pub closed spec fn generation(&self) -> int {
        self.allocator.last_generation()
    }

    /// Whether `h` is a handle of namespace `kind` that may have been issued:
    /// its tag is that of the kind and its generation is one already reached.
    pub open spec fn issued(&self, h: u32, kind: HandleKind) -> bool {
        &&& handle_kind(h) == Some(kind)
        &&& 0 < handle_generation(h) <= self.generation()
    }

    /// The invariant of the registry: the allocator is well formed, and
    /// every entry sits under a handle of its own namespace that has been
    /// issued.
    pub closed spec fn wf(&self) -> bool {
        &&& self.allocator.wf()
        &&& forall|h: u32| #[trigger]
            self.created().contains_key(h) ==> self.issued(h, HandleKind::Created)
        &&& forall|h: u32| #[trigger]
            self.spawned().contains_key(h) ==> self.issued(h, HandleKind::Spawned)
    }

    /// Whether no further handle can be issued.
    pub open spec fn exhausted(&self) -> bool {
        self.generation() >= MAX_GENERATION as int
    }

    /// Whether two registries hold the same tables at the same generation.
    pub open spec fn same_state(&self, other: &Registry) -> bool {
        &&& self.created() == other.created()
        &&& self.spawned() == other.spawned()
        &&& self.generation() == other.generation()
    }

    /// Why `h` names no created process, or `None` if it names one. A handle
    /// with the tag of a spawned process is in the wrong namespace; any other
    /// handle that is not in the table is unknown.
    pub open spec fn created_refusal(&self, h: u32) -> Option<HostError> {
        if self.created().contains_key(h) {
            None
        } else if handle_kind(h) == Some(HandleKind::Spawned) {
            Some(HostError::HandleKindMismatch)
        } else {
            Some(HostError::HandleNotFound)
        }
    }

    /// Why `h` names no spawned process, or `None` if it names one. A handle
    /// with the tag of a created process is in the wrong namespace; any other
    /// handle that is not in the table is unknown.
    pub open spec fn spawned_refusal(&self, h: u32) -> Option<HostError> {
        if self.spawned().contains_key(h) {
            None
        } else if handle_kind(h) == Some(HandleKind::Created) {
            Some(HostError::HandleKindMismatch)
        } else {
            Some(HostError::HandleNotFound)
        }
    }

    /// Why `bind` refuses, or `None` if it binds: first the handle is looked
    /// up, then the table entry is checked.
    pub open spec fn bind_refusal(
        &self,
        h: u32,
        table_size: u32,
        index: u32,
        entry: Option<wasmi::FuncRef>,
    ) -> Option<HostError> {
        if self.created_refusal(h) is Some {
            self.created_refusal(h)
        } else {
            entry_refusal(table_size, index, entry)
        }
    }

    /// What `create` promises: how the registry `after` and the result `r`
    /// relate to the registry before it, `self`, and to the bytecode.
    pub open spec fn create_post(
        &self,
        bytecode: Seq<u8>,
        after: &Registry,
        r: Result<u32, HostError>,
    ) -> bool {
        &&& after.wf()
        &&& after.spawned() == self.spawned()
        &&& if self.exhausted() {
            r == Err::<u32, HostError>(HostError::HandlesExhausted) && after.same_state(self)
        } else if !module_loads(bytecode) {
            &&& r == Err::<u32, HostError>(HostError::BytecodeInvalid)
            &&& after.created() == self.created()
            &&& after.generation() == self.generation() + 16
        } else {
            &&& after.generation() == self.generation() + 16
            &&& r matches Ok(h)
            &&& self.registers(after, h)
            &&& after.created()[h].describes(bytecode)
            &&& after.created()[h].bindings() == Map::<Seq<char>, wasmi::FuncRef>::empty()
        }
    }

    /// Whether `after` is `self` with one more created process, under the
    /// handle `h`, which is the created handle of the generation that
    /// `after` has reached and was never issued before.
    pub open spec fn registers(&self, after: &Registry, h: u32) -> bool {
        &&& h as int == make_handle(after.generation(), HandleKind::Created)
        &&& h != 0
        &&& after.issued(h, HandleKind::Created)
        &&& forall|k: HandleKind| !self.issued(h, k)
        &&& !self.created().contains_key(h)
        &&& after.created().contains_key(h)
        &&& after.created() == self.created().insert(h, after.created()[h])
    }

    /// Whether `after` is `self` with one more spawned process, under the
    /// handle `s`, which is the spawned handle of the generation that
    /// `after` has reached and was never issued before.
    pub open spec fn registers_spawned(&self, after: &Registry, s: u32) -> bool {
        &&& s as int == make_handle(after.generation(), HandleKind::Spawned)
        &&& s != 0
        &&& after.issued(s, HandleKind::Spawned)
        &&& forall|k: HandleKind| !self.issued(s, k)
        &&& !self.spawned().contains_key(s)
        &&& after.spawned().contains_key(s)
        &&& after.spawned() == self.spawned().insert(s, after.spawned()[s])
    }

    /// Whether `after` is `self` with `name` bound to `func` in the created
    /// process `h`, and nothing else changed.
    pub open spec fn binds(
        &self,
        after: &Registry,
        h: u32,
        name: Seq<char>,
        func: wasmi::FuncRef,
    ) -> bool {
        &&& self.created().contains_key(h)
        &&& after.created().contains_key(h)
        &&& after.created() == self.created().insert(h, after.created()[h])
        &&& after.created()[h].bindings() == self.created()[h].bindings().insert(name, func)
        &&& after.created()[h].same_module(&self.created()[h])
        &&& after.spawned() == self.spawned()
        &&& after.generation() == self.generation()
    }

    /// Whether `after` is `self` with `name` bound to some function in the
    /// created process `h`, and nothing else changed.
    pub open spec fn binds_name(&self, after: &Registry, h: u32, name: Seq<char>) -> bool {
        exists|func: wasmi::FuncRef| #[trigger] self.binds(after, h, name, func)
    }

    /// What `bind_table_entry` promises: a refusal changes nothing, and
    /// otherwise the entry is bound.
    pub open spec fn bind_post(
        &self,
        h: u32,
        name: Seq<char>,
        table_size: u32,
        index: u32,
        entry: Option<wasmi::FuncRef>,
        after: &Registry,
        r: Result<(), HostError>,
    ) -> bool {
        &&& after.wf()
        &&& match self.bind_refusal(h, table_size, index, entry) {
            Some(e) => r == Err::<(), HostError>(e) && after.same_state(self),
            None => r is Ok && entry is Some && self.binds(after, h, name, entry->0),
        }
    }

    /// What `spawn` promises. A handle that names no created process, or an
    /// exhausted handle space, changes nothing. Otherwise the created
    /// process is gone from its table and a generation is used up; an import
    /// without a binding is reported by name; with all imports bound the
    /// engine decides between `InstantiationFailed` and an instance, which
    /// is refused if the module has a start function and registered if not.
    pub open spec fn spawn_post(&self, h: u32, after: &Registry, r: Result<u32, HostError>) -> bool {
        &&& after.wf()
        &&& match self.created_refusal(h) {
            Some(e) => r == Err::<u32, HostError>(e) && after.same_state(self),
            None => if self.exhausted() {
                r == Err::<u32, HostError>(HostError::HandlesExhausted) && after.same_state(self)
            } else {
                let p = self.created()[h];
                &&& after.created() == self.created().remove(h)
                &&& after.generation() == self.generation() + 16
                &&& match r {
                    Ok(s) => {
                        &&& all_supplied(p.bindings(), p.imports())
                        &&& !p.has_start()
                        &&& self.registers_spawned(after, s)
                        &&& exports_listed(after.spawned()[s].exports(), p.export_names())
                    },
                    Err(e) => {
                        &&& after.spawned() == self.spawned()
                        &&& if !all_supplied(p.bindings(), p.imports()) {
                            reports_unresolved(e, p.bindings(), p.imports())
                        } else {
                            e == HostError::InstantiationFailed || (e
                                == HostError::StartFunctionForbidden && p.has_start())
                        }
                    },
                }
            },
        }
    }

    /// What `invoke` promises: a handle that names no spawned process is
    /// reported as such, and the call of any other is answered as
    /// `call_post` says.
    pub open spec fn invoke_post(
        &self,
        h: u32,
        name: Seq<char>,
        slots: Seq<u8>,
        r: Result<Option<Value>, HostError>,
    ) -> bool {
        match self.spawned_refusal(h) {
            Some(e) => r == Err::<Option<Value>, HostError>(e),
            None => call_post(self.spawned()[h].exports(), name, slots, r),
        }
    }

    /// What every registered handle satisfies.
    pub proof fn lemma_registered(&self, h: u32)
        requires
            self.wf(),
        ensures
            self.generation() % 16 == 0,
            0 <= self.generation() <= MAX_GENERATION as int,
            self.created().contains_key(h) ==> self.issued(h, HandleKind::Created),
            self.spawned().contains_key(h) ==> self.issued(h, HandleKind::Spawned),
            !(self.created().contains_key(h) && self.spawned().contains_key(h)),
            self.created().contains_key(h) || self.spawned().contains_key(h) ==> h != 0,
    {
    }

    /// The invariant carries over to a registry that has no entry beyond
    /// those of a well-formed one, but for entries under issued handles.
    proof fn lemma_wf_kept(&self, before: &Registry)
        requires
            before.wf(),
            self.allocator.wf(),
            before.generation() <= self.generation(),
            forall|k: u32| #[trigger]
                self.created().contains_key(k) ==> before.created().contains_key(k) || self.issued(
                    k,
                    HandleKind::Created,
                ),
            forall|k: u32| #[trigger]
                self.spawned().contains_key(k) ==> before.spawned().contains_key(k) || self.issued(
                    k,
                    HandleKind::Spawned,
                ),
        ensures
            self.wf(),
    {
        assert forall|k: u32| #[trigger] self.created().contains_key(k) implies self.issued(
            k,
            HandleKind::Created,
        ) by {
            if before.created().contains_key(k) {
                assert(before.issued(k, HandleKind::Created));
            }
        }
        assert forall|k: u32| #[trigger] self.spawned().contains_key(k) implies self.issued(
            k,
            HandleKind::Spawned,
        ) by {
            if before.spawned().contains_key(k) {
                assert(before.issued(k, HandleKind::Spawned));
            }
        }
    }

    /// An empty registry.
    pub fn new() -> (r: Self)
        ensures
            r.wf(),
            r.generation() == 0,
            r.created() == Map::<u32, Process>::empty(),
            r.spawned() == Map::<u32, SpawnedProcess>::empty(),
    {
        Registry { allocator: HandleAllocator::new(), created: HashMap::new(), spawned: HashMap::new() }
    }

    /// The number of created processes.
    pub fn created_count(&self) -> (n: usize)
        ensures
            n == self.created().len(),
    {
        self.created.len()
    }

    /// The number of spawned processes.
    pub fn spawned_count(&self) -> (n: usize)
        ensures
            n == self.spawned().len(),
    {
        self.spawned.len()
    }

    /// The error for a handle that is in neither place where it was sought.
    fn refuse(h: u32, other: HandleKind) -> (e: HostError)
        ensures
            e == (if handle_kind(h) == Some(other) {
                HostError::HandleKindMismatch
            } else {
                HostError::HandleNotFound
            }),
    {
        match kind_of(h) {
            Some(HandleKind::Created) => match other {
                HandleKind::Created => HostError::HandleKindMismatch,
                HandleKind::Spawned => HostError::HandleNotFound,
            },
            Some(HandleKind::Spawned) => match other {
                HandleKind::Created => HostError::HandleNotFound,
                HandleKind::Spawned => HostError::HandleKindMismatch,
            },
            None => HostError::HandleNotFound,
        }
    }

    /// Issues a fresh handle of namespace `kind`: one that no entry has and
    /// that differs from every handle issued before. `None` once the
    /// generations are used up.
    pub fn allocate(&mut self, kind: HandleKind) -> (r: Option<u32>)
        requires
            old(self).wf(),
        ensures
            final(self).wf(),
            final(self).created() == old(self).created(),
            final(self).spawned() == old(self).spawned(),
            r is None <==> old(self).exhausted(),
            r is None ==> final(self).generation() == old(self).generation(),
            r matches Some(h) ==> {
                &&& final(self).generation() == old(self).generation() + 16
                &&& h as int == make_handle(final(self).generation(), kind)
                &&& h != 0
                &&& final(self).issued(h, kind)
                &&& forall|k: HandleKind| !old(self).issued(h, k)
                &&& !final(self).created().contains_key(h)
                &&& !final(self).spawned().contains_key(h)
            },
    {
        let r: Option<u32> = self.allocator.allocate(kind);
        proof {
            assert(self.created() == old(self).created());
            assert(self.spawned() == old(self).spawned());
            if r is Some {
                lemma_make_handle(self.generation(), kind);
            }
            self.lemma_wf_kept(old(self));
        }
        r
    }

    /// The created process that `h` names.
    pub fn lookup_created(&self, h: u32) -> (r: Result<&Process, HostError>)
        ensures
            match self.created_refusal(h) {
                Some(e) => r == Err::<&Process, HostError>(e),
                None => r matches Ok(p) && *p == self.created()[h],
            },
    {
        match self.created.get(&h) {
            Some(p) => Ok(p),
            None => Err(Registry::refuse(h, HandleKind::Spawned)),
        }
    }

    /// The spawned process that `h` names.
    pub fn lookup_spawned(&self, h: u32) -> (r: Result<&SpawnedProcess, HostError>)
        ensures
            match self.spawned_refusal(h) {
                Some(e) => r == Err::<&SpawnedProcess, HostError>(e),
                None => r matches Ok(p) && *p == self.spawned()[h],
            },
    {
        match self.spawned.get(&h) {
            Some(p) => Ok(p),
            None => Err(Registry::refuse(h, HandleKind::Created)),
        }
    }

    /// Takes the created process that `h` names out of its table.
    pub fn remove_created(&mut self, h: u32) -> (r: Result<Process, HostError>)
        requires
            old(self).wf(),
        ensures
            final(self).wf(),
            final(self).spawned() == old(self).spawned(),
            final(self).generation() == old(self).generation(),
            match old(self).created_refusal(h) {
                Some(e) => r == Err::<Process, HostError>(e) && final(self).created() == old(self).created(),
                None => r == Ok::<Process, HostError>(old(self).created()[h]) && final(self).created() == old(self).created().remove(h),
            },
    {
        let found: Option<Process> = self.created.remove(&h);
        proof {
            assert(self.created() =~= old(self).created().remove(h));
            assert(self.spawned() == old(self).spawned());
            self.lemma_wf_kept(old(self));
        }
        match found {
            Some(p) => Ok(p),
            None => {
                assert(self.created() =~= old(self).created());
                Err(Registry::refuse(h, HandleKind::Spawned))
            },
        }
    }

    /// Registers the process of `bytecode` under a fresh handle and returns
    /// the handle. A generation is used up whether or not the bytecode is
    /// accepted.
    pub fn create(&mut self, bytecode: &[u8]) -> (r: Result<u32, HostError>)
        requires
            old(self).wf(),
        ensures
            old(self).create_post(bytecode@, final(self), r),
    {
        let h: u32 = match self.allocate(HandleKind::Created) {
            Some(h) => h,
            None => {
                return Err(HostError::HandlesExhausted);
            },
        };
        match Process::load(bytecode) {
            Err(e) => Err(e),
            Ok(process) => {
                let ghost before = *self;
                self.created.insert(h, process);
                proof {
                    assert(self.created() == before.created().insert(h, process));
                    assert(self.spawned() == before.spawned());
                    self.lemma_wf_kept(&before);
                }
                Ok(h)
            },
        }
    }

    /// Binds `name` to `func` in the created process that `h` names, in
    /// place of any earlier binding of the name.
    pub(crate) fn bind(&mut self, h: u32, name: &str, func: wasmi::FuncRef) -> (r: Result<
        (),
        HostError,
    >)
        requires
            old(self).wf(),
        ensures
            final(self).wf(),
            match old(self).created_refusal(h) {
                Some(e) => r == Err::<(), HostError>(e) && final(self).same_state(old(self)),
                None => r is Ok && old(self).binds(final(self), h, name@, func),
            },
    {
        match self.remove_created(h) {
            Err(e) => Err(e),
            Ok(process) => {
                let mut process: Process = process;
                process.bind(name.to_owned(), func);
                let ghost before = *self;
                self.created.insert(h, process);
                proof {
                    assert(self.created() =~= old(self).created().insert(h, process));
                    assert(self.spawned() == before.spawned());
                    self.lemma_wf_kept(old(self));
                }
                Ok(())
            },
        }
    }

    /// Binds `name`, in the created process that `h` names, to the function
    /// that the supervisor's table of `table_size` slots holds at `index`,
    /// given as `entry`. An index outside the table is refused with
    /// `TableIndexOutOfRange`, an empty slot with `TableSlotEmpty`; a refusal
    /// leaves the bindings as they were.
    pub(crate) fn bind_table_entry(
        &mut self,
        h: u32,
        name: &str,
        table_size: u32,
        index: u32,
        entry: Option<wasmi::FuncRef>,
    ) -> (r: Result<(), HostError>)
        requires
            old(self).wf(),
        ensures
            old(self).bind_post(h, name@, table_size, index, entry, final(self), r),
    {
        if let Err(e) = self.lookup_created(h) {
            return Err(e);
        }
        if index >= table_size {
            return Err(HostError::TableIndexOutOfRange);
        }
        match entry {
            None => Err(HostError::TableSlotEmpty),
            Some(func) => self.bind(h, name, func),
        }
    }

    /// Instantiates the created process that `h` names and registers the
    /// instance under a fresh handle, which it returns. The created process
    /// leaves its table as soon as `h` is found to name one and a handle is
    /// at hand, whether or not the instantiation then succeeds.
    pub fn spawn(&mut self, h: u32) -> (r: Result<u32, HostError>)
        requires
            old(self).wf(),
        ensures
            old(self).spawn_post(h, final(self), r),
    {
        if let Err(e) = self.lookup_created(h) {
            return Err(e);
        }
        let s: u32 = match self.allocate(HandleKind::Spawned) {
            Some(s) => s,
            None => {
                return Err(HostError::HandlesExhausted);
            },
        };
        let process: Process = match self.remove_created(h) {
            Ok(p) => p,
            Err(e) => {
                return Err(e);
            },
        };
        match process.instantiate() {
            Err(e) => Err(e),
            Ok(spawned) => {
                let ghost before = *self;
                self.spawned.insert(s, spawned);
                proof {
                    assert(self.spawned() == before.spawned().insert(s, spawned));
                    assert(self.created() == before.created());
                    self.lemma_wf_kept(&before);
                }
                Ok(s)
            },
        }
    }

    /// Calls the export `name` of the spawned process that `h` names, with
    /// the arguments that the buffer `slots` holds. Neither table changes.
    pub fn invoke(&self, h: u32, name: &str, slots: &[u8]) -> (r: Result<Option<Value>, HostError>)
        ensures
            self.invoke_post(h, name@, slots@, r),
    {
        match self.lookup_spawned(h) {
            Err(e) => Err(e),
            Ok(process) => process.call(name, slots),
        }
    }
}

/// A handle that names an entry of one table is refused by the other as a
/// handle of the wrong namespace.
pub proof fn lemma_namespaces_apart(registry: &Registry, h: u32)
    requires
        registry.wf(),
    ensures
        registry.created().contains_key(h) ==> registry.spawned_refusal(h) == Some(
            HostError::HandleKindMismatch,
        ),
        registry.spawned().contains_key(h) ==> registry.created_refusal(h) == Some(
            HostError::HandleKindMismatch,
        ),
{
    registry.lemma_registered(h);
}

/// Bytecode that the engine does not accept is answered with
/// `BytecodeInvalid` and registers nothing; a handle that `create` does
/// return is never the null handle.
pub proof fn lemma_create_refuses_invalid(
    before: &Registry,
    bytecode: Seq<u8>,
    after: &Registry,
    r: Result<u32, HostError>,
)
    requires
        before.wf(),
        before.create_post(bytecode, after, r),
    ensures
        !module_loads(bytecode) ==> r is Err && after.created() == before.created(),
        !module_loads(bytecode) && !before.exhausted() ==> r == Err::<u32, HostError>(
            HostError::BytecodeInvalid,
        ),
        r matches Ok(h) ==> h != 0 && module_loads(bytecode),
{
}

/// Two calls of `create`, one after the other, that both return a handle
/// return different handles, whatever the bytecode.
pub proof fn lemma_creates_differ(
    first: &Registry,
    bytecode1: Seq<u8>,
    second: &Registry,
    r1: Result<u32, HostError>,
    bytecode2: Seq<u8>,
    third: &Registry,
    r2: Result<u32, HostError>,
)
    requires
        first.wf(),
        first.create_post(bytecode1, second, r1),
        second.create_post(bytecode2, third, r2),
        r1 is Ok,
        r2 is Ok,
    ensures
        r1->Ok_0 != r2->Ok_0,
{
    let h1 = r1->Ok_0;
    let h2 = r2->Ok_0;
    assert(second.issued(h1, HandleKind::Created));
    assert(!second.issued(h2, HandleKind::Created));
}

/// A handle that `create` or `spawn` returns was not issued before, and
/// every handle issued before stays issued: no handle is given out twice.
pub proof fn lemma_handles_never_reused(
    before: &Registry,
    after: &Registry,
    h: u32,
    earlier: u32,
    kind: HandleKind,
)
    requires
        before.wf(),
        before.registers(after, h) || before.registers_spawned(after, h),
        before.issued(earlier, kind),
    ensures
        h != earlier,
        after.issued(earlier, kind),
        after.generation() > before.generation(),
{
    if before.registers(after, h) {
        assert(!before.issued(h, HandleKind::Created));
    } else {
        assert(!before.issued(h, HandleKind::Spawned));
    }
    assert(!before.issued(h, kind));
}

/// No operation takes a generation back: whatever `create`, `bind_table_entry`
/// or `spawn` did, the generation has not fallen, and a handle that may have
/// been issued before may have been issued after.
pub proof fn lemma_generation_never_falls(
    before: &Registry,
    after: &Registry,
    bytecode: Seq<u8>,
    created: Result<u32, HostError>,
    h: u32,
    name: Seq<char>,
    table_size: u32,
    index: u32,
    entry: Option<wasmi::FuncRef>,
    bound: Result<(), HostError>,
    spawned: Result<u32, HostError>,
    earlier: u32,
    kind: HandleKind,
)
    requires
        before.wf(),
        before.create_post(bytecode, after, created) || before.bind_post(
            h,
            name,
            table_size,
            index,
            entry,
            after,
            bound,
        ) || before.spawn_post(h, after, spawned),
    ensures
        before.generation() <= after.generation() <= before.generation() + 16,
        before.issued(earlier, kind) ==> after.issued(earlier, kind),
{
}

/// Spawning consumes the created handle: after a spawn of a created process
/// in a registry that still has handles to give, a second spawn of the same
/// handle fails with `HandleNotFound`, whatever became of the first.
pub proof fn lemma_spawn_consumes(
    first: &Registry,
    h: u32,
    second: &Registry,
    r1: Result<u32, HostError>,
    third: &Registry,
    r2: Result<u32, HostError>,
)
    requires
        first.wf(),
        first.created().contains_key(h),
        !first.exhausted(),
        first.spawn_post(h, second, r1),
        second.spawn_post(h, third, r2),
    ensures
        r2 == Err::<u32, HostError>(HostError::HandleNotFound),
        third.same_state(second),
{
    first.lemma_registered(h);
    assert(!second.created().contains_key(h));
}

/// A spawn of a created process with an import that no binding supplies
/// fails with `UnresolvedImport` and the name of the first such import, and
/// registers no spawned process. The registry must have a handle left to
/// give: a spawn on an exhausted registry fails before it looks at the
/// imports.
pub proof fn lemma_unresolved_import_spawns_nothing(
    before: &Registry,
    h: u32,
    i: int,
    after: &Registry,
    r: Result<u32, HostError>,
)
    requires
        before.wf(),
        before.created().contains_key(h),
        !before.exhausted(),
        first_unsupplied(before.created()[h].bindings(), before.created()[h].imports(), i),
        before.spawn_post(h, after, r),
    ensures
        r matches Err(HostError::UnresolvedImport(name)) && name@
            == before.created()[h].imports()[i].field@,
        after.spawned() == before.spawned(),
        !after.created().contains_key(h),
{
    let p = before.created()[h];
    assert(!supplies(p.bindings(), p.imports()[i]));
    assert(!all_supplied(p.bindings(), p.imports()));
    lemma_first_unsupplied_unique(r->Err_0, p.bindings(), p.imports(), i);
}

/// A module that declares an import, created and then spawned with nothing
/// bound, fails with `UnresolvedImport` and the name of its first import,
/// and registers no spawned process. The registry must have a handle left
/// for the spawn.
pub proof fn lemma_unbound_module_does_not_spawn(
    before: &Registry,
    bytecode: Seq<u8>,
    created: &Registry,
    h: u32,
    after: &Registry,
    r: Result<u32, HostError>,
)
    requires
        before.wf(),
        before.create_post(bytecode, created, Ok(h)),
        !created.exhausted(),
        declared_imports(bytecode).len() > 0,
        created.spawn_post(h, after, r),
    ensures
        r matches Err(HostError::UnresolvedImport(name)) && name@ == declared_imports(
            bytecode,
        )[0].field@,
        after.spawned() == before.spawned(),
        after.created() == before.created(),
{
    let p = created.created()[h];
    assert(!supplies(p.bindings(), p.imports()[0]));
    assert(first_unsupplied(p.bindings(), p.imports(), 0));
    lemma_unresolved_import_spawns_nothing(created, h, 0, after, r);
    assert(after.created() =~= before.created());
}

/// A table index outside the table is refused with `TableIndexOutOfRange`
/// and leaves every binding as it was.
pub proof fn lemma_bind_out_of_range(
    before: &Registry,
    h: u32,
    name: Seq<char>,
    table_size: u32,
    index: u32,
    entry: Option<wasmi::FuncRef>,
    after: &Registry,
    r: Result<(), HostError>,
)
    requires
        before.created().contains_key(h),
        index >= table_size,
        before.bind_post(h, name, table_size, index, entry, after, r),
    ensures
        r == Err::<(), HostError>(HostError::TableIndexOutOfRange),
        after.created() == before.created(),
        after.created()[h].bindings() == before.created()[h].bindings(),
{
}

/// A name that is not among the exports of the spawned process is answered
/// with `ExportNotFound`.
pub proof fn lemma_invoke_unknown_export(
    registry: &Registry,
    h: u32,
    name: Seq<char>,
    slots: Seq<u8>,
    r: Result<Option<Value>, HostError>,
)
    requires
        registry.spawned().contains_key(h),
        !crate::process::has_export(registry.spawned()[h].exports(), name),
        registry.invoke_post(h, name, slots, r),
    ensures
        r == Err::<Option<Value>, HostError>(HostError::ExportNotFound),
{
}

} // verus!
