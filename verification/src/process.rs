//! Processes: a loaded module with its bindings, and the live instance that
//! spawning makes of it.
//!
//! The engine's module and instance are opaque. What the rules of this crate
//! read of them (the imports a module declares, whether it has a start
//! function, what an instance exports and with which signature) is copied
//! out once, when the engine hands the object over, and kept beside it as
//! plain data.

use vstd::prelude::*;
use crate::bindings::BindingSet;
use crate::codec::{decode_args, read_args};
use crate::engine::{
    as_func, call_func, declared_export_names, declared_imports, declares_start, decode_sections,
    export_by_name, func_params, func_result, instantiate, load_module, module_loads,
};
use crate::error::HostError;
use crate::value::{Value, ValueType};

verus! {

/// What kind of thing an import asks for.
#[derive(Clone, Copy, Debug, PartialEq, Eq, Structural)]
pub enum ImportKind {
    Function,
    Table,
    Memory,
    Global,
}

/// One entry of a module's import section.
#[derive(Debug)]
pub struct ImportDecl {
    /// The namespace the import is taken from.
    pub module: String,
    /// The name of the import inside that namespace.
    pub field: String,
    /// What is imported.
    pub kind: ImportKind,
}

/// The namespace under which a process imports what the supervisor binds.
pub open spec fn host_namespace() -> Seq<char> {
    "env"@
}

/// Whether the bindings supply the import: it is a function of the host
/// namespace and its name is bound.
pub open spec fn supplies(bindings: Map<Seq<char>, wasmi::FuncRef>, import: ImportDecl) -> bool {
    &&& import.module@ == host_namespace()
    &&& import.kind == ImportKind::Function
    &&& bindings.contains_key(import.field@)
}

/// Whether the bindings supply every import.
pub open spec fn all_supplied(
    bindings: Map<Seq<char>, wasmi::FuncRef>,
    imports: Seq<ImportDecl>,
) -> bool {
    forall|i: int| 0 <= i < imports.len() ==> supplies(bindings, #[trigger] imports[i])
}

/// Whether import `i` is the first that the bindings do not supply.
pub open spec fn first_unsupplied(
    bindings: Map<Seq<char>, wasmi::FuncRef>,
    imports: Seq<ImportDecl>,
    i: int,
) -> bool {
    &&& 0 <= i < imports.len()
    &&& !supplies(bindings, imports[i])
    &&& forall|j: int| 0 <= j < i ==> supplies(bindings, #[trigger] imports[j])
}

/// Whether `e` is `UnresolvedImport` with the name of the first import that
/// the bindings do not supply.
pub open spec fn reports_unresolved(
    e: HostError,
    bindings: Map<Seq<char>, wasmi::FuncRef>,
    imports: Seq<ImportDecl>,
) -> bool {
    e matches HostError::UnresolvedImport(name) && exists|i: int| #[trigger]
        first_unsupplied(bindings, imports, i) && name@ == imports[i].field@
}

/// The first import without a binding is unique, so a failure that reports
/// it carries its name.
pub proof fn lemma_first_unsupplied_unique(
    e: HostError,
    bindings: Map<Seq<char>, wasmi::FuncRef>,
    imports: Seq<ImportDecl>,
    i: int,
)
    requires
        reports_unresolved(e, bindings, imports),
        first_unsupplied(bindings, imports, i),
    ensures
        e matches HostError::UnresolvedImport(name) && name@ == imports[i].field@,
{
    let j = choose|j: int| #[trigger]
        first_unsupplied(bindings, imports, j) && e->UnresolvedImport_0@ == imports[j].field@;
    if i < j {
        assert(supplies(bindings, imports[i]));
    }
    if j < i {
        assert(supplies(bindings, imports[j]));
    }
}

/// Looks up a binding for each import, in the order of the imports. Fails
/// with the name of the first import that has none.
pub fn resolve_imports(bindings: &BindingSet, imports: &Vec<ImportDecl>) -> (r: Result<
    Vec<wasmi::FuncRef>,
    HostError,
>)
    ensures
        r is Ok <==> all_supplied(bindings@, imports@),
        r matches Ok(funcs) ==> {
            &&& funcs@.len() == imports@.len()
            &&& forall|i: int|
                0 <= i < imports@.len() ==> #[trigger] funcs@[i] == bindings@[imports@[i].field@]
        },
        r matches Err(e) ==> reports_unresolved(e, bindings@, imports@),
{
    let namespace: String = "env".to_owned();
    let mut funcs: Vec<wasmi::FuncRef> = Vec::new();
    let mut i: usize = 0;
    while i < imports.len()
        invariant
            i <= imports@.len(),
            namespace@ == host_namespace(),
            funcs@.len() == i,
            forall|j: int| 0 <= j < i ==> supplies(bindings@, #[trigger] imports@[j]),
            forall|j: int| 0 <= j < i ==> #[trigger] funcs@[j] == bindings@[imports@[j].field@],
        decreases imports@.len() - i,
    {
        let import: &ImportDecl = &imports[i];
        let is_function: bool = match import.kind {
            ImportKind::Function => true,
            _ => false,
        };
        let found: Option<wasmi::FuncRef> = if is_function && import.module == namespace {
            bindings.resolve(import.field.as_str())
        } else {
            None
        };
        match found {
            Some(f) => {
                funcs.push(f);
            },
            None => {
                assert(first_unsupplied(bindings@, imports@, i as int));
                return Err(HostError::UnresolvedImport(import.field.clone()));
            },
        }
        i = i + 1;
    }
    Ok(funcs)
}

/// A function that an instance exports, with its signature.
pub struct ExportedFunc {
    /// The function.
    pub func: wasmi::FuncRef,
    /// The types of its parameters, in order.
    pub params: Vec<ValueType>,
    /// The type of its result, if it has one.
    pub result: Option<ValueType>,
}

/// What an export is.
pub enum ExportTarget {
    /// A function that can be called.
    Function(ExportedFunc),
    /// A table, a memory or a global.
    Other,
}

/// One export of an instance.
pub struct Export {
    /// The name under which it is exported.
    pub name: String,
    /// What is exported.
    pub target: ExportTarget,
}

/// Whether some export has the name.
pub open spec fn has_export(exports: Seq<Export>, name: Seq<char>) -> bool {
    exists|i: int| 0 <= i < exports.len() && (#[trigger] exports[i]).name@ == name
}

/// Whether export `i` is the first with the name.
pub open spec fn first_named(exports: Seq<Export>, name: Seq<char>, i: int) -> bool {
    &&& 0 <= i < exports.len()
    &&& exports[i].name@ == name
    &&& forall|j: int| 0 <= j < i ==> (#[trigger] exports[j]).name@ != name
}

/// The export that a name stands for: the first that has it.
pub open spec fn named_export(exports: Seq<Export>, name: Seq<char>) -> Export
    recommends
        has_export(exports, name),
{
    exports[choose|i: int| first_named(exports, name, i)]
}

/// Why a call of `name` with the argument buffer `slots` is refused before
/// the engine is asked, or `None` if it is not.
pub open spec fn call_refusal(exports: Seq<Export>, name: Seq<char>, slots: Seq<u8>) -> Option<
    HostError,
> {
    if !has_export(exports, name) {
        Some(HostError::ExportNotFound)
    } else {
        match named_export(exports, name).target {
            ExportTarget::Other => Some(HostError::ExportNotCallable),
            ExportTarget::Function(f) => if slots.len() < 8 * f.params@.len() {
                Some(HostError::ArityUnderflow)
            } else {
                None
            },
        }
    }
}

/// The first export with a name is unique.
pub proof fn lemma_first_named_unique(exports: Seq<Export>, name: Seq<char>, i: int, j: int)
    requires
        first_named(exports, name, i),
        first_named(exports, name, j),
    ensures
        i == j,
        has_export(exports, name),
        named_export(exports, name) == exports[i],
{
    if i < j {
        assert(exports[i].name@ != name);
    }
    if j < i {
        assert(exports[j].name@ != name);
    }
    let k = choose|k: int| first_named(exports, name, k);
    if i < k {
        assert(exports[i].name@ != name);
    }
    if k < i {
        assert(exports[k].name@ != name);
    }
}

/// The type of what a call yields.
pub open spec fn type_of_result(result: Option<Value>) -> Option<ValueType> {
    match result {
        Some(v) => Some(v.spec_value_type()),
        None => None,
    }
}

/// What the host reports for the outcome of a call of a function whose
/// signature declares the result type `declared`: the result as it is, if
/// it is of that type; `EngineTrap` for a fault, and for a result of another
/// type.
pub open spec fn spec_call_outcome(
    declared: Option<ValueType>,
    outcome: Result<Option<Value>, wasmi::Trap>,
) -> Result<Option<Value>, HostError> {
    match outcome {
        Ok(v) => if type_of_result(v) == declared {
            Ok(v)
        } else {
            Err(HostError::EngineTrap)
        },
        Err(_) => Err(HostError::EngineTrap),
    }
}

/// What the host reports for the outcome of a call.
pub fn call_outcome(declared: Option<ValueType>, outcome: Result<Option<Value>, wasmi::Trap>) -> (r:
    Result<Option<Value>, HostError>)
    ensures
        r == spec_call_outcome(declared, outcome),
{
    match outcome {
        Err(_) => Err(HostError::EngineTrap),
        Ok(None) => match declared {
            None => Ok(None),
            Some(_) => Err(HostError::EngineTrap),
        },
        Ok(Some(v)) => match declared {
            None => Err(HostError::EngineTrap),
            Some(t) => if v.value_type() == t {
                Ok(Some(v))
            } else {
                Err(HostError::EngineTrap)
            },
        },
    }
}

/// What a call of `name` with the argument buffer `slots` promises. A call
/// that is refused is answered with the reason. For any other call the
/// engine decides: the answer is `EngineTrap`, or a result of the type that
/// the export's signature declares.
pub open spec fn call_post(
    exports: Seq<Export>,
    name: Seq<char>,
    slots: Seq<u8>,
    r: Result<Option<Value>, HostError>,
) -> bool {
    match call_refusal(exports, name, slots) {
        Some(e) => r == Err::<Option<Value>, HostError>(e),
        None => match r {
            Ok(v) => named_export(exports, name).target matches ExportTarget::Function(f)
                && type_of_result(v) == f.result,
            Err(e) => e == HostError::EngineTrap,
        },
    }
}

/// A live process: a module instance and what it exports.
pub struct SpawnedProcess {
    instance: wasmi::ModuleRef,
    exports: Vec<Export>,
}

impl SpawnedProcess {
    /// The module instance.
    pub closed spec fn instance(&self) -> wasmi::ModuleRef {
        self.instance
    }

    /// The exports of the instance.
    pub closed spec fn exports(&self) -> Seq<Export> {
        self.exports@
    }

    /// The position of the first export with the name.
    pub fn find_export(&self, name: &str) -> (r: Option<usize>)
        ensures
            r is Some <==> has_export(self.exports(), name@),
            r matches Some(i) ==> first_named(self.exports(), name@, i as int),
    {
        let wanted: String = name.to_owned();
        let mut i: usize = 0;
        while i < self.exports.len()
            invariant
                i <= self.exports@.len(),
                wanted@ == name@,
                forall|j: int| 0 <= j < i ==> (#[trigger] self.exports@[j]).name@ != name@,
            decreases self.exports@.len() - i,
        {
            if self.exports[i].name == wanted {
                return Some(i);
            }
            i = i + 1;
        }
        None
    }

    /// Checks a call and reads its arguments: finds the export, requires it
    /// to be a function, and decodes one argument slot per parameter of its
    /// signature. Gives the export's position and the arguments.
    pub fn prepare_call(&self, name: &str, slots: &[u8]) -> (r: Result<
        (usize, Vec<Value>),
        HostError,
    >)
        ensures
            call_refusal(self.exports(), name@, slots@) matches Some(e) ==> r == Err::<
                (usize, Vec<Value>),
                HostError,
            >(e),
            call_refusal(self.exports(), name@, slots@) is None ==> r is Ok,
            r matches Ok((i, args)) ==> {
                &&& first_named(self.exports(), name@, i as int)
                &&& self.exports()[i as int].target matches ExportTarget::Function(f)
                &&& args@ == decode_args(f.params@, slots@)
            },
    {
        match self.find_export(name) {
            None => Err(HostError::ExportNotFound),
            Some(i) => {
                proof {
                    lemma_first_named_unique(self.exports(), name@, i as int, i as int);
                }
                match &self.exports[i].target {
                    ExportTarget::Other => Err(HostError::ExportNotCallable),
                    ExportTarget::Function(f) => {
                        match read_args(&f.params, slots) {
                            Ok(args) => Ok((i, args)),
                            Err(e) => Err(e),
                        }
                    },
                }
            },
        }
    }

    /// Calls the export `name` with the arguments that `slots` holds.
    pub fn call(&self, name: &str, slots: &[u8]) -> (r: Result<Option<Value>, HostError>)
        ensures
            call_post(self.exports(), name@, slots@, r),
    {
        match self.prepare_call(name, slots) {
            Err(e) => Err(e),
            Ok((i, args)) => {
                proof {
                    lemma_first_named_unique(self.exports(), name@, i as int, i as int);
                }
                match &self.exports[i].target {
                    ExportTarget::Function(f) => call_outcome(f.result, call_func(&f.func, &args)),
                    ExportTarget::Other => Err(HostError::ExportNotCallable),
                }
            },
        }
    }
}

/// Whether `name` is one of `names`.
pub open spec fn is_listed(names: Seq<String>, name: Seq<char>) -> bool {
    exists|j: int| 0 <= j < names.len() && (#[trigger] names[j])@ == name
}

/// Whether every one of the exports goes by one of `names`.
pub open spec fn exports_listed(exports: Seq<Export>, names: Seq<String>) -> bool {
    forall|i: int| 0 <= i < exports.len() ==> is_listed(names, (#[trigger] exports[i]).name@)
}

/// Reads what an instance exports under each of the names: one entry for
/// each name that the instance knows, in the order of the names.
fn capture_exports(instance: &wasmi::ModuleRef, names: &Vec<String>) -> (exports: Vec<Export>)
    ensures
        exports@.len() <= names@.len(),
        forall|i: int|
            0 <= i < exports@.len() ==> is_listed(names@, (#[trigger] exports@[i]).name@),
{
    let mut exports: Vec<Export> = Vec::new();
    let mut j: usize = 0;
    while j < names.len()
        invariant
            j <= names@.len(),
            exports@.len() <= j,
            forall|i: int|
                0 <= i < exports@.len() ==> is_listed(names@, (#[trigger] exports@[i]).name@),
        decreases names@.len() - j,
    {
        match export_by_name(instance, names[j].as_str()) {
            None => {},
            Some(found) => {
                let target: ExportTarget = match as_func(&found) {
                    Some(func) => {
                        let params: Vec<ValueType> = func_params(&func);
                        let result: Option<ValueType> = func_result(&func);
                        ExportTarget::Function(ExportedFunc { func, params, result })
                    },
                    None => ExportTarget::Other,
                };
                let ghost before = exports@;
                exports.push(Export { name: names[j].clone(), target });
                assert forall|i: int| 0 <= i < exports@.len() implies is_listed(
                    names@,
                    (#[trigger] exports@[i]).name@,
                ) by {
                    if i < before.len() {
                        assert(exports@[i] == before[i]);
                    } else {
                        assert(names@[j as int]@ == exports@[i].name@);
                    }
                }
            },
        }
        j = j + 1;
    }
    exports
}

/// A loaded module that has not been instantiated, and its bindings.
pub struct Process {
    module: wasmi::Module,
    imports: Vec<ImportDecl>,
    export_names: Vec<String>,
    has_start: bool,
    bindings: BindingSet,
}

impl Process {
    /// The loaded module.
    pub closed spec fn module(&self) -> wasmi::Module {
        self.module
    }

    /// The imports that the module declares, in order.
    pub closed spec fn imports(&self) -> Seq<ImportDecl> {
        self.imports@
    }

    /// The names under which the module exports.
    pub closed spec fn export_names(&self) -> Seq<String> {
        self.export_names@
    }

    /// Whether the module declares a start function.
    pub closed spec fn has_start(&self) -> bool {
        self.has_start
    }

    /// The bindings attached so far.
    pub closed spec fn bindings(&self) -> Map<Seq<char>, wasmi::FuncRef> {
        self.bindings@
    }

    /// Whether two processes hold the same module and differ at most in
    /// their bindings.
    pub open spec fn same_module(&self, other: &Process) -> bool {
        &&& self.module() == other.module()
        &&& self.imports() == other.imports()
        &&& self.export_names() == other.export_names()
        &&& self.has_start() == other.has_start()
    }

    /// Whether the process holds what the bytecode declares: its imports,
    /// the names of its exports, and whether it has a start function.
    pub open spec fn describes(&self, bytecode: Seq<u8>) -> bool {
        &&& self.imports() == declared_imports(bytecode)
        &&& self.export_names() == declared_export_names(bytecode)
        &&& self.has_start() == declares_start(bytecode)
    }

    /// Loads bytecode: the process of a module that the engine accepts, with
    /// what the module declares and with no bindings; `BytecodeInvalid` for
    /// anything else.
    pub fn load(bytecode: &[u8]) -> (r: Result<Process, HostError>)
        ensures
            r is Ok <==> module_loads(bytecode@),
            r matches Ok(p) ==> p.describes(bytecode@) && p.bindings() == Map::<
                Seq<char>,
                wasmi::FuncRef,
            >::empty(),
            r matches Err(e) ==> e == HostError::BytecodeInvalid,
    {
        let module: wasmi::Module = match load_module(bytecode) {
            Ok(m) => m,
            Err(_) => {
                return Err(HostError::BytecodeInvalid);
            },
        };
        match decode_sections(bytecode) {
            Some((imports, export_names, has_start)) => Ok(
                Process { module, imports, export_names, has_start, bindings: BindingSet::new() },
            ),
            None => Err(HostError::BytecodeInvalid),
        }
    }

    /// Binds `name` to `func`, in place of any earlier binding of the name.
    /// Only the host binds: it takes the function from the table of the
    /// supervisor that it holds.
    pub(crate) fn bind(&mut self, name: String, func: wasmi::FuncRef)
        ensures
            final(self).bindings() == old(self).bindings().insert(name@, func),
            final(self).same_module(old(self)),
    {
        self.bindings.insert(name, func);
    }

    /// The number of names bound.
    pub fn binding_count(&self) -> (n: usize)
        ensures
            n == self.bindings().len(),
    {
        self.bindings.len()
    }

    /// Whether `name` is bound.
    pub fn is_bound(&self, name: &str) -> (r: bool)
        ensures
            r == self.bindings().contains_key(name@),
    {
        self.bindings.contains(name)
    }

    /// What becomes of an instantiation: an engine error is
    /// `InstantiationFailed`; an instance of a module with a start function
    /// is refused with `StartFunctionForbidden`, and the start function is
    /// not run; any other instance is the spawned process. Only instances
    /// that this crate made of a process and its bindings are admitted.
    pub(crate) fn admit_instance(
        has_start: bool,
        export_names: &Vec<String>,
        outcome: Result<wasmi::ModuleRef, wasmi::Error>,
    ) -> (r: Result<SpawnedProcess, HostError>)
        ensures
            r is Ok <==> outcome is Ok && !has_start,
            r matches Ok(sp) ==> {
                &&& outcome matches Ok(instance)
                &&& sp.instance() == instance
                &&& exports_listed(sp.exports(), export_names@)
            },
            r matches Err(e) ==> e == (if outcome is Err {
                HostError::InstantiationFailed
            } else {
                HostError::StartFunctionForbidden
            }),
    {
        match outcome {
            Err(_) => Err(HostError::InstantiationFailed),
            Ok(instance) => {
                if has_start {
                    Err(HostError::StartFunctionForbidden)
                } else {
                    let exports: Vec<Export> = capture_exports(&instance, export_names);
                    Ok(SpawnedProcess { instance, exports })
                }
            },
        }
    }

    /// Instantiates the module with its bindings as imports. Fails with
    /// `UnresolvedImport` and the name of the first import that the bindings
    /// do not supply. With every import supplied the engine instantiates the
    /// module, and `admit_instance` decides.
    pub fn instantiate(self) -> (r: Result<SpawnedProcess, HostError>)
        ensures
            !all_supplied(self.bindings(), self.imports()) ==> r is Err && reports_unresolved(
                r->Err_0,
                self.bindings(),
                self.imports(),
            ),
            all_supplied(self.bindings(), self.imports()) ==> match r {
                Ok(_) => !self.has_start(),
                Err(e) => e == HostError::InstantiationFailed || (e
                    == HostError::StartFunctionForbidden && self.has_start()),
            },
            r matches Ok(sp) ==> exports_listed(sp.exports(), self.export_names()),
    {
        match resolve_imports(&self.bindings, &self.imports) {
            Err(e) => Err(e),
            Ok(funcs) => {
                let outcome: Result<wasmi::ModuleRef, wasmi::Error> = instantiate(
                    &self.module,
                    &funcs,
                );
                Process::admit_instance(self.has_start, &self.export_names, outcome)
            },
        }
    }
}

} // verus!
