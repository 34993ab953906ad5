//! The host primitives as the supervisor sees them: five imports of the host
//! namespace, each with a dispatch index and a list of 32-bit parameters.

use vstd::prelude::*;
use crate::engine::{host_func, host_function};
use crate::error::HostError;
use crate::process::host_namespace;
use crate::value::{Value, ValueType};

verus! {

/// One of the operations that the supervisor can ask of the host.
#[derive(Clone, Copy, Debug, PartialEq, Eq, Structural)]
pub enum Primitive {
    /// A debugging hint without effect.
    Pragma,
    /// Registers bytecode as a created process.
    Create,
    /// Binds a name of a created process to a table entry.
    Bind,
    /// Instantiates a created process.
    Spawn,
    /// Calls an export of a spawned process.
    Invoke,
}

impl Primitive {
    /// The index under which the engine dispatches the primitive.
    pub open spec fn spec_index(self) -> usize {
        match self {
            Primitive::Pragma => 1,
            Primitive::Create => 2,
            Primitive::Bind => 3,
            Primitive::Spawn => 4,
            Primitive::Invoke => 5,
        }
    }

    /// The primitive that an index stands for.
    pub open spec fn spec_from_index(index: usize) -> Option<Primitive> {
        if index == 1 {
            Some(Primitive::Pragma)
        } else if index == 2 {
            Some(Primitive::Create)
        } else if index == 3 {
            Some(Primitive::Bind)
        } else if index == 4 {
            Some(Primitive::Spawn)
        } else if index == 5 {
            Some(Primitive::Invoke)
        } else {
            None
        }
    }

    /// The name under which the supervisor imports the primitive.
    pub open spec fn spec_name(self) -> Seq<char> {
        match self {
            Primitive::Pragma => "_pragma"@,
            Primitive::Create => "_create"@,
            Primitive::Bind => "_bind"@,
            Primitive::Spawn => "_spawn"@,
            Primitive::Invoke => "_invoke"@,
        }
    }

    /// The number of parameters, each of them a 32-bit integer.
    pub open spec fn spec_param_count(self) -> nat {
        match self {
            Primitive::Pragma => 2,
            Primitive::Create => 3,
            Primitive::Bind => 4,
            Primitive::Spawn => 1,
            Primitive::Invoke => 7,
        }
    }

    /// The type of the result: none for the hint, a 32-bit integer for the
    /// others.
    pub open spec fn spec_result(self) -> Option<ValueType> {
        match self {
            Primitive::Pragma => None,
            _ => Some(ValueType::I32),
        }
    }

    /// The index under which the engine dispatches the primitive.
    #[verifier::when_used_as_spec(spec_index)]
    pub fn index(self) -> (i: usize)
        ensures
            i == self.spec_index(),
            Primitive::spec_from_index(i) == Some(self),
    {
        match self {
            Primitive::Pragma => 1,
            Primitive::Create => 2,
            Primitive::Bind => 3,
            Primitive::Spawn => 4,
            Primitive::Invoke => 5,
        }
    }

    /// The primitive that an index stands for, if it stands for one.
    pub fn from_index(index: usize) -> (r: Option<Primitive>)
        ensures
            r == Primitive::spec_from_index(index),
            r matches Some(p) ==> p.spec_index() == index,
    {
        if index == 1 {
            Some(Primitive::Pragma)
        } else if index == 2 {
            Some(Primitive::Create)
        } else if index == 3 {
            Some(Primitive::Bind)
        } else if index == 4 {
            Some(Primitive::Spawn)
        } else if index == 5 {
            Some(Primitive::Invoke)
        } else {
            None
        }
    }

    /// The name under which the supervisor imports the primitive.
    pub fn name(self) -> (n: &'static str)
        ensures
            n@ == self.spec_name(),
    {
        match self {
            Primitive::Pragma => "_pragma",
            Primitive::Create => "_create",
            Primitive::Bind => "_bind",
            Primitive::Spawn => "_spawn",
            Primitive::Invoke => "_invoke",
        }
    }

    /// The number of parameters.
    pub fn param_count(self) -> (n: usize)
        ensures
            n == self.spec_param_count(),
    {
        match self {
            Primitive::Pragma => 2,
            Primitive::Create => 3,
            Primitive::Bind => 4,
            Primitive::Spawn => 1,
            Primitive::Invoke => 7,
        }
    }

    /// The types of the parameters.
    pub fn params(self) -> (types: Vec<ValueType>)
        ensures
            types@.len() == self.spec_param_count(),
            forall|i: int| 0 <= i < types@.len() ==> types@[i] == ValueType::I32,
    {
        let n: usize = self.param_count();
        let mut types: Vec<ValueType> = Vec::new();
        while types.len() < n
            invariant
                types@.len() <= n,
                forall|i: int| 0 <= i < types@.len() ==> types@[i] == ValueType::I32,
            decreases n - types@.len(),
        {
            types.push(ValueType::I32);
        }
        types
    }

    /// The type of the result.
    pub fn result(self) -> (t: Option<ValueType>)
        ensures
            t == self.spec_result(),
    {
        match self {
            Primitive::Pragma => None,
            _ => Some(ValueType::I32),
        }
    }
}

/// The primitive that the import `field` of namespace `module` names.
pub open spec fn spec_host_import(module: Seq<char>, field: Seq<char>) -> Option<Primitive> {
    if module != host_namespace() {
        None
    } else if field == Primitive::Pragma.spec_name() {
        Some(Primitive::Pragma)
    } else if field == Primitive::Create.spec_name() {
        Some(Primitive::Create)
    } else if field == Primitive::Bind.spec_name() {
        Some(Primitive::Bind)
    } else if field == Primitive::Spawn.spec_name() {
        Some(Primitive::Spawn)
    } else if field == Primitive::Invoke.spec_name() {
        Some(Primitive::Invoke)
    } else {
        None
    }
}

/// Whether two strings are the same.
fn same_text(a: &str, b: &str) -> (r: bool)
    ensures
        r == (a@ == b@),
{
    let a: String = a.to_owned();
    let b: String = b.to_owned();
    a == b
}

/// The primitive that the import `field` of namespace `module` names, if it
/// names one.
pub fn host_import(module: &str, field: &str) -> (r: Option<Primitive>)
    ensures
        r == spec_host_import(module@, field@),
{
    if !same_text(module, "env") {
        None
    } else if same_text(field, Primitive::Pragma.name()) {
        Some(Primitive::Pragma)
    } else if same_text(field, Primitive::Create.name()) {
        Some(Primitive::Create)
    } else if same_text(field, Primitive::Bind.name()) {
        Some(Primitive::Bind)
    } else if same_text(field, Primitive::Spawn.name()) {
        Some(Primitive::Spawn)
    } else if same_text(field, Primitive::Invoke.name()) {
        Some(Primitive::Invoke)
    } else {
        None
    }
}

/// The types of the parameters of a primitive: each a 32-bit integer.
pub open spec fn spec_params(p: Primitive) -> Seq<ValueType> {
    Seq::new(p.spec_param_count(), |i: int| ValueType::I32)
}

/// The host function that stands for a primitive: it has the primitive's
/// parameter types, result type and dispatch index.
pub open spec fn primitive_function(p: Primitive) -> wasmi::FuncRef {
    host_function(spec_params(p), p.spec_result(), p.spec_index())
}

/// The host function that satisfies an import of the supervisor: for the
/// name of a primitive, the function that stands for it; `NameNotFound` for
/// any other name.
pub fn resolve_host_func(module: &str, field: &str) -> (r: Result<wasmi::FuncRef, HostError>)
    ensures
        match spec_host_import(module@, field@) {
            Some(p) => r == Ok::<wasmi::FuncRef, HostError>(primitive_function(p)),
            None => r == Err::<wasmi::FuncRef, HostError>(HostError::NameNotFound),
        },
{
    match host_import(module, field) {
        None => Err(HostError::NameNotFound),
        Some(p) => {
            let params: Vec<ValueType> = p.params();
            assert(params@ =~= spec_params(p));
            Ok(host_func(&params, p.result(), p.index()))
        },
    }
}

/// The 32-bit words of an argument list, if it holds exactly `count`
/// arguments and all of them are 32-bit integers.
pub open spec fn spec_words(args: Seq<Value>, count: nat) -> Option<Seq<u32>> {
    if args.len() == count && forall|i: int| 0 <= i < args.len() ==> args[i] is I32 {
        Some(Seq::new(args.len(), |i: int| args[i]->I32_0 as u32))
    } else {
        None
    }
}

/// The 32-bit words of an argument list, if it holds exactly `count`
/// arguments and all of them are 32-bit integers.
pub fn words(args: &Vec<Value>, count: usize) -> (r: Option<Vec<u32>>)
    ensures
        r is Some <==> spec_words(args@, count as nat) is Some,
        r matches Some(w) ==> w@ == spec_words(args@, count as nat)->0,
{
    if args.len() != count {
        return None;
    }
    let mut out: Vec<u32> = Vec::new();
    let mut i: usize = 0;
    while i < args.len()
        invariant
            i <= args@.len(),
            out@.len() == i,
            forall|j: int| 0 <= j < i ==> args@[j] is I32,
            forall|j: int| 0 <= j < i ==> out@[j] == args@[j]->I32_0 as u32,
        decreases args@.len() - i,
    {
        match args[i] {
            Value::I32(v) => {
                out.push(v as u32);
            },
            _ => {
                return None;
            },
        }
        i = i + 1;
    }
    assert(out@ =~= spec_words(args@, count as nat)->0);
    Some(out)
}

/// Every primitive is found under its own name and index, and under no
/// other.
pub proof fn lemma_primitive_names(p: Primitive, q: Primitive)
    ensures
        spec_host_import(host_namespace(), p.spec_name()) == Some(p),
        Primitive::spec_from_index(p.spec_index()) == Some(p),
        p.spec_name() == q.spec_name() <==> p == q,
        p.spec_index() == q.spec_index() <==> p == q,
{
    reveal_strlit("_pragma");
    reveal_strlit("_create");
    reveal_strlit("_bind");
    reveal_strlit("_spawn");
    reveal_strlit("_invoke");
    let names = seq![
        Primitive::Pragma.spec_name(),
        Primitive::Create.spec_name(),
        Primitive::Bind.spec_name(),
        Primitive::Spawn.spec_name(),
        Primitive::Invoke.spec_name(),
    ];
    assert(names[0].len() == 7 && names[0][1] == 'p');
    assert(names[1].len() == 7 && names[1][1] == 'c');
    assert(names[2].len() == 5);
    assert(names[3].len() == 6);
    assert(names[4].len() == 7 && names[4][1] == 'i');
}

} // verus!
