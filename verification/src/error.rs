//! The failures of the host primitives and their status codes.

use vstd::prelude::*;

verus! {

/// Why a host primitive failed.
#[derive(Debug, PartialEq, Eq)]
pub enum HostError {
    /// The bytecode does not parse or does not validate.
    BytecodeInvalid,
    /// No entry of the expected table has this handle.
    HandleNotFound,
    /// The handle belongs to the other table.
    HandleKindMismatch,
    /// The supervisor has no export, or the host no import, of that name.
    NameNotFound,
    /// The table index lies outside the supervisor's function table.
    TableIndexOutOfRange,
    /// The module imports something that no binding supplies. Carries the
    /// import's field name.
    UnresolvedImport(String),
    /// The module declares a start function.
    StartFunctionForbidden,
    /// The spawned module has no export of that name.
    ExportNotFound,
    /// The export of that name is not a function.
    ExportNotCallable,
    /// Fewer argument slots were supplied than the export takes.
    ArityUnderflow,
    /// The engine reported a fault while it ran the export.
    EngineTrap,
    /// The engine refused to instantiate the module with the given bindings.
    InstantiationFailed,
    /// Every generation of the handle space has been issued.
    HandlesExhausted,
    /// A pointer and length do not lie inside the supervisor's memory.
    MemoryOutOfBounds,
    /// A name read from memory is not UTF-8.
    NameNotUtf8,
    /// The table index is in range but the slot holds no function.
    TableSlotEmpty,
    /// The dispatch index names no primitive.
    UnknownPrimitive,
    /// The arguments do not have the number or types the primitive declares.
    BadArguments,
}

/// The status that reports success.
pub const STATUS_OK: u32 = 0;

impl HostError {
    /// The status code of this failure: one number per kind, never zero.
    pub open spec fn spec_code(&self) -> u32 {
        match self {
            HostError::BytecodeInvalid => 1,
            HostError::HandleNotFound => 2,
            HostError::HandleKindMismatch => 3,
            HostError::NameNotFound => 4,
            HostError::TableIndexOutOfRange => 5,
            HostError::UnresolvedImport(_) => 6,
            HostError::StartFunctionForbidden => 7,
            HostError::ExportNotFound => 8,
            HostError::ExportNotCallable => 9,
            HostError::ArityUnderflow => 10,
            HostError::EngineTrap => 11,
            HostError::InstantiationFailed => 12,
            HostError::HandlesExhausted => 13,
            HostError::MemoryOutOfBounds => 14,
            HostError::NameNotUtf8 => 15,
            HostError::TableSlotEmpty => 16,
            HostError::UnknownPrimitive => 17,
            HostError::BadArguments => 18,
        }
    }

    /// The status code of this failure.
    #[verifier::when_used_as_spec(spec_code)]
    pub fn code(&self) -> (c: u32)
        ensures
            c == self.spec_code(),
            c != STATUS_OK,
    {
        match self {
            HostError::BytecodeInvalid => 1,
            HostError::HandleNotFound => 2,
            HostError::HandleKindMismatch => 3,
            HostError::NameNotFound => 4,
            HostError::TableIndexOutOfRange => 5,
            HostError::UnresolvedImport(_) => 6,
            HostError::StartFunctionForbidden => 7,
            HostError::ExportNotFound => 8,
            HostError::ExportNotCallable => 9,
            HostError::ArityUnderflow => 10,
            HostError::EngineTrap => 11,
            HostError::InstantiationFailed => 12,
            HostError::HandlesExhausted => 13,
            HostError::MemoryOutOfBounds => 14,
            HostError::NameNotUtf8 => 15,
            HostError::TableSlotEmpty => 16,
            HostError::UnknownPrimitive => 17,
            HostError::BadArguments => 18,
        }
    }

    /// Whether two failures are of the same kind, whatever they carry.
    pub open spec fn same_kind(&self, other: &HostError) -> bool {
        match (self, other) {
            (HostError::UnresolvedImport(_), HostError::UnresolvedImport(_)) => true,
            (HostError::UnresolvedImport(_), _) => false,
            (_, HostError::UnresolvedImport(_)) => false,
            _ => self == other,
        }
    }
}

/// The status word of a primitive that reports success or a failure.
pub open spec fn spec_status_of(r: Result<(), HostError>) -> u32 {
    match r {
        Ok(_) => STATUS_OK,
        Err(e) => e.spec_code(),
    }
}

/// The status word of a primitive that reports success or a failure.
pub fn status_of(r: &Result<(), HostError>) -> (s: u32)
    ensures
        s == spec_status_of(*r),
        s == STATUS_OK <==> r is Ok,
{
    match r {
        Ok(_) => STATUS_OK,
        Err(e) => e.code(),
    }
}

/// Status codes tell the kinds of failure apart, and none of them reads as
/// success.
pub proof fn lemma_codes_distinguish(a: HostError, b: HostError)
    ensures
        a.spec_code() != STATUS_OK,
        a.spec_code() == b.spec_code() <==> a.same_kind(&b),
{
}

} // verus!
