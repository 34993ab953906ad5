//! Handles: 32-bit identifiers made of a generation and a kind tag.
//!
//! The upper 28 bits count allocations; the lower four bits say which table
//! the handle belongs to. Zero is never issued and serves as the value that
//! reports a failed operation.

use vstd::prelude::*;

verus! {

/// The generation grows by this much with every allocation.
pub const HANDLE_STRIDE: u32 = 16;

/// Tag of a handle that names a created, not yet spawned, process.
pub const TAG_CREATED: u32 = 1;

/// Tag of a handle that names a spawned process.
pub const TAG_SPAWNED: u32 = 2;

/// The handle that is never allocated.
pub const NULL_HANDLE: u32 = 0;

/// The largest generation a handle can carry.
pub const MAX_GENERATION: u32 = 0xFFFF_FFF0;

/// The two handle namespaces.
#[derive(Clone, Copy, Debug, PartialEq, Eq, Structural)]
pub enum HandleKind {
    Created,
    Spawned,
}

/// The tag that a handle of `kind` carries in its low bits.
pub open spec fn tag_of(kind: HandleKind) -> u32 {
    match kind {
        HandleKind::Created => TAG_CREATED,
        HandleKind::Spawned => TAG_SPAWNED,
    }
}

/// The low four bits of `h`.
pub open spec fn handle_tag(h: u32) -> int {
    h as int % 16
}

/// `h` with its tag cleared.
pub open spec fn handle_generation(h: u32) -> int {
    h as int - h as int % 16
}

/// The namespace of `h`, if its tag names one.
pub open spec fn handle_kind(h: u32) -> Option<HandleKind> {
    if handle_tag(h) == TAG_CREATED as int {
        Some(HandleKind::Created)
    } else if handle_tag(h) == TAG_SPAWNED as int {
        Some(HandleKind::Spawned)
    } else {
        None
    }
}

/// The handle of namespace `kind` with generation `generation`.
pub open spec fn make_handle(generation: int, kind: HandleKind) -> int {
    generation + tag_of(kind) as int
}

/// Reads the namespace of a handle.
pub fn kind_of(h: u32) -> (r: Option<HandleKind>)
    ensures
        r == handle_kind(h),
{
    let tag: u32 = h & 15;
    assert(h & 15 == h % 16) by (bit_vector);
    if tag == TAG_CREATED {
        Some(HandleKind::Created)
    } else if tag == TAG_SPAWNED {
        Some(HandleKind::Spawned)
    } else {
        None
    }
}

/// Issues handles whose generations never repeat.
pub struct HandleAllocator {
    last: u32,
}

impl HandleAllocator {
    /// The generation of the handle issued last, zero before the first.
    pub closed spec fn last_generation(&self) -> int {
        self.last as int
    }

    /// Generations are multiples of the stride and fit in a handle.
    pub open spec fn wf(&self) -> bool {
        &&& self.last_generation() % 16 == 0
        &&& 0 <= self.last_generation() <= MAX_GENERATION as int
    }

    /// Whether no further handle can be issued.
    pub open spec fn exhausted(&self) -> bool {
        self.last_generation() >= MAX_GENERATION as int
    }

    /// An allocator that has issued nothing.
    pub fn new() -> (r: Self)
        ensures
            r.wf(),
            r.last_generation() == 0,
    {
        HandleAllocator { last: 0 }
    }

    /// Issues the next handle of namespace `kind`, or `None` once the
    /// generations are used up.
    pub fn allocate(&mut self, kind: HandleKind) -> (r: Option<u32>)
        requires
            old(self).wf(),
        ensures
            final(self).wf(),
            r is None <==> old(self).exhausted(),
            r is None ==> final(self).last_generation() == old(self).last_generation(),
            r matches Some(h) ==> {
                &&& final(self).last_generation() == old(self).last_generation() + 16
                &&& h as int == make_handle(final(self).last_generation(), kind)
            },
    {
        match self.last.checked_add(HANDLE_STRIDE) {
            None => None,
            Some(next) => {
                let tag: u32 = match kind {
                    HandleKind::Created => TAG_CREATED,
                    HandleKind::Spawned => TAG_SPAWNED,
                };
                assert(next % 16 == 0 && (tag == 1 || tag == 2) ==> (next | tag) == next + tag)
                    by (bit_vector);
                self.last = next;
                Some(next | tag)
            },
        }
    }
}

/// A handle built from a generation carries that generation and that kind,
/// and is never the null handle.
pub proof fn lemma_make_handle(generation: int, kind: HandleKind)
    requires
        0 <= generation <= MAX_GENERATION as int,
        generation % 16 == 0,
    ensures
        0 < make_handle(generation, kind) <= u32::MAX as int,
        handle_kind(make_handle(generation, kind) as u32) == Some(kind),
        handle_generation(make_handle(generation, kind) as u32) == generation,
{
}

/// Handles of different generations, or of different kinds, differ.
pub proof fn lemma_handles_distinct(g1: int, k1: HandleKind, g2: int, k2: HandleKind)
    requires
        g1 % 16 == 0,
        g2 % 16 == 0,
        g1 != g2 || k1 != k2,
    ensures
        make_handle(g1, k1) != make_handle(g2, k2),
{
}

} // verus!
