//! Abstract model of the VM: the guest physical address space at page
//! granularity, the set of host threads that currently own a vCPU, and the
//! VM lifecycle state.
//!
//! Every operation of [`crate::vm::Vm`] is specified as a pure transition
//! function from a [`Model`] to a new [`Model`] and a result; the executable
//! code is proved to follow these transitions exactly, and the laws in
//! [`crate::laws`] are proved about the transitions themselves.

use vstd::prelude::*;
use crate::mem::Memory;

verus! {

/// Size in bytes of a guest physical page.  Addresses and region sizes
/// handed to the mapping operations must be multiples of this.
pub const PAGE_SIZE: u64 = 4096;

/// Raw status the facility layer reports when a map request collides with a
/// range that is already mapped.
pub const STATUS_OVERLAP: u32 = 0xfae9_4001;

/// Raw status the facility layer reports when a protect request touches a
/// page that is not mapped.
pub const STATUS_UNMAPPED: u32 = 0xfae9_4002;

/// Lifecycle of the VM: created uninitialized, made active once, destroyed
/// at most once.  Destruction is terminal.
#[derive(Clone, Copy, Debug, PartialEq, Eq, Structural)]
pub enum VmState {
    Uninitialized,
    Active,
    Destroyed,
}

/// One mapped guest physical page: the host page backing it and its
/// permissions.  The key under which it is stored is the guest page number
/// (guest physical address divided by [`PAGE_SIZE`]).
#[derive(Clone, Copy, Debug, PartialEq, Eq, Structural)]
pub struct Page {
    /// Host page number (host virtual address divided by [`PAGE_SIZE`]) of
    /// the backing memory.  The backing stays owned by the caller.
    pub host_page: u64,
    /// Current permissions of the page.
    pub perm: Memory,
}

/// What a failed operation reports.
#[derive(Clone, Copy, Debug, PartialEq, Eq, Structural)]
pub enum Error {
    /// Operation attempted with no active VM, or with the VM already
    /// destroyed.
    NotActive,
    /// A second VM activation was attempted while one is active.
    AlreadyActive,
    /// An address or size fails the alignment or size-positivity
    /// preconditions, or the range's end does not fit in an address.
    InvalidRange,
    /// The facility layer rejected the call; the raw status is attached.
    FacilityRejected(u32),
    /// A vCPU operation from a thread that does not own the vCPU, or a
    /// second vCPU requested by a thread that already owns one.
    ThreadAffinityViolation,
}

/// The abstract state of the VM.
#[verifier::ext_equal]
pub ghost struct Model {
    /// Lifecycle state.
    pub state: VmState,
    /// The guest physical address space: guest page number to mapped page.
    pub mem: Map<u64, Page>,
    /// Identities of the host threads that currently own a vCPU.
    pub cpus: Set<u64>,
}

impl Model {
    /// The state before any VM has been activated.
    pub open spec fn init() -> Model {
        Model { state: VmState::Uninitialized, mem: Map::empty(), cpus: Set::empty() }
    }
}

/// A well-formed region: `base` and `size` are page-aligned, `size` is
/// positive, and the end of the range still fits in an address.
pub open spec fn valid_range(base: u64, size: u64) -> bool {
    &&& base % PAGE_SIZE == 0
    &&& size % PAGE_SIZE == 0
    &&& size > 0
    &&& base + size <= u64::MAX
}

/// Guest page number of the page holding address `a`.
pub open spec fn page_of(a: u64) -> u64 {
    a / PAGE_SIZE
}

/// Number of pages in a region of `size` bytes.
pub open spec fn pages_of(size: u64) -> u64 {
    size / PAGE_SIZE
}

/// Whether page number `p` lies in the span of `count` pages starting at
/// page number `first`.
pub open spec fn span_contains(first: u64, count: u64, p: u64) -> bool {
    first <= p < first + count
}

/// The pages a successful map call adds: `count` pages starting at guest
/// page `gfirst`, backed page-for-page by host pages starting at `hfirst`,
/// all with permissions `perm`.
pub open spec fn span_map(gfirst: u64, hfirst: u64, count: u64, perm: Memory) -> Map<u64, Page> {
    Map::new(
        |p: u64| span_contains(gfirst, count, p),
        |p: u64| Page { host_page: (hfirst + (p - gfirst)) as u64, perm },
    )
}

/// The set of page numbers in a span.
pub open spec fn span_set(first: u64, count: u64) -> Set<u64> {
    Set::new(|p: u64| span_contains(first, count, p))
}

/// Whether some page of the span is already mapped.
pub open spec fn overlaps(mem: Map<u64, Page>, first: u64, count: u64) -> bool {
    exists|p: u64| span_contains(first, count, p) && mem.contains_key(p)
}

/// Whether every page of the span is mapped.
pub open spec fn covered(mem: Map<u64, Page>, first: u64, count: u64) -> bool {
    forall|p: u64| span_contains(first, count, p) ==> mem.contains_key(p)
}

/// The address space after a successful protect call: the same pages with
/// the same backing, and permissions `perm` on every page of the span.
pub open spec fn protect_map(mem: Map<u64, Page>, first: u64, count: u64, perm: Memory) -> Map<
    u64,
    Page,
> {
    Map::new(
        |p: u64| mem.contains_key(p),
        |p: u64|
            if span_contains(first, count, p) {
                Page { host_page: mem[p].host_page, perm }
            } else {
                mem[p]
            },
    )
}

/// Activation: `Uninitialized` becomes `Active` with an empty address space
/// and no vCPUs.  A second activation fails with `AlreadyActive`; a
/// destroyed VM is terminal and reports `NotActive`.
pub open spec fn create_vm_step(m: Model) -> (Model, Result<(), Error>) {
    match m.state {
        VmState::Uninitialized => (
            Model { state: VmState::Active, mem: Map::empty(), cpus: Set::empty() },
            Ok(()),
        ),
        VmState::Active => (m, Err(Error::AlreadyActive)),
        VmState::Destroyed => (m, Err(Error::NotActive)),
    }
}

/// Mapping: on an active VM, with well-formed host and guest ranges and no
/// overlap with an existing mapping, the span's pages appear in the address
/// space; otherwise the state is unchanged and the precise error tells why.
pub open spec fn map_step(m: Model, uva: u64, gpa: u64, size: u64, perm: Memory) -> (
    Model,
    Result<(), Error>,
) {
    if m.state != VmState::Active {
        (m, Err(Error::NotActive))
    } else if !(valid_range(uva, size) && valid_range(gpa, size)) {
        (m, Err(Error::InvalidRange))
    } else if overlaps(m.mem, page_of(gpa), pages_of(size)) {
        (m, Err(Error::FacilityRejected(STATUS_OVERLAP)))
    } else {
        (
            Model {
                mem: m.mem.union_prefer_right(
                    span_map(page_of(gpa), page_of(uva), pages_of(size), perm),
                ),
                ..m
            },
            Ok(()),
        )
    }
}

/// Unmapping: on an active VM with a well-formed range, every page of the
/// span leaves the address space.  The range need not match a prior map
/// call; pages of the span that are not mapped are ignored, so unmapping an
/// already-unmapped range succeeds trivially (the idempotent policy).
pub open spec fn unmap_step(m: Model, gpa: u64, size: u64) -> (Model, Result<(), Error>) {
    if m.state != VmState::Active {
        (m, Err(Error::NotActive))
    } else if !valid_range(gpa, size) {
        (m, Err(Error::InvalidRange))
    } else {
        (Model { mem: m.mem.remove_keys(span_set(page_of(gpa), pages_of(size))), ..m }, Ok(()))
    }
}

/// Protection change: on an active VM, with a well-formed range every page
/// of which is mapped, the span's pages keep their backing and take the new
/// permissions; pages outside the span are untouched.  A span with an
/// unmapped page is rejected by the facility.
pub open spec fn protect_step(m: Model, gpa: u64, size: u64, perm: Memory) -> (
    Model,
    Result<(), Error>,
) {
    if m.state != VmState::Active {
        (m, Err(Error::NotActive))
    } else if !valid_range(gpa, size) {
        (m, Err(Error::InvalidRange))
    } else if !covered(m.mem, page_of(gpa), pages_of(size)) {
        (m, Err(Error::FacilityRejected(STATUS_UNMAPPED)))
    } else {
        (Model { mem: protect_map(m.mem, page_of(gpa), pages_of(size), perm), ..m }, Ok(()))
    }
}

/// vCPU creation for the host thread with identity `thread`: one vCPU per
/// thread; a second request from the same thread is a thread-affinity
/// violation.  On success the result carries the owning thread's identity.
pub open spec fn create_cpu_step(m: Model, thread: u64) -> (Model, Result<u64, Error>) {
    if m.state != VmState::Active {
        (m, Err(Error::NotActive))
    } else if m.cpus.contains(thread) {
        (m, Err(Error::ThreadAffinityViolation))
    } else {
        (Model { cpus: m.cpus.insert(thread), ..m }, Ok(thread))
    }
}

/// vCPU release by the owning thread: the thread gives its vCPU back and may
/// create another afterwards.  A thread that owns no vCPU cannot release
/// one.
pub open spec fn release_cpu_step(m: Model, thread: u64) -> (Model, Result<(), Error>) {
    if m.state != VmState::Active {
        (m, Err(Error::NotActive))
    } else if !m.cpus.contains(thread) {
        (m, Err(Error::ThreadAffinityViolation))
    } else {
        (Model { cpus: m.cpus.remove(thread), ..m }, Ok(()))
    }
}

/// Teardown: every mapping and every vCPU becomes invalid and the VM enters
/// its terminal state.  Only an active VM can be destroyed.
pub open spec fn destroy_step(m: Model) -> (Model, Result<(), Error>) {
    if m.state != VmState::Active {
        (m, Err(Error::NotActive))
    } else {
        (Model { state: VmState::Destroyed, mem: Map::empty(), cpus: Set::empty() }, Ok(()))
    }
}

/// The permissions the active VM grants at guest physical address `gpa`:
/// those of the page holding `gpa`, or `None` when that page is unmapped or
/// the VM is not active.
pub open spec fn perm_at(m: Model, gpa: u64) -> Option<Memory> {
    if m.state == VmState::Active && m.mem.contains_key(page_of(gpa)) {
        Some(m.mem[page_of(gpa)].perm)
    } else {
        None
    }
}

} // verus!
