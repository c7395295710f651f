//! Laws of the VM transition model.
//!
//! Each proof function here states a guarantee that relates several
//! operations of [`crate::vm::Vm`], over the transition functions of
//! [`crate::model`] that the methods' own contracts are stated with.

use vstd::prelude::*;
use crate::mem::Memory;
use crate::model::{
    covered, create_cpu_step, destroy_step, map_step, overlaps, page_of, pages_of, protect_step,
    release_cpu_step, span_contains, unmap_step, valid_range, Error, Model, VmState,
};

verus! {

/// Mapping a fresh well-formed range and then unmapping the identical range
/// both succeed, and the address space — and the whole VM state — is back
/// to what it was before the map call.
pub proof fn lemma_map_then_unmap_restores(
    m: Model,
    uva: u64,
    gpa: u64,
    size: u64,
    perm: Memory,
)
    requires
        m.state == VmState::Active,
        valid_range(uva, size),
        valid_range(gpa, size),
        !overlaps(m.mem, page_of(gpa), pages_of(size)),
    ensures
        ({
            let (m1, r1) = map_step(m, uva, gpa, size, perm);
            let (m2, r2) = unmap_step(m1, gpa, size);
            r1 == Ok::<(), Error>(()) && r2 == Ok::<(), Error>(()) && m2 == m
        }),
{
    let (m1, r1) = map_step(m, uva, gpa, size, perm);
    let (m2, r2) = unmap_step(m1, gpa, size);
    assert(m2.mem =~= m.mem);
    assert(m2 =~= m);
}

/// A map call with a malformed host or guest range — a misaligned address,
/// a size that is zero or no multiple of the page size, or an end past the
/// address space — fails with `InvalidRange` and has no effect.
pub proof fn lemma_map_invalid_range(m: Model, uva: u64, gpa: u64, size: u64, perm: Memory)
    requires
        m.state == VmState::Active,
        !(valid_range(uva, size) && valid_range(gpa, size)),
    ensures
        map_step(m, uva, gpa, size, perm) == (m, Err::<(), Error>(Error::InvalidRange)),
{
}

/// Changing the protection of a fully mapped range succeeds, changes only
/// the permission attribute of the range's pages — which pages are mapped,
/// and their host backing, stay as they were — and a second protect call
/// restoring the prior permissions leaves the VM exactly as if the range
/// had never been re-protected.
pub proof fn lemma_protect_then_restore(m: Model, gpa: u64, size: u64, prior: Memory, perm: Memory)
    requires
        m.state == VmState::Active,
        valid_range(gpa, size),
        covered(m.mem, page_of(gpa), pages_of(size)),
        forall|p: u64|
            span_contains(page_of(gpa), pages_of(size), p) ==> (#[trigger] m.mem[p]).perm == prior,
    ensures
        ({
            let (m1, r1) = protect_step(m, gpa, size, perm);
            let (m2, r2) = protect_step(m1, gpa, size, prior);
            &&& r1 == Ok::<(), Error>(())
            &&& m1.mem.dom() == m.mem.dom()
            &&& forall|p: u64| #[trigger]
                m.mem.contains_key(p) ==> m1.mem[p].host_page == m.mem[p].host_page
            &&& forall|p: u64|
                m.mem.contains_key(p) && !span_contains(page_of(gpa), pages_of(size), p)
                    ==> #[trigger] m1.mem[p] == m.mem[p]
            &&& forall|p: u64|
                span_contains(page_of(gpa), pages_of(size), p) ==> (#[trigger] m1.mem[p]).perm
                    == perm
            &&& r2 == Ok::<(), Error>(())
            &&& m2 == m
        }),
{
    let (m1, r1) = protect_step(m, gpa, size, perm);
    let (m2, r2) = protect_step(m1, gpa, size, prior);
    assert(m1.mem.dom() =~= m.mem.dom());
    assert(m2.mem =~= m.mem);
    assert(m2 =~= m);
}

/// One vCPU per thread: a second `create_cpu` from a thread that has not
/// released its first vCPU fails with `ThreadAffinityViolation`, while two
/// distinct threads each get a vCPU.
pub proof fn lemma_one_cpu_per_thread(m: Model, t1: u64, t2: u64)
    requires
        m.state == VmState::Active,
        !m.cpus.contains(t1),
        !m.cpus.contains(t2),
        t1 != t2,
    ensures
        ({
            let (m1, r1) = create_cpu_step(m, t1);
            &&& r1 == Ok::<u64, Error>(t1)
            &&& create_cpu_step(m1, t1).1 == Err::<u64, Error>(Error::ThreadAffinityViolation)
            &&& create_cpu_step(m1, t1).0 == m1
            &&& create_cpu_step(m1, t2).1 == Ok::<u64, Error>(t2)
        }),
{
}

/// Releasing a vCPU frees its thread to create another one.
pub proof fn lemma_release_then_create(m: Model, t: u64)
    requires
        m.state == VmState::Active,
        m.cpus.contains(t),
    ensures
        ({
            let (m1, r1) = release_cpu_step(m, t);
            &&& r1 == Ok::<(), Error>(())
            &&& create_cpu_step(m1, t).1 == Ok::<u64, Error>(t)
        }),
{
}

/// Destruction is terminal: destroying an active VM succeeds, and any
/// later map, unmap, protect or vCPU operation fails with `NotActive` and
/// leaves the destroyed state untouched.
pub proof fn lemma_destroyed_rejects_everything(
    m: Model,
    uva: u64,
    gpa: u64,
    size: u64,
    perm: Memory,
    thread: u64,
)
    requires
        m.state == VmState::Active,
    ensures
        ({
            let (m1, r1) = destroy_step(m);
            &&& r1 == Ok::<(), Error>(())
            &&& m1.state == VmState::Destroyed
            &&& map_step(m1, uva, gpa, size, perm) == (m1, Err::<(), Error>(Error::NotActive))
            &&& unmap_step(m1, gpa, size) == (m1, Err::<(), Error>(Error::NotActive))
            &&& protect_step(m1, gpa, size, perm) == (m1, Err::<(), Error>(Error::NotActive))
            &&& create_cpu_step(m1, thread) == (m1, Err::<u64, Error>(Error::NotActive))
            &&& release_cpu_step(m1, thread) == (m1, Err::<(), Error>(Error::NotActive))
            &&& destroy_step(m1) == (m1, Err::<(), Error>(Error::NotActive))
        }),
{
}

} // verus!
