//! Vm is the sole entry point for guest memory mapping and vCPU creation.
//!
//! A `Vm` value is the capability for one VM instance: it is created
//! uninitialized, activated once, and destroyed at most once.  While active
//! it owns the guest physical address space, tracked at page granularity so
//! that malformed or overlapping requests are rejected before they could
//! reach the hardware facility, and it records which host threads currently
//! own a vCPU so that thread-affinity violations are reported precisely.
//!
//! Every method's contract equates the method with the corresponding
//! transition function of [`crate::model`].

use vstd::prelude::*;
use std::collections::HashMap;
use std::collections::HashSet;
use crate::mem::Memory;
use crate::model::{
    covered, create_cpu_step, create_vm_step, destroy_step, map_step, overlaps, page_of, pages_of,
    perm_at, protect_map, protect_step, release_cpu_step, span_contains, span_map, span_set,
    unmap_step, valid_range, Error, Model, Page, VmState, PAGE_SIZE, STATUS_OVERLAP,
    STATUS_UNMAPPED,
};

verus! {

/// A virtual CPU bound to exactly one host thread for its entire lifetime.
/// Created by [`Vm::create_cpu`] on behalf of that thread and given back
/// through [`Vm::release_cpu`].
#[derive(Debug)]
pub struct Vcpu {
    thread: u64,
}

impl Vcpu {
    /// Identity of the host thread this vCPU is bound to.
    pub closed spec fn owner(self) -> u64 {
        self.thread
    }

    /// Identity of the host thread this vCPU is bound to.
    pub fn thread(&self) -> (r: u64)
        ensures
            r == self.owner(),
    {
        self.thread
    }
}

/// Entry point to the virtualization facility: the VM instance with its
/// guest physical address space and its vCPUs.
#[derive(Debug)]
pub struct Vm {
    state: VmState,
    pages: HashMap<u64, Page>,
    cpus: HashSet<u64>,
}

impl View for Vm {
    type V = Model;

    closed spec fn view(&self) -> Model {
        Model { state: self.state, mem: self.pages@, cpus: self.cpus@ }
    }
}

/// A well-formed span of pages does not run past the end of the address
/// space: its first page plus its page count still fits in an address.
proof fn lemma_page_span(base: u64, size: u64)
    requires
        valid_range(base, size),
    ensures
        page_of(base) + pages_of(size) <= u64::MAX,
        pages_of(size) >= 1,
{
    vstd::arithmetic::div_mod::lemma_fundamental_div_mod(base as int, PAGE_SIZE as int);
    vstd::arithmetic::div_mod::lemma_fundamental_div_mod(size as int, PAGE_SIZE as int);
}

/// Whether `base` and `size` describe a well-formed region, as
/// [`valid_range`] defines it.
fn range_ok(base: u64, size: u64) -> (r: bool)
    ensures
        r == valid_range(base, size),
{
    base % PAGE_SIZE == 0 && size % PAGE_SIZE == 0 && size > 0 && base.checked_add(size).is_some()
}

impl Vm {
    /// Returns a VM handle in its uninitialized state: no address space, no
    /// vCPUs.  [`Vm::create_vm`] activates it.
    pub fn new() -> (r: Vm)
        ensures
            r@ == Model::init(),
    {
        let r = Vm { state: VmState::Uninitialized, pages: HashMap::new(), cpus: HashSet::new() };
        proof {
            assert(r@ =~= Model::init());
        }
        r
    }

    /// Activates the VM.  Fails with `AlreadyActive` when it is already
    /// active, and with `NotActive` when it has been destroyed: a destroyed
    /// handle is terminal and a fresh one must be created instead.
    pub fn create_vm(&mut self) -> (r: Result<(), Error>)
        ensures
            (final(self)@, r) == create_vm_step(old(self)@),
    {
        match self.state {
            VmState::Uninitialized => {
                self.state = VmState::Active;
                self.pages.clear();
                self.cpus.clear();
                proof {
                    assert(self@ =~= create_vm_step(old(self)@).0);
                }
                Ok(())
            },
            VmState::Active => Err(Error::AlreadyActive),
            VmState::Destroyed => Err(Error::NotActive),
        }
    }

    /// Creates a vCPU instance for the host thread with identity `thread`.
    ///
    /// A thread holds at most one vCPU at a time: a second request from the
    /// same thread fails with `ThreadAffinityViolation` until the first
    /// vCPU is given back through [`Vm::release_cpu`].  The returned vCPU
    /// is bound to that thread for its entire lifetime.
    pub fn create_cpu(&mut self, thread: u64) -> (r: Result<Vcpu, Error>)
        ensures
            final(self)@ == create_cpu_step(old(self)@, thread).0,
            match r {
                Ok(c) => create_cpu_step(old(self)@, thread).1 == Ok::<u64, Error>(c.owner()),
                Err(e) => create_cpu_step(old(self)@, thread).1 == Err::<u64, Error>(e),
            },
    {
        if !matches!(self.state, VmState::Active) {
            return Err(Error::NotActive);
        }
        if self.cpus.contains(&thread) {
            return Err(Error::ThreadAffinityViolation);
        }
        self.cpus.insert(thread);
        proof {
            assert(self@ =~= create_cpu_step(old(self)@, thread).0);
        }
        Ok(Vcpu { thread })
    }

    /// Releases a vCPU, making its thread free to create another.  The
    /// vCPU value is consumed: the underlying facility resource is given
    /// back exactly once.
    pub fn release_cpu(&mut self, cpu: Vcpu) -> (r: Result<(), Error>)
        ensures
            (final(self)@, r) == release_cpu_step(old(self)@, cpu.owner()),
    {
        if !matches!(self.state, VmState::Active) {
            return Err(Error::NotActive);
        }
        if !self.cpus.contains(&cpu.thread) {
            return Err(Error::ThreadAffinityViolation);
        }
        self.cpus.remove(&cpu.thread);
        proof {
            assert(self@ =~= release_cpu_step(old(self)@, cpu.owner()).0);
        }
        Ok(())
    }

    /// Maps a region in the virtual address space of the current task into
    /// the guest physical address space of the VM.
    ///
    /// The host memory must stay owned by the caller, and valid, for as
    /// long as the mapping exists; the VM never allocates or frees it.
    ///
    /// # Arguments
    /// * `uva` - Page aligned virtual address in the current task.
    /// * `gpa` - Page aligned address in the guest physical address space.
    /// * `size` - Size in bytes of the region to be mapped: a positive
    ///   multiple of the page size.
    /// * `flags` - READ, WRITE and EXEC permissions of the region.
    ///
    /// Fails with `InvalidRange` when either range is malformed, and with
    /// `FacilityRejected` when the guest range overlaps an existing
    /// mapping; on failure the address space is untouched.
    pub fn map(&mut self, uva: u64, gpa: u64, size: u64, flags: Memory) -> (r: Result<(), Error>)
        ensures
            (final(self)@, r) == map_step(old(self)@, uva, gpa, size, flags),
    {
        if !matches!(self.state, VmState::Active) {
            return Err(Error::NotActive);
        }
        if !(range_ok(uva, size) && range_ok(gpa, size)) {
            return Err(Error::InvalidRange);
        }
        proof {
            lemma_page_span(gpa, size);
            lemma_page_span(uva, size);
        }
        let ghost m0: Model = self@;
        let gfirst: u64 = gpa / PAGE_SIZE;
        let hfirst: u64 = uva / PAGE_SIZE;
        let count: u64 = size / PAGE_SIZE;
        let mut i: u64 = 0;
        while i < count
            invariant
                self@ == m0,
                m0 == old(self)@,
                m0.state == VmState::Active,
                valid_range(uva, size) && valid_range(gpa, size),
                gfirst == page_of(gpa) && hfirst == page_of(uva) && count == pages_of(size),
                i <= count,
                gfirst + count <= u64::MAX,
                hfirst + count <= u64::MAX,
                forall|p: u64| span_contains(gfirst, i, p) ==> !(#[trigger] m0.mem.contains_key(
                    p,
                )),
            decreases count - i,
        {
            if self.pages.contains_key(&(gfirst + i)) {
                proof {
                    assert(span_contains(gfirst, count, (gfirst + i) as u64)
                        && m0.mem.contains_key((gfirst + i) as u64));
                }
                return Err(Error::FacilityRejected(STATUS_OVERLAP));
            }
            i = i + 1;
        }
        proof {
            if overlaps(m0.mem, gfirst, count) {
                let p = choose|p: u64|
                    span_contains(gfirst, count, p) && m0.mem.contains_key(p);
                assert(!m0.mem.contains_key(p));
                assert(false);
            }
            assert(m0.mem =~= m0.mem.union_prefer_right(span_map(gfirst, hfirst, 0, flags)));
        }
        let mut j: u64 = 0;
        while j < count
            invariant
                m0 == old(self)@,
                m0.state == VmState::Active,
                valid_range(uva, size) && valid_range(gpa, size),
                gfirst == page_of(gpa) && hfirst == page_of(uva) && count == pages_of(size),
                j <= count,
                gfirst + count <= u64::MAX,
                hfirst + count <= u64::MAX,
                !overlaps(m0.mem, gfirst, count),
                self@.state == m0.state,
                self@.cpus == m0.cpus,
                self@.mem == m0.mem.union_prefer_right(span_map(gfirst, hfirst, j, flags)),
            decreases count - j,
        {
            let key: u64 = gfirst + j;
            let hp: u64 = hfirst + j;
            self.pages.insert(key, Page { host_page: hp, perm: flags });
            proof {
                assert(self@.mem =~= m0.mem.union_prefer_right(
                    span_map(gfirst, hfirst, (j + 1) as u64, flags),
                ));
            }
            j = j + 1;
        }
        proof {
            assert(self@ =~= map_step(m0, uva, gpa, size, flags).0);
        }
        Ok(())
    }

    /// Unmaps a region in the guest physical address space of the VM.
    ///
    /// The range need not match a prior map call: pages of a larger
    /// mapping outside the range stay mapped, and pages of the range that
    /// are not mapped are ignored, so unmapping an already-unmapped range
    /// succeeds trivially.  Subsequent guest accesses to the range fault;
    /// the host backing is untouched.
    ///
    /// # Arguments
    /// * `gpa` - Page aligned address in the guest physical address space.
    /// * `size` - Size in bytes of the region to be unmapped: a positive
    ///   multiple of the page size.
    pub fn unmap(&mut self, gpa: u64, size: u64) -> (r: Result<(), Error>)
        ensures
            (final(self)@, r) == unmap_step(old(self)@, gpa, size),
    {
        if !matches!(self.state, VmState::Active) {
            return Err(Error::NotActive);
        }
        if !range_ok(gpa, size) {
            return Err(Error::InvalidRange);
        }
        proof {
            lemma_page_span(gpa, size);
        }
        let ghost m0: Model = self@;
        let gfirst: u64 = gpa / PAGE_SIZE;
        let count: u64 = size / PAGE_SIZE;
        proof {
            assert(m0.mem =~= m0.mem.remove_keys(span_set(gfirst, 0)));
        }
        let mut i: u64 = 0;
        while i < count
            invariant
                m0 == old(self)@,
                m0.state == VmState::Active,
                valid_range(gpa, size),
                gfirst == page_of(gpa) && count == pages_of(size),
                i <= count,
                gfirst + count <= u64::MAX,
                self@.state == m0.state,
                self@.cpus == m0.cpus,
                self@.mem == m0.mem.remove_keys(span_set(gfirst, i)),
            decreases count - i,
        {
            self.pages.remove(&(gfirst + i));
            proof {
                assert(self@.mem =~= m0.mem.remove_keys(span_set(gfirst, (i + 1) as u64)));
            }
            i = i + 1;
        }
        proof {
            assert(self@ =~= unmap_step(m0, gpa, size).0);
        }
        Ok(())
    }

    /// Modifies the permissions of a region in the guest physical address
    /// space of the VM.
    ///
    /// The whole range must currently be mapped.  On success the range's
    /// pages keep their backing and take the new permissions in one step:
    /// the guest never observes an intermediate permission state; the
    /// mapping is neither moved nor resized.
    ///
    /// # Arguments
    /// * `gpa` - Page aligned address in the guest physical address space.
    /// * `size` - Size in bytes of the region to be modified: a positive
    ///   multiple of the page size.
    /// * `flags` - New READ, WRITE and EXEC permissions of the region.
    pub fn protect(&mut self, gpa: u64, size: u64, flags: Memory) -> (r: Result<(), Error>)
        ensures
            (final(self)@, r) == protect_step(old(self)@, gpa, size, flags),
    {
        if !matches!(self.state, VmState::Active) {
            return Err(Error::NotActive);
        }
        if !range_ok(gpa, size) {
            return Err(Error::InvalidRange);
        }
        proof {
            lemma_page_span(gpa, size);
        }
        let ghost m0: Model = self@;
        let gfirst: u64 = gpa / PAGE_SIZE;
        let count: u64 = size / PAGE_SIZE;
        let mut i: u64 = 0;
        while i < count
            invariant
                self@ == m0,
                m0 == old(self)@,
                m0.state == VmState::Active,
                valid_range(gpa, size),
                gfirst == page_of(gpa) && count == pages_of(size),
                i <= count,
                gfirst + count <= u64::MAX,
                forall|p: u64| span_contains(gfirst, i, p) ==> #[trigger] m0.mem.contains_key(p),
            decreases count - i,
        {
            if !self.pages.contains_key(&(gfirst + i)) {
                proof {
                    assert(span_contains(gfirst, count, (gfirst + i) as u64)
                        && !m0.mem.contains_key((gfirst + i) as u64));
                    assert(!covered(m0.mem, gfirst, count));
                }
                return Err(Error::FacilityRejected(STATUS_UNMAPPED));
            }
            i = i + 1;
        }
        proof {
            assert(covered(m0.mem, gfirst, count));
            assert(m0.mem =~= protect_map(m0.mem, gfirst, 0, flags));
        }
        let mut j: u64 = 0;
        while j < count
            invariant
                m0 == old(self)@,
                m0.state == VmState::Active,
                valid_range(gpa, size),
                gfirst == page_of(gpa) && count == pages_of(size),
                j <= count,
                gfirst + count <= u64::MAX,
                covered(m0.mem, gfirst, count),
                self@.state == m0.state,
                self@.cpus == m0.cpus,
                self@.mem == protect_map(m0.mem, gfirst, j, flags),
            decreases count - j,
        {
            let key: u64 = gfirst + j;
            let host: u64;
            match self.pages.get(&key) {
                Some(page) => {
                    host = page.host_page;
                },
                None => {
                    proof {
                        assert(span_contains(gfirst, count, key));
                        assert(false);
                    }
                    host = 0;
                },
            }
            self.pages.insert(key, Page { host_page: host, perm: flags });
            proof {
                assert(self@.mem =~= protect_map(m0.mem, gfirst, (j + 1) as u64, flags));
            }
            j = j + 1;
        }
        proof {
            assert(self@ =~= protect_step(m0, gpa, size, flags).0);
        }
        Ok(())
    }

    /// Destroys the VM instance: every guest physical mapping and every
    /// vCPU becomes invalid, and the handle enters its terminal state.  Any
    /// later call on it fails with `NotActive`.
    pub fn destroy(&mut self) -> (r: Result<(), Error>)
        ensures
            (final(self)@, r) == destroy_step(old(self)@),
    {
        if !matches!(self.state, VmState::Active) {
            return Err(Error::NotActive);
        }
        self.state = VmState::Destroyed;
        self.pages.clear();
        self.cpus.clear();
        proof {
            assert(self@ =~= destroy_step(old(self)@).0);
        }
        Ok(())
    }

    /// The permissions the VM currently grants at guest physical address
    /// `gpa`: those of the page holding `gpa`, or `None` when that page is
    /// unmapped or the VM is not active.
    pub fn permissions(&self, gpa: u64) -> (r: Option<Memory>)
        ensures
            r == perm_at(self@, gpa),
    {
        if !matches!(self.state, VmState::Active) {
            return None;
        }
        match self.pages.get(&(gpa / PAGE_SIZE)) {
            Some(page) => Some(page.perm),
            None => None,
        }
    }
}

} // verus!
