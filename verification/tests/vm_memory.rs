use hv::mem::Memory;
use hv::model::{Error, STATUS_OVERLAP, STATUS_UNMAPPED};
use hv::vm::Vm;

const PAGE: u64 = 0x1000;
const HOST: u64 = 0x7000_0000;

fn active_vm() -> Vm {
    let mut vm = Vm::new();
    assert_eq!(vm.create_vm(), Ok(()));
    vm
}

fn rw() -> Memory {
    Memory::read().union(Memory::write())
}

#[test]
fn map_then_unmap_identical_range_restores() {
    let mut vm = active_vm();
    assert_eq!(vm.map(HOST, 0x0, 4 * PAGE, rw()), Ok(()));
    assert_eq!(vm.unmap(0x0, 4 * PAGE), Ok(()));
    for gpa in [0x0, PAGE, 2 * PAGE, 3 * PAGE] {
        assert_eq!(vm.permissions(gpa), None);
    }
    // The range is free again: an identical map succeeds as it did at first.
    assert_eq!(vm.map(HOST, 0x0, 4 * PAGE, rw()), Ok(()));
}

#[test]
fn map_rejects_malformed_ranges() {
    let mut vm = active_vm();
    // Misaligned guest address.
    assert_eq!(vm.map(HOST, 0x123, PAGE, rw()), Err(Error::InvalidRange));
    // Misaligned host address.
    assert_eq!(vm.map(HOST + 1, 0x0, PAGE, rw()), Err(Error::InvalidRange));
    // Size not a multiple of the page size.
    assert_eq!(vm.map(HOST, 0x0, PAGE + 512, rw()), Err(Error::InvalidRange));
    // Zero size.
    assert_eq!(vm.map(HOST, 0x0, 0, rw()), Err(Error::InvalidRange));
    // Range runs past the end of the address space.
    assert_eq!(
        vm.map(HOST, u64::MAX - (PAGE - 1), PAGE, rw()),
        Err(Error::InvalidRange)
    );
    // No observable effect on the address space.
    assert_eq!(vm.permissions(0x0), None);
    assert_eq!(vm.map(HOST, 0x0, PAGE, rw()), Ok(()));
}

#[test]
fn unmap_and_protect_reject_malformed_ranges() {
    let mut vm = active_vm();
    assert_eq!(vm.unmap(0x10, PAGE), Err(Error::InvalidRange));
    assert_eq!(vm.unmap(0x0, 7), Err(Error::InvalidRange));
    assert_eq!(vm.protect(0x10, PAGE, rw()), Err(Error::InvalidRange));
    assert_eq!(vm.protect(0x0, 0, rw()), Err(Error::InvalidRange));
}

#[test]
fn unmap_of_unmapped_range_is_idempotent() {
    let mut vm = active_vm();
    // Never-mapped range: trivial success, by the documented policy.
    assert_eq!(vm.unmap(0x8000, 2 * PAGE), Ok(()));
    // Partial unmap keeps the remainder of a larger mapping.
    assert_eq!(vm.map(HOST, 0x0, 3 * PAGE, rw()), Ok(()));
    assert_eq!(vm.unmap(PAGE, PAGE), Ok(()));
    assert_eq!(vm.permissions(0x0), Some(rw()));
    assert_eq!(vm.permissions(PAGE), None);
    assert_eq!(vm.permissions(2 * PAGE), Some(rw()));
    // Unmapping the same page again still succeeds.
    assert_eq!(vm.unmap(PAGE, PAGE), Ok(()));
}

#[test]
fn protect_changes_only_permissions_and_restores() {
    let mut vm = active_vm();
    assert_eq!(vm.map(HOST, 0x0, 2 * PAGE, rw()), Ok(()));
    assert_eq!(vm.protect(0x0, 2 * PAGE, Memory::read()), Ok(()));
    assert_eq!(vm.permissions(0x0), Some(Memory::read()));
    assert_eq!(vm.permissions(PAGE), Some(Memory::read()));
    // Restoring the prior permissions makes the region indistinguishable
    // from one that was never re-protected.
    assert_eq!(vm.protect(0x0, 2 * PAGE, rw()), Ok(()));
    assert_eq!(vm.permissions(0x0), Some(rw()));
    assert_eq!(vm.permissions(PAGE), Some(rw()));
}

#[test]
fn protect_of_unmapped_page_is_rejected() {
    let mut vm = active_vm();
    assert_eq!(vm.map(HOST, 0x0, PAGE, rw()), Ok(()));
    // The span [0x0, 0x2000) has an unmapped second page.
    assert_eq!(
        vm.protect(0x0, 2 * PAGE, Memory::read()),
        Err(Error::FacilityRejected(STATUS_UNMAPPED))
    );
    // The mapped page kept its permissions.
    assert_eq!(vm.permissions(0x0), Some(rw()));
}

#[test]
fn map_protect_unmap_remap_scenario() {
    let mut vm = active_vm();
    assert_eq!(vm.map(HOST, 0x0, PAGE, rw()), Ok(()));
    assert_eq!(vm.permissions(0x0), Some(rw()));
    assert!(vm.permissions(0x0).unwrap().contains(Memory::write()));
    assert_eq!(vm.protect(0x0, PAGE, Memory::read()), Ok(()));
    let p = vm.permissions(0x0).unwrap();
    assert_eq!(p, Memory::read());
    assert!(!p.write);
    assert_eq!(vm.unmap(0x0, PAGE), Ok(()));
    // Re-map of the same range with EXEC only: no stale state leaks from
    // the prior mapping.
    assert_eq!(vm.map(HOST, 0x0, PAGE, Memory::execute()), Ok(()));
    assert_eq!(vm.permissions(0x0), Some(Memory::execute()));
}

#[test]
fn overlapping_map_is_rejected_and_first_mapping_intact() {
    let mut vm = active_vm();
    assert_eq!(vm.map(HOST, 0x0, 2 * PAGE, rw()), Ok(()));
    assert_eq!(
        vm.map(HOST + 4 * PAGE, PAGE, 2 * PAGE, rw()),
        Err(Error::FacilityRejected(STATUS_OVERLAP))
    );
    // First mapping intact, and no page of the failed call appeared.
    assert_eq!(vm.permissions(0x0), Some(rw()));
    assert_eq!(vm.permissions(PAGE), Some(rw()));
    assert_eq!(vm.permissions(2 * PAGE), None);
}

#[test]
fn adjacent_maps_do_not_overlap() {
    let mut vm = active_vm();
    assert_eq!(vm.map(HOST, 0x0, PAGE, rw()), Ok(()));
    assert_eq!(vm.map(HOST + PAGE, PAGE, PAGE, Memory::read()), Ok(()));
    assert_eq!(vm.permissions(0x0), Some(rw()));
    assert_eq!(vm.permissions(PAGE), Some(Memory::read()));
}

#[test]
fn permissions_reports_page_of_any_address_inside() {
    let mut vm = active_vm();
    assert_eq!(vm.map(HOST, 2 * PAGE, PAGE, Memory::read()), Ok(()));
    assert_eq!(vm.permissions(2 * PAGE), Some(Memory::read()));
    assert_eq!(vm.permissions(2 * PAGE + 0xfff), Some(Memory::read()));
    assert_eq!(vm.permissions(3 * PAGE), None);
}
