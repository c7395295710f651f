use hv::mem::Memory;
use hv::model::Error;
use hv::vm::Vm;

const PAGE: u64 = 0x1000;
const HOST: u64 = 0x7000_0000;

#[test]
fn operations_before_activation_fail() {
    let mut vm = Vm::new();
    assert_eq!(vm.map(HOST, 0x0, PAGE, Memory::read()), Err(Error::NotActive));
    assert_eq!(vm.unmap(0x0, PAGE), Err(Error::NotActive));
    assert_eq!(vm.protect(0x0, PAGE, Memory::read()), Err(Error::NotActive));
    assert!(matches!(vm.create_cpu(1), Err(Error::NotActive)));
    assert_eq!(vm.destroy(), Err(Error::NotActive));
    assert_eq!(vm.permissions(0x0), None);
}

#[test]
fn second_activation_fails_with_already_active() {
    let mut vm = Vm::new();
    assert_eq!(vm.create_vm(), Ok(()));
    assert_eq!(vm.create_vm(), Err(Error::AlreadyActive));
}

#[test]
fn destroyed_vm_rejects_everything() {
    let mut vm = Vm::new();
    assert_eq!(vm.create_vm(), Ok(()));
    assert_eq!(vm.map(HOST, 0x0, PAGE, Memory::read()), Ok(()));
    assert_eq!(vm.destroy(), Ok(()));
    assert_eq!(vm.map(HOST, 0x0, PAGE, Memory::read()), Err(Error::NotActive));
    assert_eq!(vm.unmap(0x0, PAGE), Err(Error::NotActive));
    assert_eq!(vm.protect(0x0, PAGE, Memory::read()), Err(Error::NotActive));
    assert!(matches!(vm.create_cpu(1), Err(Error::NotActive)));
    assert_eq!(vm.destroy(), Err(Error::NotActive));
    // A destroyed handle is terminal: it cannot be re-activated.
    assert_eq!(vm.create_vm(), Err(Error::NotActive));
    // Its mappings are gone.
    assert_eq!(vm.permissions(0x0), None);
}

#[test]
fn one_cpu_per_thread() {
    let mut vm = Vm::new();
    assert_eq!(vm.create_vm(), Ok(()));
    let cpu = vm.create_cpu(10).unwrap();
    assert_eq!(cpu.thread(), 10);
    // Second vCPU for the same thread, first not released: rejected.
    assert!(matches!(
        vm.create_cpu(10),
        Err(Error::ThreadAffinityViolation)
    ));
    // One vCPU per thread across several threads: all succeed.
    let cpu2 = vm.create_cpu(11).unwrap();
    let cpu3 = vm.create_cpu(12).unwrap();
    assert_eq!(cpu2.thread(), 11);
    assert_eq!(cpu3.thread(), 12);
    // Releasing frees the thread to create another vCPU.
    assert_eq!(vm.release_cpu(cpu), Ok(()));
    let again = vm.create_cpu(10).unwrap();
    assert_eq!(again.thread(), 10);
}

#[test]
fn release_after_destroy_fails() {
    let mut vm = Vm::new();
    assert_eq!(vm.create_vm(), Ok(()));
    let cpu = vm.create_cpu(3).unwrap();
    assert_eq!(vm.destroy(), Ok(()));
    assert_eq!(vm.release_cpu(cpu), Err(Error::NotActive));
}

#[test]
fn fresh_handle_after_destroy_works() {
    let mut vm = Vm::new();
    assert_eq!(vm.create_vm(), Ok(()));
    assert_eq!(vm.destroy(), Ok(()));
    let mut vm2 = Vm::new();
    assert_eq!(vm2.create_vm(), Ok(()));
    assert_eq!(vm2.map(HOST, 0x0, PAGE, Memory::read()), Ok(()));
}
