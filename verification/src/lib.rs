//! Control-plane core for a hardware-assisted virtual machine host.
//!
//! The crate manages the guest physical address space of a single VM and the
//! virtual CPUs that execute against it.  Guest memory is mapped, unmapped and
//! re-protected at page granularity; every operation is specified against an
//! abstract model of the address space, and the VM-wide lifecycle
//! (uninitialized, active, destroyed) is enforced as a checked state machine.

pub mod mem;
pub mod model;
pub mod vm;
pub mod laws;

pub use mem::Memory;
pub use model::Error;
pub use vm::Vcpu;
pub use vm::Vm;
