//! Guest physical memory region permissions.
//!
//! A closed flag-set domain over READ, WRITE and EXEC with union,
//! intersection, containment and an empty (no-access) value.  The raw bit
//! pattern the underlying virtualization facility expects is available
//! through [`Memory::bits`], but callers work with the typed value.

use vstd::prelude::*;

verus! {

/// Permissions of a guest physical memory region: any combination of
/// READ, WRITE and EXEC.  The empty combination denotes no access
/// (a placeholder mapping).
#[derive(Clone, Copy, Debug, PartialEq, Eq, Structural)]
pub struct Memory {
    pub read: bool,
    pub write: bool,
    pub execute: bool,
}

impl Memory {
    /// The empty permission set: no access.
    pub fn none() -> (r: Memory)
        ensures
            r == (Memory { read: false, write: false, execute: false }),
    {
        Memory { read: false, write: false, execute: false }
    }

    /// The READ flag alone.
    pub fn read() -> (r: Memory)
        ensures
            r == (Memory { read: true, write: false, execute: false }),
    {
        Memory { read: true, write: false, execute: false }
    }

    /// The WRITE flag alone.
    pub fn write() -> (r: Memory)
        ensures
            r == (Memory { read: false, write: true, execute: false }),
    {
        Memory { read: false, write: true, execute: false }
    }

    /// The EXEC flag alone.
    pub fn execute() -> (r: Memory)
        ensures
            r == (Memory { read: false, write: false, execute: true }),
    {
        Memory { read: false, write: false, execute: true }
    }

    /// The set of flags present in `self`, in `other`, or in both.
    pub fn union(self, other: Memory) -> (r: Memory)
        ensures
            r == (Memory {
                read: self.read || other.read,
                write: self.write || other.write,
                execute: self.execute || other.execute,
            }),
    {
        Memory {
            read: self.read || other.read,
            write: self.write || other.write,
            execute: self.execute || other.execute,
        }
    }

    /// The set of flags present both in `self` and in `other`.
    pub fn intersect(self, other: Memory) -> (r: Memory)
        ensures
            r == (Memory {
                read: self.read && other.read,
                write: self.write && other.write,
                execute: self.execute && other.execute,
            }),
    {
        Memory {
            read: self.read && other.read,
            write: self.write && other.write,
            execute: self.execute && other.execute,
        }
    }

    /// Whether every flag of `other` is also present in `self`.
    pub fn contains(self, other: Memory) -> (r: bool)
        ensures
            r == ((other.read ==> self.read) && (other.write ==> self.write) && (other.execute
                ==> self.execute)),
    {
        (!other.read || self.read) && (!other.write || self.write) && (!other.execute || self.execute)
    }

    /// Whether no flag is set.
    pub fn is_none(self) -> (r: bool)
        ensures
            r == (!self.read && !self.write && !self.execute),
    {
        !self.read && !self.write && !self.execute
    }

    /// The raw bit pattern of this permission set as the underlying
    /// virtualization facility encodes it: READ is bit 0, WRITE is bit 1,
    /// EXEC is bit 2.
    pub open spec fn bits_spec(self) -> u32 {
        ((if self.read {
            1u32
        } else {
            0u32
        }) + (if self.write {
            2u32
        } else {
            0u32
        }) + (if self.execute {
            4u32
        } else {
            0u32
        })) as u32
    }

    /// Encodes this permission set as the facility's raw bit pattern.
    pub fn bits(self) -> (r: u32)
        ensures
            r == self.bits_spec(),
    {
        (if self.read {
            1u32
        } else {
            0u32
        }) + (if self.write {
            2u32
        } else {
            0u32
        }) + (if self.execute {
            4u32
        } else {
            0u32
        })
    }

    /// Decodes a raw facility bit pattern.  Returns `None` when a bit outside
    /// the three permission flags is set.
    pub fn from_bits(bits: u32) -> (r: Option<Memory>)
        ensures
            bits > 7 ==> r is None,
            bits <= 7 ==> r == Some(
                Memory { read: bits % 2 == 1, write: bits / 2 % 2 == 1, execute: bits / 4 % 2 == 1 },
            ),
            r matches Some(m) ==> m.bits_spec() == bits,
    {
        if bits > 7 {
            None
        } else {
            Some(
                Memory { read: bits % 2 == 1, write: bits / 2 % 2 == 1, execute: bits / 4 % 2 == 1 },
            )
        }
    }
}

} // verus!
