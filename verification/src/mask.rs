//! Permission and inheritance bit vectors.
//!
//! An access mask is a set of permission bits drawn from a fixed vocabulary;
//! inheritance flags are a second, independent bit vector controlling how an
//! entry propagates to child objects and containers. Both are combined by
//! bitwise union and carry the invariant that only vocabulary bits are set.

use vstd::prelude::*;

verus! {

/// Permission to delete the object.
pub const DELETE: u32 = 0x0001_0000;
/// Permission to read the object's security descriptor.
pub const READ_CONTROL: u32 = 0x0002_0000;
/// Permission to modify the object's discretionary access-control list.
pub const WRITE_DAC: u32 = 0x0004_0000;
/// Permission to change the object's owner.
pub const WRITE_OWNER: u32 = 0x0008_0000;
/// Permission to wait on the object.
pub const SYNCHRONIZE: u32 = 0x0010_0000;
/// Meta-bit: access to the system audit list.
pub const ACCESS_SYSTEM_SECURITY: u32 = 0x0100_0000;
/// Meta-bit: request the maximum access the caller can get.
pub const MAXIMUM_ALLOWED: u32 = 0x0200_0000;
/// Generic right covering all access to the object.
pub const GENERIC_ALL: u32 = 0x1000_0000;
/// Generic execute right.
pub const GENERIC_EXECUTE: u32 = 0x2000_0000;
/// Generic write right.
pub const GENERIC_WRITE: u32 = 0x4000_0000;
/// Generic read right.
pub const GENERIC_READ: u32 = 0x8000_0000;

/// Union of every permission bit in the vocabulary.
pub const ALL_ACCESS_BITS: u32 = DELETE | READ_CONTROL | WRITE_DAC | WRITE_OWNER | SYNCHRONIZE
    | ACCESS_SYSTEM_SECURITY | MAXIMUM_ALLOWED | GENERIC_ALL | GENERIC_EXECUTE | GENERIC_WRITE
    | GENERIC_READ;

/// The entry also applies to child objects.
pub const OBJECTS_INHERIT: u32 = 0x1;
/// The entry also applies to child containers.
pub const CONTAINERS_INHERIT: u32 = 0x2;
/// The entry is not propagated past direct children.
pub const DONT_PROPAGATE: u32 = 0x4;
/// The entry applies only to children, not to the object itself.
pub const INHERIT_ONLY: u32 = 0x8;
/// The entry is not inherited at all.
pub const NO_INHERITANCE: u32 = 0x0;
/// The entry applies to child containers and child objects.
pub const CONTAINERS_AND_OBJECTS_INHERIT: u32 = CONTAINERS_INHERIT | OBJECTS_INHERIT;
/// The entry applies to child containers only.
pub const ONLY_CONTAINERS_INHERIT: u32 = CONTAINERS_INHERIT;
/// The entry applies to child objects only.
pub const ONLY_OBJECTS_INHERIT: u32 = OBJECTS_INHERIT;

/// Union of every inheritance bit in the vocabulary.
pub const ALL_INHERITANCE_BITS: u32 = OBJECTS_INHERIT | CONTAINERS_INHERIT | DONT_PROPAGATE
    | INHERIT_ONLY;

/// A set of permission bits over the fixed access-mask vocabulary.
///
/// The view of a mask is its raw bit pattern; only vocabulary bits are ever
/// set in it.
#[derive(Clone, Copy, PartialEq, Eq, Structural, Debug)]
pub struct AccessMask {
    bits: u32,
}

impl View for AccessMask {
    type V = u32;

    closed spec fn view(&self) -> u32 {
        self.bits
    }
}

impl AccessMask {
    #[verifier::type_invariant]
    spec fn type_inv(self) -> bool {
        self.bits & !ALL_ACCESS_BITS == 0
    }

    /// The empty permission set.
    pub fn empty() -> (r: Self)
        ensures
            r@ == 0u32,
    {
        proof {
            assert(0u32 & !ALL_ACCESS_BITS == 0) by (bit_vector);
        }
        AccessMask { bits: 0 }
    }

    /// Builds a mask from raw bits; fails when a bit outside the vocabulary is
    /// set.
    pub fn from_bits(bits: u32) -> (r: Option<Self>)
        ensures
            bits & !ALL_ACCESS_BITS == 0 ==> (r matches Some(m) && m@ == bits),
            bits & !ALL_ACCESS_BITS != 0 ==> r is None,
    {
        if bits & !ALL_ACCESS_BITS == 0 {
            Some(AccessMask { bits })
        } else {
            None
        }
    }

    /// Builds a mask from raw bits, dropping every bit outside the vocabulary.
    pub fn from_bits_truncate(bits: u32) -> (r: Self)
        ensures
            r@ == bits & ALL_ACCESS_BITS,
    {
        proof {
            assert((bits & ALL_ACCESS_BITS) & !ALL_ACCESS_BITS == 0) by (bit_vector);
        }
        AccessMask { bits: bits & ALL_ACCESS_BITS }
    }

    /// The raw bit pattern.
    pub fn bits(&self) -> (r: u32)
        ensures
            r == self@,
            r & !ALL_ACCESS_BITS == 0,
    {
        proof {
            use_type_invariant(self);
        }
        self.bits
    }

    /// The union of two permission sets.
    pub fn union(self, other: Self) -> (r: Self)
        ensures
            r@ == (self@ | other@),
    {
        proof {
            use_type_invariant(&self);
            use_type_invariant(&other);
            let a = self.bits;
            let b = other.bits;
            assert(a & !ALL_ACCESS_BITS == 0 && b & !ALL_ACCESS_BITS == 0 ==> (a | b)
                & !ALL_ACCESS_BITS == 0) by (bit_vector);
        }
        AccessMask { bits: self.bits | other.bits }
    }

    /// Whether every bit of `other` is also set in `self`.
    pub fn contains(self, other: Self) -> (r: bool)
        ensures
            r == (self@ & other@ == other@),
    {
        self.bits & other.bits == other.bits
    }

    /// Whether no bit is set.
    pub fn is_empty(self) -> (r: bool)
        ensures
            r == (self@ == 0u32),
    {
        self.bits == 0
    }
}

/// A set of inheritance bits controlling propagation to children.
///
/// The view of a value is its raw bit pattern; only vocabulary bits are ever
/// set in it, so the pattern always fits in one byte.
#[derive(Clone, Copy, PartialEq, Eq, Structural, Debug)]
pub struct AccessInheritance {
    bits: u32,
}

impl View for AccessInheritance {
    type V = u32;

    closed spec fn view(&self) -> u32 {
        self.bits
    }
}

impl AccessInheritance {
    #[verifier::type_invariant]
    spec fn type_inv(self) -> bool {
        self.bits & !ALL_INHERITANCE_BITS == 0
    }

    /// The empty inheritance set: the entry is not inherited.
    pub fn empty() -> (r: Self)
        ensures
            r@ == 0u32,
    {
        proof {
            assert(0u32 & !ALL_INHERITANCE_BITS == 0) by (bit_vector);
        }
        AccessInheritance { bits: 0 }
    }

    /// Builds an inheritance set from raw bits; fails when a bit outside the
    /// vocabulary is set.
    pub fn from_bits(bits: u32) -> (r: Option<Self>)
        ensures
            bits & !ALL_INHERITANCE_BITS == 0 ==> (r matches Some(m) && m@ == bits),
            bits & !ALL_INHERITANCE_BITS != 0 ==> r is None,
    {
        if bits & !ALL_INHERITANCE_BITS == 0 {
            Some(AccessInheritance { bits })
        } else {
            None
        }
    }

    /// Builds an inheritance set from raw bits, dropping every bit outside the
    /// vocabulary.
    pub fn from_bits_truncate(bits: u32) -> (r: Self)
        ensures
            r@ == bits & ALL_INHERITANCE_BITS,
    {
        proof {
            assert((bits & ALL_INHERITANCE_BITS) & !ALL_INHERITANCE_BITS == 0) by (bit_vector);
        }
        AccessInheritance { bits: bits & ALL_INHERITANCE_BITS }
    }

    /// The raw bit pattern; always at most one byte wide.
    pub fn bits(&self) -> (r: u32)
        ensures
            r == self@,
            r & !ALL_INHERITANCE_BITS == 0,
            r <= 0xF,
    {
        proof {
            use_type_invariant(self);
            let b = self.bits;
            assert(b & !ALL_INHERITANCE_BITS == 0 ==> b <= 0xF) by (bit_vector);
        }
        self.bits
    }

    /// The union of two inheritance sets.
    pub fn union(self, other: Self) -> (r: Self)
        ensures
            r@ == (self@ | other@),
    {
        proof {
            use_type_invariant(&self);
            use_type_invariant(&other);
            let a = self.bits;
            let b = other.bits;
            assert(a & !ALL_INHERITANCE_BITS == 0 && b & !ALL_INHERITANCE_BITS == 0 ==> (a | b)
                & !ALL_INHERITANCE_BITS == 0) by (bit_vector);
        }
        AccessInheritance { bits: self.bits | other.bits }
    }

    /// Whether every bit of `other` is also set in `self`.
    pub fn contains(self, other: Self) -> (r: bool)
        ensures
            r == (self@ & other@ == other@),
    {
        self.bits & other.bits == other.bits
    }
}

/// What an explicit-access request asks the list rebuild to do with its entry.
#[derive(Clone, Copy, PartialEq, Eq, Structural, Debug)]
pub enum AccessMode {
    NotUsed,
    GrantAccess,
    SetAccess,
    DenyAccess,
    RevokeAccess,
    SetAuditSuccess,
    SetAuditFailure,
}

} // verus!
