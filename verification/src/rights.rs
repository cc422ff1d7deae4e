//! Access rights at the host boundary: a {READ, WRITE, ADD} set attached to
//! every purse reference handed to contract code. Rights only ever narrow
//! when a reference is re-exported; they never grow.

use vstd::prelude::*;

verus! {

/// The rights a reference carries. A reference with the empty set is usable
/// only as an identifier (for equality or storage) and permits no operation.
#[derive(Clone, Copy, Debug, PartialEq, Eq, Structural)]
pub struct AccessRights {
    pub read: bool,
    pub write: bool,
    pub add: bool,
}

impl AccessRights {
    /// No right is present.
    pub open spec fn is_empty(&self) -> bool {
        !self.read && !self.write && !self.add
    }

    /// Every right is present.
    pub open spec fn is_full(&self) -> bool {
        self.read && self.write && self.add
    }

    /// Every right of `self` is also a right of `other`.
    pub open spec fn subset_of(&self, other: AccessRights) -> bool {
        &&& (self.read ==> other.read)
        &&& (self.write ==> other.write)
        &&& (self.add ==> other.add)
    }

    /// The rights present in both sets.
    pub open spec fn intersect_spec(&self, other: AccessRights) -> AccessRights {
        AccessRights {
            read: self.read && other.read,
            write: self.write && other.write,
            add: self.add && other.add,
        }
    }

    /// The empty rights set.
    pub fn none() -> (r: AccessRights)
        ensures
            r.is_empty(),
    {
        AccessRights { read: false, write: false, add: false }
    }

    /// The full rights set: read, write and add.
    pub fn full() -> (r: AccessRights)
        ensures
            r.is_full(),
    {
        AccessRights { read: true, write: true, add: true }
    }

    /// Intersection; the result is a subset of both operands.
    pub fn intersect(&self, other: AccessRights) -> (r: AccessRights)
        ensures
            r == self.intersect_spec(other),
            r.subset_of(*self),
            r.subset_of(other),
    {
        AccessRights {
            read: self.read && other.read,
            write: self.write && other.write,
            add: self.add && other.add,
        }
    }
}

/// A purse reference as exposed to contract code: the purse address tagged
/// with the rights this particular reference carries.
#[derive(Clone, Copy, Debug, PartialEq, Eq, Structural)]
pub struct PurseRef {
    addr: usize,
    rights: AccessRights,
}

impl PurseRef {
    /// The address of the purse this reference names.
    pub closed spec fn addr_spec(&self) -> int {
        self.addr as int
    }

    /// The rights this reference carries.
    pub closed spec fn rights_spec(&self) -> AccessRights {
        self.rights
    }

    pub(crate) fn make(addr: usize, rights: AccessRights) -> (r: PurseRef)
        ensures
            r.addr_spec() == addr,
            r.rights_spec() == rights,
    {
        PurseRef { addr, rights }
    }

    /// The purse address, usable for identity comparison whatever the rights.
    pub fn addr(&self) -> (r: usize)
        ensures
            r as int == self.addr_spec(),
    {
        self.addr
    }

    pub fn is_readable(&self) -> (r: bool)
        ensures
            r == self.rights_spec().read,
    {
        self.rights.read
    }

    pub fn is_writeable(&self) -> (r: bool)
        ensures
            r == self.rights_spec().write,
    {
        self.rights.write
    }

    pub fn is_addable(&self) -> (r: bool)
        ensures
            r == self.rights_spec().add,
    {
        self.rights.add
    }

    /// Derive a reference to the same purse carrying at most the rights of
    /// this one: the only way to produce a new rights tag, so rights never
    /// grow across a derivation step.
    pub fn narrow(&self, allowed: AccessRights) -> (r: PurseRef)
        ensures
            r.addr_spec() == self.addr_spec(),
            r.rights_spec() == self.rights_spec().intersect_spec(allowed),
            r.rights_spec().subset_of(self.rights_spec()),
    {
        PurseRef { addr: self.addr, rights: self.rights.intersect(allowed) }
    }
}

} // verus!
