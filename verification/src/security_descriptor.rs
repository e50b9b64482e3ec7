//! Security descriptors.
//!
//! A security descriptor aggregates an object's owner identity, its
//! discretionary access-control list (DACL) — which may be absent — and a
//! control word whose protection bit says whether the DACL rejects entries
//! inherited from ancestors. The descriptor owns its parts: replacing the
//! DACL transfers ownership of the new list in and retires the old one.

use crate::acl::AccessControlList;
use crate::sid::SecurityId;
use vstd::prelude::*;

verus! {

/// Control bit: the DACL does not accept entries inherited from ancestors.
pub const SE_DACL_PROTECTED: u16 = 0x1000;

/// The abstract content of a security descriptor: the owner's SID record, the
/// DACL's list record and the control word.
pub struct SecurityDescriptorView {
    pub owner: Option<Seq<u8>>,
    pub dacl: Option<Seq<u8>>,
    pub control: u16,
}

/// The view of an optional SID.
pub open spec fn spec_opt_sid(o: Option<SecurityId>) -> Option<Seq<u8>> {
    match o {
        Some(sid) => Some(sid@),
        None => None,
    }
}

/// The view of an optional list.
pub open spec fn spec_opt_acl(o: Option<AccessControlList>) -> Option<Seq<u8>> {
    match o {
        Some(acl) => Some(acl@),
        None => None,
    }
}

/// A security descriptor: an optional owner, an optional DACL and a control
/// word.
///
/// Its view is a [`SecurityDescriptorView`].
pub struct SecurityDescriptor {
    owner: Option<SecurityId>,
    dacl: Option<AccessControlList>,
    control: u16,
}

impl View for SecurityDescriptor {
    type V = SecurityDescriptorView;

    closed spec fn view(&self) -> SecurityDescriptorView {
        SecurityDescriptorView {
            owner: spec_opt_sid(self.owner),
            dacl: spec_opt_acl(self.dacl),
            control: self.control,
        }
    }
}

impl SecurityDescriptor {
    /// Aggregates an owner, a DACL and a control word into a descriptor,
    /// taking ownership of both parts.
    pub fn new(owner: Option<SecurityId>, dacl: Option<AccessControlList>, control: u16) -> (r:
        Self)
        ensures
            r@.owner == spec_opt_sid(owner),
            r@.dacl == spec_opt_acl(dacl),
            r@.control == control,
    {
        SecurityDescriptor { owner, dacl, control }
    }

    /// The owner's identity, or nothing when the descriptor carries no owner.
    pub fn owner(&self) -> (r: Option<&SecurityId>)
        ensures
            match r {
                Some(sid) => self@.owner == Some(sid@),
                None => self@.owner is None,
            },
    {
        self.owner.as_ref()
    }

    /// A view of whichever DACL is currently active, or nothing when the
    /// descriptor has none.
    pub fn dacl(&self) -> (r: Option<&AccessControlList>)
        ensures
            match r {
                Some(acl) => self@.dacl == Some(acl@),
                None => self@.dacl is None,
            },
    {
        self.dacl.as_ref()
    }

    /// Whether the control word's protection bit is set: the DACL rejects
    /// entries inherited from ancestors.
    pub fn is_dacl_protected(&self) -> (r: bool)
        ensures
            r == (self@.control & SE_DACL_PROTECTED != 0),
    {
        self.control & SE_DACL_PROTECTED != 0
    }

    /// Replaces the active DACL: passing a list transfers its ownership in
    /// and retires the previous one, passing nothing leaves the descriptor
    /// without a DACL. The owner and the control word — the protection bit
    /// included — are untouched.
    pub fn set_dacl(&mut self, dacl: Option<AccessControlList>)
        ensures
            final(self)@.dacl == spec_opt_acl(dacl),
            final(self)@.owner == old(self)@.owner,
            final(self)@.control == old(self)@.control,
    {
        self.dacl = dacl;
    }
}

} // verus!
