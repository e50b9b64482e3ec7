//! Access-control entries.
//!
//! An access-control entry (ACE) is one variable-length record inside an
//! access-control list. Every record starts with a 4-byte header: a type tag,
//! a flags byte, and its own total length as a 16-bit little-endian word —
//! the length is the one field that must be readable for every tag, because
//! it is what lets iteration find the next record. A record with a known tag
//! continues with a 32-bit little-endian permission mask and the trustee's
//! SID stored inline; the object-specific tags put a 32-bit presence word and
//! the object GUIDs it announces between the mask and the SID, and any record
//! may carry further data (a callback entry's conditional expression, or
//! alignment padding) between the SID's end and the record's declared end. A
//! record with any other tag is kept opaque beyond its header.

use crate::mask::ALL_ACCESS_BITS;
use crate::mask::AccessInheritance;
use crate::mask::AccessMask;
use crate::mask::AccessMode;
use crate::sid::SecurityId;
use crate::sid::wf_sid;
use vstd::bytes::*;
use vstd::prelude::*;
use vstd::slice::*;

verus! {

/// Tag of an entry granting access.
pub const ACCESS_ALLOWED_ACE_TYPE: u8 = 0x00;

/// Tag of an entry denying access.
pub const ACCESS_DENIED_ACE_TYPE: u8 = 0x01;

/// Tag of an object-specific entry granting access.
pub const ACCESS_ALLOWED_OBJECT_ACE_TYPE: u8 = 0x05;

/// Tag of an object-specific entry denying access.
pub const ACCESS_DENIED_OBJECT_ACE_TYPE: u8 = 0x06;

/// Tag of a callback entry granting access.
pub const ACCESS_ALLOWED_CALLBACK_ACE_TYPE: u8 = 0x09;

/// Tag of a callback entry denying access.
pub const ACCESS_DENIED_CALLBACK_ACE_TYPE: u8 = 0x0A;

/// Tag of an object-specific callback entry granting access.
pub const ACCESS_ALLOWED_CALLBACK_OBJECT_ACE_TYPE: u8 = 0x0B;

/// Tag of an object-specific callback entry denying access.
pub const ACCESS_DENIED_CALLBACK_OBJECT_ACE_TYPE: u8 = 0x0C;

/// Whether a tag belongs to the allow family.
pub open spec fn is_allow_tag(tag: u8) -> bool {
    ||| tag == ACCESS_ALLOWED_ACE_TYPE
    ||| tag == ACCESS_ALLOWED_OBJECT_ACE_TYPE
    ||| tag == ACCESS_ALLOWED_CALLBACK_ACE_TYPE
    ||| tag == ACCESS_ALLOWED_CALLBACK_OBJECT_ACE_TYPE
}

/// Whether a tag belongs to the deny family.
pub open spec fn is_deny_tag(tag: u8) -> bool {
    ||| tag == ACCESS_DENIED_ACE_TYPE
    ||| tag == ACCESS_DENIED_OBJECT_ACE_TYPE
    ||| tag == ACCESS_DENIED_CALLBACK_ACE_TYPE
    ||| tag == ACCESS_DENIED_CALLBACK_OBJECT_ACE_TYPE
}

/// Whether a tag is one of the eight this crate interprets.
pub open spec fn is_known_tag(tag: u8) -> bool {
    is_allow_tag(tag) || is_deny_tag(tag)
}

/// Whether a tag marks an object-specific entry, whose record carries a
/// presence word and up to two object GUIDs between the mask and the SID.
pub open spec fn is_object_tag(tag: u8) -> bool {
    ||| tag == ACCESS_ALLOWED_OBJECT_ACE_TYPE
    ||| tag == ACCESS_DENIED_OBJECT_ACE_TYPE
    ||| tag == ACCESS_ALLOWED_CALLBACK_OBJECT_ACE_TYPE
    ||| tag == ACCESS_DENIED_CALLBACK_OBJECT_ACE_TYPE
}

/// Presence bit: the record carries an object-type GUID.
pub const ACE_OBJECT_TYPE_PRESENT: u32 = 0x1;

/// Presence bit: the record carries an inherited-object-type GUID.
pub const ACE_INHERITED_OBJECT_TYPE_PRESENT: u32 = 0x2;

/// How many GUID bytes an object entry's presence word announces: 16 for
/// each of the two GUIDs whose presence bit is set.
pub open spec fn object_guids_len(presence: u32) -> int {
    (if presence & ACE_OBJECT_TYPE_PRESENT != 0 {
        16int
    } else {
        0int
    }) + (if presence & ACE_INHERITED_OBJECT_TYPE_PRESENT != 0 {
        16int
    } else {
        0int
    })
}

pub(crate) fn known_tag(tag: u8) -> (r: bool)
    ensures
        r == is_known_tag(tag),
{
    tag == ACCESS_ALLOWED_ACE_TYPE || tag == ACCESS_ALLOWED_OBJECT_ACE_TYPE || tag
        == ACCESS_ALLOWED_CALLBACK_ACE_TYPE || tag == ACCESS_ALLOWED_CALLBACK_OBJECT_ACE_TYPE || tag
        == ACCESS_DENIED_ACE_TYPE || tag == ACCESS_DENIED_OBJECT_ACE_TYPE || tag
        == ACCESS_DENIED_CALLBACK_ACE_TYPE || tag == ACCESS_DENIED_CALLBACK_OBJECT_ACE_TYPE
}

pub(crate) fn object_tag(tag: u8) -> (r: bool)
    ensures
        r == is_object_tag(tag),
{
    tag == ACCESS_ALLOWED_OBJECT_ACE_TYPE || tag == ACCESS_DENIED_OBJECT_ACE_TYPE || tag
        == ACCESS_ALLOWED_CALLBACK_OBJECT_ACE_TYPE || tag == ACCESS_DENIED_CALLBACK_OBJECT_ACE_TYPE
}

/// The abstract content of one access-control entry.
///
/// A known entry is its tag, flags byte, permission mask, object region (the
/// presence word and GUIDs of an object-specific entry; empty otherwise),
/// inline trustee record, and whatever trailing data follows the SID inside
/// the record (a callback entry's conditional expression, or padding). An
/// unknown entry is kept as its raw record bytes, header included.
pub enum AceView {
    Known { tag: u8, flags: u8, mask: u32, object_data: Seq<u8>, sid: Seq<u8>, tail: Seq<u8> },
    Unknown { bytes: Seq<u8> },
}

impl AceView {
    /// The total record length in bytes.
    pub open spec fn size(self) -> int {
        match self {
            AceView::Known { object_data, sid, tail, .. } => 8 + object_data.len() as int
                + sid.len() + tail.len(),
            AceView::Unknown { bytes } => bytes.len() as int,
        }
    }

    /// Whether the entry grants access, denies it, or is not interpreted.
    pub open spec fn grants_access(self) -> Option<bool> {
        match self {
            AceView::Known { tag, .. } => Some(is_allow_tag(tag)),
            AceView::Unknown { .. } => None,
        }
    }

    /// The raw permission mask, where the entry has one.
    pub open spec fn mask(self) -> Option<u32> {
        match self {
            AceView::Known { mask, .. } => Some(mask),
            AceView::Unknown { .. } => None,
        }
    }

    /// The inline trustee record, where the entry has one.
    pub open spec fn trustee(self) -> Option<Seq<u8>> {
        match self {
            AceView::Known { sid, .. } => Some(sid),
            AceView::Unknown { .. } => None,
        }
    }

    /// Structural well-formedness: a known entry has a known tag, a
    /// well-formed inline SID, an object region exactly as large as its
    /// presence word announces (and only for an object tag), and a total
    /// size that fits the record's 16-bit length field; an unknown entry has
    /// an unrecognized tag and a header whose length field matches the
    /// record.
    pub open spec fn wf(self) -> bool {
        match self {
            AceView::Known { tag, object_data, sid, tail, .. } => {
                &&& is_known_tag(tag)
                &&& wf_sid(sid)
                &&& (if is_object_tag(tag) {
                    object_data.len() == 4 + object_guids_len(
                        spec_u32_from_le_bytes(object_data.subrange(0, 4)),
                    )
                } else {
                    object_data.len() == 0
                })
                &&& 8 + object_data.len() + sid.len() + tail.len() <= 0xFFFF
            },
            AceView::Unknown { bytes } => {
                &&& bytes.len() >= 4
                &&& !is_known_tag(bytes[0])
                &&& spec_u16_from_le_bytes(bytes.subrange(2, 4)) == bytes.len()
            },
        }
    }
}

/// The record bytes of a known entry: the 4-byte header, the mask, then the
/// inline SID.
pub open spec fn spec_known_ace_bytes(tag: u8, flags: u8, mask: u32, sid: Seq<u8>) -> Seq<u8> {
    seq![tag, flags] + spec_u16_to_le_bytes((8 + sid.len()) as u16) + spec_u32_to_le_bytes(mask)
        + sid
}

enum Ace {
    Known {
        tag: u8,
        flags: u8,
        mask: u32,
        object_data: Vec<u8>,
        trustee: SecurityId,
        tail: Vec<u8>,
    },
    Unknown { bytes: Vec<u8> },
}

/// One parsed access-control entry, as handed out by iteration over a list.
///
/// Its view is the entry's abstract content, an [`AceView`], and is always
/// well-formed.
pub struct AccessControlEntry {
    ace: Ace,
}

impl View for AccessControlEntry {
    type V = AceView;

    closed spec fn view(&self) -> AceView {
        match self.ace {
            Ace::Known { tag, flags, mask, object_data, trustee, tail } => AceView::Known {
                tag,
                flags,
                mask,
                object_data: object_data@,
                sid: trustee@,
                tail: tail@,
            },
            Ace::Unknown { bytes } => AceView::Unknown { bytes: bytes@ },
        }
    }
}

impl AccessControlEntry {
    #[verifier::type_invariant]
    spec fn type_inv(self) -> bool {
        self@.wf()
    }

    pub(crate) fn new_known(
        tag: u8,
        flags: u8,
        mask: u32,
        object_data: Vec<u8>,
        trustee: SecurityId,
        tail: Vec<u8>,
    ) -> (r: Self)
        requires
            is_known_tag(tag),
            wf_sid(trustee@),
            (if is_object_tag(tag) {
                object_data@.len() == 4 + object_guids_len(
                    spec_u32_from_le_bytes(object_data@.subrange(0, 4)),
                )
            } else {
                object_data@.len() == 0
            }),
            8 + object_data@.len() + trustee@.len() + tail@.len() <= 0xFFFF,
        ensures
            r@ == (AceView::Known {
                tag,
                flags,
                mask,
                object_data: object_data@,
                sid: trustee@,
                tail: tail@,
            }),
    {
        AccessControlEntry { ace: Ace::Known { tag, flags, mask, object_data, trustee, tail } }
    }

    pub(crate) fn new_unknown(bytes: Vec<u8>) -> (r: Self)
        requires
            bytes@.len() >= 4,
            !is_known_tag(bytes@[0]),
            spec_u16_from_le_bytes(bytes@.subrange(2, 4)) == bytes@.len(),
        ensures
            r@ == (AceView::Unknown { bytes: bytes@ }),
    {
        AccessControlEntry { ace: Ace::Unknown { bytes } }
    }

    /// The entry's permission mask, truncated to the vocabulary this crate
    /// models; absent for an entry whose tag is not interpreted.
    pub fn access_mask(&self) -> (r: Option<AccessMask>)
        ensures
            match self@ {
                AceView::Known { mask, .. } => (r matches Some(m) && m@ == mask & ALL_ACCESS_BITS),
                AceView::Unknown { .. } => r is None,
            },
    {
        match &self.ace {
            Ace::Known { mask, .. } => Some(AccessMask::from_bits_truncate(*mask)),
            Ace::Unknown { .. } => None,
        }
    }

    /// Whether the entry grants access (allow family) or denies it (deny
    /// family); absent for an entry whose tag is not interpreted.
    pub fn grants_access(&self) -> (r: Option<bool>)
        ensures
            r == self@.grants_access(),
    {
        match &self.ace {
            Ace::Known { tag, .. } => {
                let t: u8 = *tag;
                Some(
                    t == ACCESS_ALLOWED_ACE_TYPE || t == ACCESS_ALLOWED_OBJECT_ACE_TYPE || t
                        == ACCESS_ALLOWED_CALLBACK_ACE_TYPE || t
                        == ACCESS_ALLOWED_CALLBACK_OBJECT_ACE_TYPE,
                )
            },
            Ace::Unknown { .. } => None,
        }
    }

    /// The trustee whose access the entry governs; absent for an entry whose
    /// tag is not interpreted.
    pub fn trustee(&self) -> (r: Option<&SecurityId>)
        ensures
            match self@ {
                AceView::Known { sid, .. } => (r matches Some(t) && t@ == sid),
                AceView::Unknown { .. } => r is None,
            },
    {
        match &self.ace {
            Ace::Known { trustee, .. } => Some(trustee),
            Ace::Unknown { .. } => None,
        }
    }

    /// The entry's total record length; available for every tag, known or
    /// not, since iteration depends on it.
    pub fn size(&self) -> (r: usize)
        ensures
            r == self@.size(),
    {
        proof {
            use_type_invariant(self);
        }
        match &self.ace {
            Ace::Known { object_data, trustee, tail, .. } => 8 + object_data.len()
                + trustee.as_bytes().len() + tail.len(),
            Ace::Unknown { bytes } => bytes.len(),
        }
    }
}

/// The view of an explicit-access request: what the caller asked a list
/// rebuild to merge in.
pub struct ExplicitAccessView {
    pub mask: u32,
    pub mode: AccessMode,
    pub inheritance: u32,
    pub trustee: Seq<u8>,
}

/// An explicit-access request: a permission mask, an access mode, inheritance
/// flags and the trustee they apply to — the input to inserting one entry
/// into an access-control list.
pub struct ExplicitAccess {
    permissions: AccessMask,
    mode: AccessMode,
    inheritance: AccessInheritance,
    trustee: SecurityId,
}

impl View for ExplicitAccess {
    type V = ExplicitAccessView;

    closed spec fn view(&self) -> ExplicitAccessView {
        ExplicitAccessView {
            mask: self.permissions@,
            mode: self.mode,
            inheritance: self.inheritance@,
            trustee: self.trustee@,
        }
    }
}

impl ExplicitAccess {
    /// Pairs a permission mask, an access mode and inheritance flags with the
    /// trustee they apply to.
    pub fn new(
        permissions: AccessMask,
        mode: AccessMode,
        inheritance: AccessInheritance,
        trustee: SecurityId,
    ) -> (r: Self)
        ensures
            r@.mask == permissions@,
            r@.mode == mode,
            r@.inheritance == inheritance@,
            r@.trustee == trustee@,
    {
        ExplicitAccess { permissions, mode, inheritance, trustee }
    }

    /// The requested permission mask.
    pub fn permissions(&self) -> (r: AccessMask)
        ensures
            r@ == self@.mask,
    {
        self.permissions
    }

    /// The requested access mode.
    pub fn mode(&self) -> (r: AccessMode)
        ensures
            r == self@.mode,
    {
        self.mode
    }

    /// The requested inheritance flags.
    pub fn inheritance(&self) -> (r: AccessInheritance)
        ensures
            r@ == self@.inheritance,
    {
        self.inheritance
    }

    /// The trustee the request applies to.
    pub fn trustee(&self) -> (r: &SecurityId)
        ensures
            r@ == self@.trustee,
    {
        &self.trustee
    }
}

/// Whether an access mode can be merged into a discretionary list by this
/// crate: granting or setting maps to an allow entry, denying to a deny
/// entry; the remaining modes are rejected.
pub open spec fn is_insertable_mode(mode: AccessMode) -> bool {
    mode == AccessMode::GrantAccess || mode == AccessMode::SetAccess || mode
        == AccessMode::DenyAccess
}

/// The entry tag an access mode maps to.
pub open spec fn spec_mode_tag(mode: AccessMode) -> u8 {
    if mode == AccessMode::DenyAccess {
        ACCESS_DENIED_ACE_TYPE
    } else {
        ACCESS_ALLOWED_ACE_TYPE
    }
}

/// The abstract entry an explicit-access request turns into: a plain allow or
/// deny record, with no object region and no trailing data.
pub open spec fn spec_requested_entry(v: ExplicitAccessView) -> AceView {
    AceView::Known {
        tag: spec_mode_tag(v.mode),
        flags: v.inheritance as u8,
        mask: v.mask,
        object_data: Seq::empty(),
        sid: v.trustee,
        tail: Seq::empty(),
    }
}

/// Law: the entry a rebuild merges in for an explicit-access request carries
/// exactly the request's mask and trustee, and reports that it grants access
/// for the granting and setting modes and that it denies access for the
/// denying mode.
pub proof fn lemma_requested_entry(v: ExplicitAccessView)
    requires
        is_insertable_mode(v.mode),
    ensures
        spec_requested_entry(v).grants_access() == Some(v.mode != AccessMode::DenyAccess),
        spec_requested_entry(v).mask() == Some(v.mask),
        spec_requested_entry(v).trustee() == Some(v.trustee),
{
}

pub(crate) fn encode_known_ace(
    tag: u8,
    flags: u8,
    mask: u32,
    trustee: &SecurityId,
    out: &mut Vec<u8>,
)
    ensures
        final(out)@ == old(out)@ + spec_known_ace_bytes(tag, flags, mask, trustee@),
        wf_sid(trustee@),
{
    let sid: &[u8] = trustee.as_bytes();
    out.push(tag);
    out.push(flags);
    let size_bytes = u16_to_le_bytes((8 + sid.len()) as u16);
    out.push(size_bytes[0]);
    out.push(size_bytes[1]);
    let mask_bytes = u32_to_le_bytes(mask);
    out.push(mask_bytes[0]);
    out.push(mask_bytes[1]);
    out.push(mask_bytes[2]);
    out.push(mask_bytes[3]);
    let ghost head: Seq<u8> = old(out)@ + seq![tag, flags] + spec_u16_to_le_bytes(
        (8 + trustee@.len()) as u16,
    ) + spec_u32_to_le_bytes(mask);
    proof {
        assert(size_bytes@ =~= seq![size_bytes@[0], size_bytes@[1]]);
        assert(mask_bytes@ =~= seq![mask_bytes@[0], mask_bytes@[1], mask_bytes@[2], mask_bytes@[3]]);
        assert(out@ =~= head + trustee@.take(0));
    }
    let mut i: usize = 0;
    while i < sid.len()
        invariant
            i <= sid@.len(),
            sid@ == trustee@,
            out@ == head + trustee@.take(i as int),
            head == old(out)@ + seq![tag, flags] + spec_u16_to_le_bytes((8 + trustee@.len()) as u16)
                + spec_u32_to_le_bytes(mask),
        decreases sid@.len() - i,
    {
        out.push(*slice_index_get(sid, i));
        i += 1;
        proof {
            assert(out@ =~= head + trustee@.take(i as int));
        }
    }
    proof {
        assert(trustee@.take(trustee@.len() as int) =~= trustee@);
        assert(out@ =~= old(out)@ + spec_known_ace_bytes(tag, flags, mask, trustee@));
    }
}

} // verus!
