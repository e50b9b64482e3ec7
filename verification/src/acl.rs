//! Access-control lists.
//!
//! An access-control list (ACL) is an 8-byte header — revision, a reserved
//! byte, the total size and the entry count as 16-bit little-endian words,
//! and two more reserved bytes — followed by its entries packed contiguously
//! with no padding and no index: the only way to reach entry `k` is to skip
//! entries `0..k` using each record's self-declared length. A well-formed
//! list is one whose declared total size matches its bytes and whose declared
//! entry count walks the packed region exactly to its end.
//!
//! Lists are immutable values: inserting an entry rebuilds the whole list.

use crate::ace::ACCESS_ALLOWED_ACE_TYPE;
use crate::ace::ACCESS_DENIED_ACE_TYPE;
use crate::ace::ACE_INHERITED_OBJECT_TYPE_PRESENT;
use crate::ace::ACE_OBJECT_TYPE_PRESENT;
use crate::ace::AccessControlEntry;
use crate::ace::AceView;
use crate::ace::encode_known_ace;
use crate::ace::ExplicitAccess;
use crate::ace::ExplicitAccessView;
use crate::ace::is_insertable_mode;
use crate::ace::is_known_tag;
use crate::ace::known_tag;
use crate::ace::spec_known_ace_bytes;
use crate::ace::is_object_tag;
use crate::ace::object_guids_len;
use crate::ace::object_tag;
use crate::ace::spec_requested_entry;
use crate::mask::AccessMode;
use crate::sid::SecurityId;
use crate::sid::wf_sid;
use vstd::bytes::*;
use vstd::prelude::*;
use vstd::slice::*;

verus! {

/// The revision this crate writes into the lists it builds.
pub const ACL_REVISION: u8 = 2;

/// Every list starts with an 8-byte header.
pub const ACL_HEADER_SIZE: usize = 8;

/// A list, header included, never exceeds what its 16-bit size field can
/// declare.
pub const MAX_ACL_SIZE: usize = 0xFFFF;

/// The length field of the entry record starting at `off`.
pub open spec fn ace_size_at(b: Seq<u8>, off: int) -> int {
    spec_u16_from_le_bytes(b.subrange(off + 2, off + 4)) as int
}

/// Where the inline SID of the known entry record at `off` starts: right
/// after the mask, or — for an object-specific tag — after the presence word
/// and the GUIDs it announces.
pub open spec fn sid_offset_at(b: Seq<u8>, off: int) -> int {
    if is_object_tag(b[off]) {
        off + 12 + object_guids_len(spec_u32_from_le_bytes(b.subrange(off + 8, off + 12)))
    } else {
        off + 8
    }
}

/// The length the SID record starting at `so` declares through its
/// sub-authority count byte.
pub open spec fn sid_len_at(b: Seq<u8>, so: int) -> int {
    8 + 4 * (b[so + 1] as int)
}

/// The known-tag part of entry well-formedness: an object entry has room for
/// its presence word, the inline SID lies whole inside the record at its
/// tag's offset, and its sub-authority count is in range. Bytes between the
/// SID's end and the record's declared end are allowed (a callback entry's
/// conditional data, or padding).
pub open spec fn wf_known_ace_at(b: Seq<u8>, off: int) -> bool {
    let size = ace_size_at(b, off);
    let so = sid_offset_at(b, off);
    &&& (is_object_tag(b[off]) ==> 12 <= size)
    &&& so + 8 <= off + size
    &&& b[so + 1] <= 15
    &&& so + sid_len_at(b, so) <= off + size
}

/// Whether a well-formed entry record starts at `off` and ends by `end`: its
/// header is in bounds, its declared length covers at least the header and
/// stays in bounds, and a record with a known tag embeds a well-formed SID
/// at its tag's offset.
pub open spec fn wf_ace_at(b: Seq<u8>, off: int, end: int) -> bool {
    &&& 0 <= off
    &&& off + 4 <= end
    &&& end <= b.len()
    &&& 4 <= ace_size_at(b, off)
    &&& off + ace_size_at(b, off) <= end
    &&& (is_known_tag(b[off]) ==> wf_known_ace_at(b, off))
}

/// The abstract content of the entry record starting at `off`.
pub open spec fn parse_ace_at(b: Seq<u8>, off: int) -> AceView {
    if is_known_tag(b[off]) {
        let size = ace_size_at(b, off);
        let so = sid_offset_at(b, off);
        let sl = sid_len_at(b, so);
        AceView::Known {
            tag: b[off],
            flags: b[off + 1],
            mask: spec_u32_from_le_bytes(b.subrange(off + 4, off + 8)),
            object_data: b.subrange(off + 8, so),
            sid: b.subrange(so, so + sl),
            tail: b.subrange(so + sl, off + size),
        }
    } else {
        AceView::Unknown { bytes: b.subrange(off, off + ace_size_at(b, off)) }
    }
}

/// Whether `count` well-formed entry records, packed one after the other,
/// lead from `off` exactly to `end`.
pub open spec fn wf_aces_from(b: Seq<u8>, off: int, count: int, end: int) -> bool
    decreases count,
{
    if count <= 0 {
        count == 0 && off == end
    } else {
        wf_ace_at(b, off, end) && wf_aces_from(b, off + ace_size_at(b, off), count - 1, end)
    }
}

/// The abstract contents of `count` packed entry records starting at `off`.
pub open spec fn parse_aces_from(b: Seq<u8>, off: int, count: int) -> Seq<AceView>
    decreases count,
{
    if count <= 0 {
        Seq::empty()
    } else {
        seq![parse_ace_at(b, off)] + parse_aces_from(b, off + ace_size_at(b, off), count - 1)
    }
}

/// The total size a list's header declares.
pub open spec fn acl_size(b: Seq<u8>) -> int {
    spec_u16_from_le_bytes(b.subrange(2, 4)) as int
}

/// The entry count a list's header declares.
pub open spec fn acl_ace_count(b: Seq<u8>) -> int {
    spec_u16_from_le_bytes(b.subrange(4, 6)) as int
}

/// Structural well-formedness of a whole list: the declared size is the
/// actual length, and the declared number of entries walks the packed region
/// exactly to the end.
pub open spec fn wf_acl(b: Seq<u8>) -> bool {
    &&& 8 <= b.len() <= 0xFFFF
    &&& acl_size(b) == b.len()
    &&& wf_aces_from(b, 8, acl_ace_count(b), b.len() as int)
}

/// The abstract entries of a list, in on-disk order.
pub open spec fn acl_entries(b: Seq<u8>) -> Seq<AceView> {
    parse_aces_from(b, 8, acl_ace_count(b))
}

/// The bytes of an empty list: a bare header declaring size 8 and no entries.
pub open spec fn spec_empty_acl() -> Seq<u8> {
    seq![ACL_REVISION, 0u8] + spec_u16_to_le_bytes(8u16) + spec_u16_to_le_bytes(0u16) + seq![
        0u8,
        0u8,
    ]
}

pub proof fn lemma_parse_aces_len(b: Seq<u8>, off: int, count: int, end: int)
    requires
        wf_aces_from(b, off, count, end),
    ensures
        parse_aces_from(b, off, count).len() == count,
    decreases count,
{
    if count > 0 {
        lemma_parse_aces_len(b, off + ace_size_at(b, off), count - 1, end);
    }
}

proof fn lemma_ace_agree(b1: Seq<u8>, b2: Seq<u8>, off: int, end: int)
    requires
        end <= b1.len(),
        end <= b2.len(),
        forall|i: int| off <= i < end ==> b1[i] == b2[i],
        wf_ace_at(b1, off, end),
    ensures
        wf_ace_at(b2, off, end),
        ace_size_at(b2, off) == ace_size_at(b1, off),
        parse_ace_at(b2, off) == parse_ace_at(b1, off),
{
    assert(b1.subrange(off + 2, off + 4) =~= b2.subrange(off + 2, off + 4));
    let s = ace_size_at(b1, off);
    assert(b1[off] == b2[off]);
    if is_known_tag(b1[off]) {
        if is_object_tag(b1[off]) {
            assert(b1.subrange(off + 8, off + 12) =~= b2.subrange(off + 8, off + 12));
        }
        let so = sid_offset_at(b1, off);
        assert(sid_offset_at(b2, off) == so);
        assert(b1[so + 1] == b2[so + 1]);
        let sl = sid_len_at(b1, so);
        assert(sid_len_at(b2, so) == sl);
        assert(b1.subrange(off + 4, off + 8) =~= b2.subrange(off + 4, off + 8));
        assert(b1.subrange(off + 8, so) =~= b2.subrange(off + 8, so));
        assert(b1.subrange(so, so + sl) =~= b2.subrange(so, so + sl));
        assert(b1.subrange(so + sl, off + s) =~= b2.subrange(so + sl, off + s));
        assert(b1[off + 1] == b2[off + 1]);
    } else {
        assert(b1.subrange(off, off + s) =~= b2.subrange(off, off + s));
    }
}

proof fn lemma_aces_agree(b1: Seq<u8>, b2: Seq<u8>, off: int, count: int, end: int)
    requires
        end <= b1.len(),
        end <= b2.len(),
        forall|i: int| off <= i < end ==> b1[i] == b2[i],
        wf_aces_from(b1, off, count, end),
    ensures
        wf_aces_from(b2, off, count, end),
        parse_aces_from(b2, off, count) == parse_aces_from(b1, off, count),
    decreases count,
{
    if count > 0 {
        lemma_ace_agree(b1, b2, off, end);
        lemma_aces_agree(b1, b2, off + ace_size_at(b1, off), count - 1, end);
    } else {
        assert(parse_aces_from(b2, off, count) =~= parse_aces_from(b1, off, count));
    }
}

proof fn lemma_aces_snoc(b: Seq<u8>, off: int, count: int, mid: int, end: int)
    requires
        wf_aces_from(b, off, count, mid),
        wf_ace_at(b, mid, end),
        mid + ace_size_at(b, mid) == end,
    ensures
        wf_aces_from(b, off, count + 1, end),
        parse_aces_from(b, off, count + 1) == parse_aces_from(b, off, count).push(
            parse_ace_at(b, mid),
        ),
    decreases count,
{
    if count <= 0 {
        assert(wf_aces_from(b, mid + ace_size_at(b, mid), 0, end));
        assert(parse_aces_from(b, off + ace_size_at(b, off), 0) =~= Seq::<AceView>::empty());
        assert(parse_aces_from(b, off, 0) =~= Seq::<AceView>::empty());
        assert(parse_aces_from(b, off, 1) =~= parse_aces_from(b, off, 0).push(
            parse_ace_at(b, mid),
        ));
    } else {
        lemma_aces_snoc(b, off + ace_size_at(b, off), count - 1, mid, end);
        assert(parse_aces_from(b, off, count + 1) =~= parse_aces_from(b, off, count).push(
            parse_ace_at(b, mid),
        ));
    }
}

proof fn lemma_count_bound(b: Seq<u8>, off: int, count: int, end: int)
    requires
        wf_aces_from(b, off, count, end),
    ensures
        4 * count <= end - off,
    decreases count,
{
    if count > 0 {
        lemma_count_bound(b, off + ace_size_at(b, off), count - 1, end);
    }
}

/// The sum of the sizes of a sequence of entries.
pub open spec fn spec_sizes_total(entries: Seq<AceView>) -> int
    decreases entries.len(),
{
    if entries.len() == 0 {
        0
    } else {
        entries[0].size() + spec_sizes_total(entries.drop_first())
    }
}

proof fn lemma_sizes_sum(b: Seq<u8>, off: int, count: int, end: int)
    requires
        wf_aces_from(b, off, count, end),
    ensures
        spec_sizes_total(parse_aces_from(b, off, count)) == end - off,
    decreases count,
{
    if count <= 0 {
        assert(parse_aces_from(b, off, count).len() == 0);
    } else {
        let s = ace_size_at(b, off);
        lemma_sizes_sum(b, off + s, count - 1, end);
        let parsed = parse_aces_from(b, off, count);
        assert(parsed[0] == parse_ace_at(b, off));
        if is_known_tag(b[off]) {
            let so = sid_offset_at(b, off);
            let sl = sid_len_at(b, so);
            assert(b.subrange(off + 8, so).len() == so - (off + 8));
            assert(b.subrange(so, so + sl).len() == sl);
            assert(b.subrange(so + sl, off + s).len() == off + s - (so + sl));
        }
        assert(parsed[0].size() == s);
        assert(parsed.drop_first() =~= parse_aces_from(b, off + s, count - 1));
    }
}

/// Law: iterating a well-formed list yields exactly as many entries as the
/// list's header declares.
pub proof fn lemma_entry_count(b: Seq<u8>)
    requires
        wf_acl(b),
    ensures
        acl_entries(b).len() == acl_ace_count(b),
{
    lemma_parse_aces_len(b, 8, acl_ace_count(b), b.len() as int);
}

proof fn lemma_aces_wf(b: Seq<u8>, off: int, count: int, end: int)
    requires
        wf_aces_from(b, off, count, end),
    ensures
        forall|i: int|
            0 <= i < count ==> #[trigger] parse_aces_from(b, off, count)[i].wf(),
    decreases count,
{
    if count > 0 {
        let s = ace_size_at(b, off);
        let first = parse_ace_at(b, off);
        if is_known_tag(b[off]) {
            let so = sid_offset_at(b, off);
            let sl = sid_len_at(b, so);
            let sid = b.subrange(so, so + sl);
            assert(sid.len() == sl);
            assert(sid[1] == b[so + 1]);
            assert(wf_sid(sid));
            if is_object_tag(b[off]) {
                let od = b.subrange(off + 8, so);
                assert(od.subrange(0, 4) =~= b.subrange(off + 8, off + 12));
                assert(od.len() == 4 + object_guids_len(spec_u32_from_le_bytes(od.subrange(0, 4))));
            }
            assert(8 + b.subrange(off + 8, so).len() + sid.len() + b.subrange(
                so + sl,
                off + s,
            ).len() == s);
            assert(first.wf());
        } else {
            let raw = b.subrange(off, off + s);
            assert(raw.subrange(2, 4) =~= b.subrange(off + 2, off + 4));
            assert(first.wf());
        }
        lemma_aces_wf(b, off + s, count - 1, end);
        lemma_parse_aces_len(b, off + s, count - 1, end);
        assert forall|i: int| 0 <= i < count implies #[trigger] parse_aces_from(
            b,
            off,
            count,
        )[i].wf() by {
            if i > 0 {
                assert(parse_aces_from(b, off, count)[i] == parse_aces_from(
                    b,
                    off + s,
                    count - 1,
                )[i - 1]);
            }
        }
    }
}

/// Law: every entry of a well-formed list is itself well-formed — in
/// particular, an entry kept opaque for its unknown tag still has a record
/// whose header declares exactly the record's own length, and a known entry
/// embeds a well-formed SID.
pub proof fn lemma_entries_wf(b: Seq<u8>)
    requires
        wf_acl(b),
    ensures
        forall|i: int|
            0 <= i < acl_entries(b).len() ==> #[trigger] acl_entries(b)[i].wf(),
{
    lemma_entry_count(b);
    lemma_aces_wf(b, 8, acl_ace_count(b), b.len() as int);
}

/// Law: the sizes of the entries of a well-formed list sum exactly to the
/// list's declared total size minus its 8-byte header.
pub proof fn lemma_entry_sizes_total(b: Seq<u8>)
    requires
        wf_acl(b),
    ensures
        spec_sizes_total(acl_entries(b)) == acl_size(b) - 8,
{
    lemma_sizes_sum(b, 8, acl_ace_count(b), b.len() as int);
}

/// Reports that a list could not be created or rebuilt; carries the
/// platform's diagnostic code.
#[derive(Clone, Copy, PartialEq, Eq, Structural, Debug)]
pub struct CreateAclError {
    win_error_code: u32,
}

impl View for CreateAclError {
    type V = u32;

    closed spec fn view(&self) -> u32 {
        self.win_error_code
    }
}

impl CreateAclError {
    /// The platform diagnostic code.
    pub fn win_error_code(&self) -> (r: u32)
        ensures
            r == self@,
    {
        self.win_error_code
    }
}

/// Diagnostic code reported when a rebuild is asked for an access mode the
/// discretionary list cannot hold.
pub const ERROR_INVALID_PARAMETER: u32 = 87;

/// Diagnostic code reported when a rebuilt list would outgrow its 16-bit size
/// field.
pub const ERROR_ALLOTTED_SPACE_EXCEEDED: u32 = 1344;

/// Reports that a byte buffer handed in as a list is not a well-formed list.
#[derive(Clone, Copy, PartialEq, Eq, Structural, Debug)]
pub struct MalformedAclError {}

/// An owned access-control list: a well-formed packed record, rebuilt afresh
/// by every mutation.
///
/// Its view is the record's byte sequence; [`acl_entries`] gives the abstract
/// entries of that sequence.
pub struct AccessControlList {
    bytes: Vec<u8>,
}

impl View for AccessControlList {
    type V = Seq<u8>;

    closed spec fn view(&self) -> Seq<u8> {
        self.bytes@
    }
}

impl AccessControlList {
    #[verifier::type_invariant]
    spec fn type_inv(self) -> bool {
        wf_acl(self.bytes@)
    }

    /// Builds an empty list: a bare header declaring no entries.
    pub fn new() -> (r: Result<AccessControlList, CreateAclError>)
        ensures
            r matches Ok(acl) && acl@ == spec_empty_acl(),
            r matches Ok(acl) ==> wf_acl(acl@) && acl_entries(acl@) == Seq::<AceView>::empty(),
    {
        let mut bytes: Vec<u8> = Vec::new();
        bytes.push(ACL_REVISION);
        bytes.push(0);
        let size_bytes = u16_to_le_bytes(8u16);
        bytes.push(size_bytes[0]);
        bytes.push(size_bytes[1]);
        let count_bytes = u16_to_le_bytes(0u16);
        bytes.push(count_bytes[0]);
        bytes.push(count_bytes[1]);
        bytes.push(0);
        bytes.push(0);
        proof {
            lemma_auto_spec_u16_to_from_le_bytes();
            assert(size_bytes@ =~= seq![size_bytes@[0], size_bytes@[1]]);
            assert(count_bytes@ =~= seq![count_bytes@[0], count_bytes@[1]]);
            assert(bytes@ =~= spec_empty_acl());
            let b = bytes@;
            assert(b.subrange(2, 4) =~= spec_u16_to_le_bytes(8u16));
            assert(b.subrange(4, 6) =~= spec_u16_to_le_bytes(0u16));
            assert(acl_size(b) == 8);
            assert(acl_ace_count(b) == 0);
            assert(acl_entries(b) =~= Seq::<AceView>::empty());
        }
        Ok(AccessControlList { bytes })
    }

    /// Takes a packed list record as a fresh owned list, after validating
    /// every entry's bounds.
    ///
    /// Fails exactly when the buffer is not a well-formed list.
    pub fn from_bytes(bytes: Vec<u8>) -> (r: Result<AccessControlList, MalformedAclError>)
        ensures
            r is Ok <==> wf_acl(bytes@),
            r matches Ok(acl) ==> acl@ == bytes@,
    {
        let ghost b: Seq<u8> = bytes@;
        let ghost end: int = b.len() as int;
        if bytes.len() < ACL_HEADER_SIZE || bytes.len() > MAX_ACL_SIZE {
            return Err(MalformedAclError {});
        }
        let declared_size: u16 = u16_from_le_bytes(slice_subrange(bytes.as_slice(), 2, 4));
        if declared_size as usize != bytes.len() {
            return Err(MalformedAclError {});
        }
        let count: usize = u16_from_le_bytes(slice_subrange(bytes.as_slice(), 4, 6)) as usize;
        proof {
            assert(acl_size(b) == b.len());
            assert(acl_ace_count(b) == count);
        }
        let mut off: usize = 8;
        let mut k: usize = 0;
        while k < count
            invariant
                bytes@ == b,
                8 <= b.len() <= 0xFFFF,
                acl_size(b) == b.len(),
                acl_ace_count(b) == count,
                8 <= off <= b.len(),
                k <= count,
                wf_aces_from(b, 8, count as int, end) <==> wf_aces_from(
                    b,
                    off as int,
                    count - k,
                    end,
                ),
                end == b.len() as int,
            decreases count - k,
        {
            if off + 4 > bytes.len() {
                proof {
                    assert(!wf_ace_at(b, off as int, end));
                }
                return Err(MalformedAclError {});
            }
            let size: usize = u16_from_le_bytes(
                slice_subrange(bytes.as_slice(), off + 2, off + 4),
            ) as usize;
            proof {
                assert(size == ace_size_at(b, off as int));
            }
            if size < 4 || size > bytes.len() - off {
                proof {
                    assert(!wf_ace_at(b, off as int, end));
                }
                return Err(MalformedAclError {});
            }
            let tag: u8 = bytes[off];
            if known_tag(tag) {
                let sid_off: usize;
                if object_tag(tag) {
                    if size < 12 {
                        proof {
                            assert(!wf_known_ace_at(b, off as int));
                            assert(!wf_ace_at(b, off as int, end));
                        }
                        return Err(MalformedAclError {});
                    }
                    let presence: u32 = u32_from_le_bytes(
                        slice_subrange(bytes.as_slice(), off + 8, off + 12),
                    );
                    let mut guids: usize = 0;
                    if presence & ACE_OBJECT_TYPE_PRESENT != 0 {
                        guids = guids + 16;
                    }
                    if presence & ACE_INHERITED_OBJECT_TYPE_PRESENT != 0 {
                        guids = guids + 16;
                    }
                    proof {
                        assert(guids == object_guids_len(presence));
                    }
                    sid_off = off + 12 + guids;
                } else {
                    sid_off = off + 8;
                }
                proof {
                    assert(sid_off == sid_offset_at(b, off as int));
                }
                if sid_off + 8 > off + size {
                    proof {
                        assert(!wf_known_ace_at(b, off as int));
                        assert(!wf_ace_at(b, off as int, end));
                    }
                    return Err(MalformedAclError {});
                }
                let sub_count: u8 = bytes[sid_off + 1];
                if sub_count > 15 {
                    proof {
                        assert(!wf_known_ace_at(b, off as int));
                        assert(!wf_ace_at(b, off as int, end));
                    }
                    return Err(MalformedAclError {});
                }
                let sid_len: usize = 8 + 4 * (sub_count as usize);
                proof {
                    assert(sid_len == sid_len_at(b, sid_off as int));
                }
                if sid_off + sid_len > off + size {
                    proof {
                        assert(!wf_known_ace_at(b, off as int));
                        assert(!wf_ace_at(b, off as int, end));
                    }
                    return Err(MalformedAclError {});
                }
                proof {
                    assert(wf_known_ace_at(b, off as int));
                }
            }
            proof {
                assert(wf_ace_at(b, off as int, end));
                assert(wf_aces_from(b, off as int, count - k, end) <==> wf_aces_from(
                    b,
                    off + size,
                    count - k - 1,
                    end,
                ));
            }
            off = off + size;
            k = k + 1;
        }
        if off != bytes.len() {
            proof {
                assert(!wf_aces_from(b, off as int, 0, end));
            }
            return Err(MalformedAclError {});
        }
        proof {
            assert(wf_aces_from(b, off as int, 0, end));
            assert(wf_acl(b));
        }
        Ok(AccessControlList { bytes })
    }

    /// The entry count the list's header declares, which for a well-formed
    /// list is exactly how many entries iteration yields.
    pub fn num_entries(&self) -> (r: usize)
        ensures
            r == acl_entries(self@).len(),
            wf_acl(self@),
    {
        proof {
            use_type_invariant(self);
            lemma_entry_count(self@);
        }
        let count: u16 = u16_from_le_bytes(slice_subrange(self.bytes.as_slice(), 4, 6));
        count as usize
    }

    /// The packed record of the whole list.
    pub fn as_bytes(&self) -> (r: &[u8])
        ensures
            r@ == self@,
            wf_acl(self@),
    {
        proof {
            use_type_invariant(self);
        }
        self.bytes.as_slice()
    }

    /// Builds an independent owned copy of a list: the copy's entries are
    /// exactly the template's, and the copy outlives the template.
    pub fn clone_from(template_acl: &AccessControlList) -> (r: Result<
        AccessControlList,
        CreateAclError,
    >)
        ensures
            r matches Ok(acl) && acl@ == template_acl@,
    {
        proof {
            use_type_invariant(template_acl);
        }
        let bytes = slice_to_vec(template_acl.bytes.as_slice());
        Ok(AccessControlList { bytes })
    }

    /// Builds an independent owned copy of this list.
    pub fn try_to_owned(&self) -> (r: Result<AccessControlList, CreateAclError>)
        ensures
            r matches Ok(acl) && acl@ == self@,
    {
        AccessControlList::clone_from(self)
    }

    /// Starts a walk over the list's entries, in on-disk order.
    pub fn entries(&self) -> (r: AccessControlEntries<'_>)
        ensures
            r@ == acl_entries(self@),
            wf_acl(self@),
    {
        proof {
            use_type_invariant(self);
        }
        let count: u16 = u16_from_le_bytes(slice_subrange(self.bytes.as_slice(), 4, 6));
        proof {
            assert(acl_entries(self@).skip(0) =~= acl_entries(self@));
        }
        AccessControlEntries { acl: self, offset: 8, remaining: count as usize, index: Ghost(0) }
    }
}

fn read_entry(b: &Vec<u8>, off: usize) -> (r: (AccessControlEntry, usize))
    requires
        wf_ace_at(b@, off as int, b@.len() as int),
    ensures
        r.0@ == parse_ace_at(b@, off as int),
        r.1 == ace_size_at(b@, off as int),
{
    let blen: usize = b.len();
    proof {
        assert(off + 4 <= blen);
    }
    let size: usize = u16_from_le_bytes(slice_subrange(b.as_slice(), off + 2, off + 4)) as usize;
    let tag: u8 = b[off];
    if known_tag(tag) {
        let flags: u8 = b[off + 1];
        let mask: u32 = u32_from_le_bytes(slice_subrange(b.as_slice(), off + 4, off + 8));
        let sid_off: usize;
        if object_tag(tag) {
            let presence: u32 = u32_from_le_bytes(slice_subrange(b.as_slice(), off + 8, off + 12));
            let mut guids: usize = 0;
            if presence & ACE_OBJECT_TYPE_PRESENT != 0 {
                guids = guids + 16;
            }
            if presence & ACE_INHERITED_OBJECT_TYPE_PRESENT != 0 {
                guids = guids + 16;
            }
            proof {
                assert(guids == object_guids_len(presence));
            }
            sid_off = off + 12 + guids;
        } else {
            sid_off = off + 8;
        }
        proof {
            assert(sid_off == sid_offset_at(b@, off as int));
        }
        let sub_count: u8 = b[sid_off + 1];
        let sid_len: usize = 8 + 4 * (sub_count as usize);
        proof {
            assert(sid_len == sid_len_at(b@, sid_off as int));
        }
        let object_data = slice_to_vec(slice_subrange(b.as_slice(), off + 8, sid_off));
        let sid_bytes = slice_to_vec(slice_subrange(b.as_slice(), sid_off, sid_off + sid_len));
        let tail = slice_to_vec(slice_subrange(b.as_slice(), sid_off + sid_len, off + size));
        proof {
            assert(sid_bytes@[1] == b@[sid_off + 1]);
            assert(wf_sid(sid_bytes@));
            if is_object_tag(tag) {
                assert(object_data@.subrange(0, 4) =~= b@.subrange(off + 8, off + 12));
            }
            assert(8 + object_data@.len() + sid_bytes@.len() + tail@.len() == size);
        }
        let trustee = SecurityId::from_wf_bytes(sid_bytes);
        (AccessControlEntry::new_known(tag, flags, mask, object_data, trustee, tail), size)
    } else {
        let raw = slice_to_vec(slice_subrange(b.as_slice(), off, off + size));
        proof {
            assert(raw@.subrange(2, 4) =~= b@.subrange(off + 2, off + 4));
        }
        (AccessControlEntry::new_unknown(raw), size)
    }
}

/// A forward-only walk over the entries of a list: it keeps the offset of the
/// next record and how many records remain, and advances by each record's
/// self-declared length. Every advance stays within the list's bytes by
/// construction.
///
/// Its view is the sequence of entries not yet yielded.
pub struct AccessControlEntries<'a> {
    acl: &'a AccessControlList,
    offset: usize,
    remaining: usize,
    index: Ghost<int>,
}

impl<'a> View for AccessControlEntries<'a> {
    type V = Seq<AceView>;

    closed spec fn view(&self) -> Seq<AceView> {
        acl_entries(self.acl@).skip(self.index@)
    }
}

impl<'a> AccessControlEntries<'a> {
    #[verifier::type_invariant]
    spec fn type_inv(self) -> bool {
        let b = self.acl@;
        &&& wf_acl(b)
        &&& 0 <= self.index@
        &&& self.index@ + self.remaining == acl_ace_count(b)
        &&& 8 <= self.offset <= b.len()
        &&& wf_aces_from(b, self.offset as int, self.remaining as int, b.len() as int)
        &&& parse_aces_from(b, self.offset as int, self.remaining as int) == acl_entries(b).skip(
            self.index@,
        )
    }

    /// Yields the next entry, or nothing once every entry has been yielded.
    pub fn next(&mut self) -> (r: Option<AccessControlEntry>)
        ensures
            old(self)@.len() == 0 ==> r is None && final(self)@ == old(self)@,
            old(self)@.len() > 0 ==> (r matches Some(e) && e@ == old(self)@[0] && final(self)@
                == old(self)@.drop_first()),
    {
        proof {
            use_type_invariant(&*self);
            lemma_parse_aces_len(
                self.acl@,
                self.offset as int,
                self.remaining as int,
                self.acl@.len() as int,
            );
        }
        if self.remaining == 0 {
            return None;
        }
        let ghost b = self.acl@;
        let ghost idx = self.index@;
        let (entry, size) = read_entry(&self.acl.bytes, self.offset);
        let new_offset = self.offset + size;
        let new_remaining = self.remaining - 1;
        proof {
            lemma_entry_count(b);
            let entries = acl_entries(b);
            let rest = parse_aces_from(b, new_offset as int, new_remaining as int);
            assert(parse_aces_from(b, self.offset as int, self.remaining as int) == seq![
                parse_ace_at(b, self.offset as int),
            ] + rest);
            lemma_parse_aces_len(b, new_offset as int, new_remaining as int, b.len() as int);
            assert forall|j: int| 0 <= j < rest.len() implies rest[j] == entries.skip(idx + 1)[j] by {
                assert(rest[j] == entries.skip(idx)[j + 1]);
                assert(entries.skip(idx)[j + 1] == entries[idx + j + 1]);
                assert(entries.skip(idx + 1)[j] == entries[idx + j + 1]);
            }
            assert(rest =~= entries.skip(idx + 1));
        }
        *self = AccessControlEntries {
            acl: self.acl,
            offset: new_offset,
            remaining: new_remaining,
            index: Ghost(idx + 1),
        };
        proof {
            assert(old(self)@.drop_first() =~= acl_entries(b).skip(idx + 1));
        }
        Some(entry)
    }
}

/// Whether a rebuild can merge the given request into the given list bytes:
/// the mode maps to a discretionary entry, and the rebuilt list still fits
/// its 16-bit size field.
pub open spec fn spec_can_insert(b: Seq<u8>, v: ExplicitAccessView) -> bool {
    &&& is_insertable_mode(v.mode)
    &&& b.len() + 8 + v.trustee.len() <= 0xFFFF
}

impl AccessControlList {
    /// Rebuilds the list with one explicit-access request merged in: the new
    /// list holds every old entry, unchanged and in order, followed by one
    /// entry carrying the request's mask, inheritance flags and trustee, and
    /// granting or denying as the mode asked. On failure the list is
    /// unchanged.
    ///
    /// Fails exactly when the mode is not one a discretionary list can hold,
    /// or the rebuilt list would outgrow its 16-bit size field. Rejecting the
    /// revoke, not-used and audit modes is deliberate: none of them can be
    /// satisfied by a rebuild that keeps every prior entry and adds one.
    pub fn insert(&mut self, explicit_entry: ExplicitAccess) -> (r: Result<(), CreateAclError>)
        ensures
            r is Ok <==> spec_can_insert(old(self)@, explicit_entry@),
            r is Ok ==> acl_entries(final(self)@) == acl_entries(old(self)@).push(
                spec_requested_entry(explicit_entry@),
            ) && wf_acl(final(self)@) && final(self)@.len() == old(self)@.len() + 8
                + explicit_entry@.trustee.len(),
            r is Err ==> final(self)@ == old(self)@,
            r matches Err(e) ==> e@ == (if is_insertable_mode(explicit_entry@.mode) {
                ERROR_ALLOTTED_SPACE_EXCEEDED
            } else {
                ERROR_INVALID_PARAMETER
            }),
    {
        proof {
            use_type_invariant(&*self);
        }
        let tag: u8 = match explicit_entry.mode() {
            AccessMode::GrantAccess => ACCESS_ALLOWED_ACE_TYPE,
            AccessMode::SetAccess => ACCESS_ALLOWED_ACE_TYPE,
            AccessMode::DenyAccess => ACCESS_DENIED_ACE_TYPE,
            _ => {
                return Err(CreateAclError { win_error_code: ERROR_INVALID_PARAMETER });
            },
        };
        let trustee_len: usize = explicit_entry.trustee().as_bytes().len();
        let entry_size: usize = 8 + trustee_len;
        if self.bytes.len() > MAX_ACL_SIZE - entry_size {
            return Err(CreateAclError { win_error_code: ERROR_ALLOTTED_SPACE_EXCEEDED });
        }
        let new_size: usize = self.bytes.len() + entry_size;
        let count: u16 = u16_from_le_bytes(slice_subrange(self.bytes.as_slice(), 4, 6));
        proof {
            lemma_count_bound(self.bytes@, 8, acl_ace_count(self.bytes@), self.bytes@.len() as int);
        }
        let new_count: u16 = count + 1;
        let flags: u8 = explicit_entry.inheritance().bits() as u8;
        let mask_bits: u32 = explicit_entry.permissions().bits();
        let ghost b: Seq<u8> = self.bytes@;
        let mut nb: Vec<u8> = Vec::new();
        nb.push(self.bytes[0]);
        nb.push(self.bytes[1]);
        let size_bytes = u16_to_le_bytes(new_size as u16);
        nb.push(size_bytes[0]);
        nb.push(size_bytes[1]);
        let count_bytes = u16_to_le_bytes(new_count);
        nb.push(count_bytes[0]);
        nb.push(count_bytes[1]);
        nb.push(self.bytes[6]);
        nb.push(self.bytes[7]);
        let ghost new_header: Seq<u8> = seq![b[0], b[1]] + spec_u16_to_le_bytes(new_size as u16)
            + spec_u16_to_le_bytes(new_count) + seq![b[6], b[7]];
        proof {
            lemma_auto_spec_u16_to_from_le_bytes();
            assert(size_bytes@ =~= seq![size_bytes@[0], size_bytes@[1]]);
            assert(count_bytes@ =~= seq![count_bytes@[0], count_bytes@[1]]);
            assert(nb@ =~= new_header + b.subrange(8, 8));
        }
        let mut i: usize = 8;
        while i < self.bytes.len()
            invariant
                8 <= i <= b.len(),
                self.bytes@ == b,
                b.len() >= 8,
                new_header.len() == 8,
                nb@ == new_header + b.subrange(8, i as int),
            decreases b.len() - i,
        {
            nb.push(self.bytes[i]);
            i += 1;
            proof {
                assert(nb@ =~= new_header + b.subrange(8, i as int));
            }
        }
        encode_known_ace(tag, flags, mask_bits, explicit_entry.trustee(), &mut nb);
        proof {
            let nbs = nb@;
            let len: int = b.len() as int;
            let count_i: int = acl_ace_count(b);
            let v = explicit_entry@;
            let enc = spec_known_ace_bytes(tag, flags, mask_bits, v.trustee);
            lemma_auto_spec_u16_to_from_le_bytes();
            lemma_auto_spec_u32_to_from_le_bytes();
            assert(nbs == new_header + b.subrange(8, len) + enc);
            assert(enc.len() == 8 + v.trustee.len());
            assert(nbs.len() == new_size);
            assert forall|j: int| 8 <= j < len implies nbs[j] == b[j] by {
                assert((new_header + b.subrange(8, len))[j] == b.subrange(8, len)[j - 8]);
            }
            lemma_aces_agree(b, nbs, 8, count_i, len);
            assert(nbs.subrange(len + 2, len + 4) =~= spec_u16_to_le_bytes(
                (8 + v.trustee.len()) as u16,
            ));
            assert(ace_size_at(nbs, len) == entry_size);
            assert(nbs[len] == tag);
            assert(is_known_tag(tag) && !is_object_tag(tag));
            assert(nbs[len + 1] == flags);
            assert(nbs.subrange(len + 8, len + entry_size) =~= v.trustee);
            assert(sid_offset_at(nbs, len) == len + 8);
            assert(nbs[len + 9] == v.trustee[1]);
            assert(sid_len_at(nbs, len + 8) == v.trustee.len());
            assert(wf_known_ace_at(nbs, len));
            assert(wf_ace_at(nbs, len, nbs.len() as int));
            assert(nbs.subrange(len + 8, len + 8) =~= Seq::<u8>::empty());
            assert(nbs.subrange(len + entry_size, len + entry_size) =~= Seq::<u8>::empty());
            lemma_aces_snoc(nbs, 8, count_i, len, nbs.len() as int);
            assert(nbs.subrange(2, 4) =~= spec_u16_to_le_bytes(new_size as u16));
            assert(acl_size(nbs) == new_size);
            assert(nbs.subrange(4, 6) =~= spec_u16_to_le_bytes(new_count));
            assert(acl_ace_count(nbs) == count_i + 1);
            assert(wf_acl(nbs));
            assert(nbs.subrange(len + 4, len + 8) =~= spec_u32_to_le_bytes(mask_bits));
            assert(parse_ace_at(nbs, len) == spec_requested_entry(v));
            assert(acl_entries(nbs) == acl_entries(b).push(spec_requested_entry(v)));
        }
        self.bytes = nb;
        Ok(())
    }
}

} // verus!
