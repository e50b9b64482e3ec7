//! Security identifiers.
//!
//! A security identifier (SID) names a trustee — a user, group or well-known
//! identity. On the wire it is a packed record: a revision byte, a
//! sub-authority count, a 6-byte big-endian identifier authority, and the
//! sub-authorities as 32-bit little-endian words. An owned [`SecurityId`]
//! holds such a record and is well-formed by construction.

use crate::decimal::dec_digits;
use crate::decimal::hex_byte;
use crate::decimal::push_decimal;
use crate::decimal::push_hex_byte;
use vstd::bytes::*;
use vstd::prelude::*;
use vstd::slice::*;
use vstd::string::StringExecFns;

verus! {

/// The one revision of the SID record format.
pub const SID_REVISION: u8 = 1;

/// A SID holds at most this many sub-authorities.
pub const SID_MAX_SUB_AUTHORITIES: usize = 15;

/// An identifier authority occupies 6 bytes, so its value is below 2^48.
pub const MAX_IDENTIFIER_AUTHORITY: u64 = 0x1_0000_0000_0000;

/// The identifier authority of the account subsystem.
pub const SECURITY_NT_AUTHORITY: u64 = 5;

/// First sub-authority of identities built into the host.
pub const SECURITY_BUILTIN_DOMAIN_RID: u32 = 32;

/// Second sub-authority of the built-in administrators group.
pub const DOMAIN_ALIAS_RID_ADMINS: u32 = 544;

/// Sole sub-authority of the local system identity.
pub const SECURITY_LOCAL_SYSTEM_RID: u32 = 18;

/// Diagnostic code reported when a value handed to a constructor is out of
/// range.
pub const ERROR_INVALID_PARAMETER: u32 = 87;

/// The 6 bytes of an identifier authority, big-endian.
pub open spec fn spec_authority_bytes(a: u64) -> Seq<u8> {
    seq![
        ((a >> 40) & 0xff) as u8,
        ((a >> 32) & 0xff) as u8,
        ((a >> 24) & 0xff) as u8,
        ((a >> 16) & 0xff) as u8,
        ((a >> 8) & 0xff) as u8,
        (a & 0xff) as u8,
    ]
}

/// The sub-authorities of a SID, each as 4 little-endian bytes.
pub open spec fn spec_sub_authority_bytes(subs: Seq<u32>) -> Seq<u8>
    decreases subs.len(),
{
    if subs.len() == 0 {
        Seq::empty()
    } else {
        spec_sub_authority_bytes(subs.drop_last()) + spec_u32_to_le_bytes(subs.last())
    }
}

/// The packed record of a SID.
pub open spec fn spec_sid_bytes(revision: u8, authority: u64, subs: Seq<u32>) -> Seq<u8> {
    seq![revision, subs.len() as u8] + spec_authority_bytes(authority) + spec_sub_authority_bytes(
        subs,
    )
}

/// Structural well-formedness of a SID record: the length is exactly what the
/// sub-authority count byte declares.
pub open spec fn wf_sid(b: Seq<u8>) -> bool {
    &&& b.len() >= 8
    &&& b[1] <= 15
    &&& b.len() == 8 + 4 * (b[1] as int)
}

/// The identifier-authority value read back from a SID record.
pub open spec fn spec_authority_value(b: Seq<u8>) -> u64
    recommends
        b.len() >= 8,
{
    ((b[2] as u64) << 40) | ((b[3] as u64) << 32) | ((b[4] as u64) << 24) | ((b[5] as u64) << 16)
        | ((b[6] as u64) << 8) | (b[7] as u64)
}

/// The `i`-th sub-authority read back from a SID record.
pub open spec fn spec_sub_authority(b: Seq<u8>, i: int) -> u32
    recommends
        0 <= i,
        12 + 4 * i <= b.len(),
{
    spec_u32_from_le_bytes(b.subrange(8 + 4 * i, 12 + 4 * i))
}

/// The SID of the built-in administrators group, S-1-5-32-544.
pub open spec fn spec_builtin_administrators_sid() -> Seq<u8> {
    spec_sid_bytes(
        SID_REVISION,
        SECURITY_NT_AUTHORITY,
        seq![SECURITY_BUILTIN_DOMAIN_RID, DOMAIN_ALIAS_RID_ADMINS],
    )
}

/// The SID of the local system identity, S-1-5-18.
pub open spec fn spec_local_system_sid() -> Seq<u8> {
    spec_sid_bytes(SID_REVISION, SECURITY_NT_AUTHORITY, seq![SECURITY_LOCAL_SYSTEM_RID])
}

/// The well-known identities this crate can classify.
#[derive(Clone, Copy, PartialEq, Eq, Structural, Debug)]
pub enum WellKnownSidType {
    BuiltinAdministrators,
    LocalSystem,
}

/// The fixed SID record of a well-known identity.
pub open spec fn spec_well_known_sid(t: WellKnownSidType) -> Seq<u8> {
    match t {
        WellKnownSidType::BuiltinAdministrators => spec_builtin_administrators_sid(),
        WellKnownSidType::LocalSystem => spec_local_system_sid(),
    }
}

pub proof fn lemma_sub_authority_bytes_len(subs: Seq<u32>)
    ensures
        spec_sub_authority_bytes(subs).len() == 4 * subs.len(),
    decreases subs.len(),
{
    if subs.len() > 0 {
        lemma_sub_authority_bytes_len(subs.drop_last());
        lemma_auto_spec_u32_to_from_le_bytes();
    }
}

/// Reports that a security identifier could not be created; carries the
/// platform's diagnostic code.
#[derive(Clone, Copy, PartialEq, Eq, Structural, Debug)]
pub struct CreateSecurityIdError {
    win_error_code: u32,
}

impl View for CreateSecurityIdError {
    type V = u32;

    closed spec fn view(&self) -> u32 {
        self.win_error_code
    }
}

impl CreateSecurityIdError {
    /// The platform diagnostic code.
    pub fn win_error_code(&self) -> (r: u32)
        ensures
            r == self@,
    {
        self.win_error_code
    }
}

/// An owned security identifier: a well-formed packed SID record.
///
/// Its view is the record's byte sequence.
#[derive(Debug)]
pub struct SecurityId {
    bytes: Vec<u8>,
}

impl View for SecurityId {
    type V = Seq<u8>;

    closed spec fn view(&self) -> Seq<u8> {
        self.bytes@
    }
}

impl SecurityId {
    #[verifier::type_invariant]
    spec fn type_inv(self) -> bool {
        wf_sid(self.bytes@)
    }

    fn make(authority: u64, sub_authorities: &Vec<u32>) -> (r: Self)
        requires
            authority < MAX_IDENTIFIER_AUTHORITY,
            sub_authorities@.len() <= 15,
        ensures
            r@ == spec_sid_bytes(SID_REVISION, authority, sub_authorities@),
    {
        let ghost subs: Seq<u32> = sub_authorities@;
        let mut bytes: Vec<u8> = Vec::new();
        bytes.push(SID_REVISION);
        bytes.push(sub_authorities.len() as u8);
        bytes.push(((authority >> 40) & 0xff) as u8);
        bytes.push(((authority >> 32) & 0xff) as u8);
        bytes.push(((authority >> 24) & 0xff) as u8);
        bytes.push(((authority >> 16) & 0xff) as u8);
        bytes.push(((authority >> 8) & 0xff) as u8);
        bytes.push((authority & 0xff) as u8);
        let ghost header: Seq<u8> = seq![SID_REVISION, subs.len() as u8] + spec_authority_bytes(
            authority,
        );
        proof {
            assert(bytes@ =~= header + spec_sub_authority_bytes(subs.take(0)));
        }
        let mut i: usize = 0;
        while i < sub_authorities.len()
            invariant
                i <= subs.len(),
                sub_authorities@ == subs,
                bytes@ == header + spec_sub_authority_bytes(subs.take(i as int)),
            decreases subs.len() - i,
        {
            let word = u32_to_le_bytes(sub_authorities[i]);
            bytes.push(word[0]);
            bytes.push(word[1]);
            bytes.push(word[2]);
            bytes.push(word[3]);
            proof {
                assert(subs.take(i + 1).drop_last() =~= subs.take(i as int));
                assert(word@ =~= seq![word@[0], word@[1], word@[2], word@[3]]);
                assert(bytes@ =~= header + spec_sub_authority_bytes(subs.take(i + 1)));
            }
            i += 1;
        }
        proof {
            assert(subs.take(subs.len() as int) =~= subs);
            lemma_sub_authority_bytes_len(subs);
            assert(bytes@ == spec_sid_bytes(SID_REVISION, authority, subs));
        }
        SecurityId { bytes }
    }

    /// Builds a SID from an identifier authority and its sub-authorities.
    ///
    /// Fails exactly when the authority does not fit in 6 bytes or more than
    /// 15 sub-authorities are given.
    pub fn new(authority: u64, sub_authorities: &Vec<u32>) -> (r: Result<
        Self,
        CreateSecurityIdError,
    >)
        ensures
            r is Ok <==> (authority < MAX_IDENTIFIER_AUTHORITY && sub_authorities@.len() <= 15),
            r matches Ok(sid) ==> sid@ == spec_sid_bytes(SID_REVISION, authority, sub_authorities@),
    {
        if authority >= MAX_IDENTIFIER_AUTHORITY || sub_authorities.len() > SID_MAX_SUB_AUTHORITIES {
            return Err(CreateSecurityIdError { win_error_code: ERROR_INVALID_PARAMETER });
        }
        Ok(Self::make(authority, sub_authorities))
    }

    /// Takes a packed SID record as a fresh owned SID, after validating it.
    ///
    /// Fails exactly when the record is not well-formed.
    pub fn try_from_bytes(bytes: Vec<u8>) -> (r: Result<Self, CreateSecurityIdError>)
        ensures
            r is Ok <==> wf_sid(bytes@),
            r matches Ok(sid) ==> sid@ == bytes@,
    {
        if bytes.len() < 8 {
            return Err(CreateSecurityIdError { win_error_code: ERROR_INVALID_PARAMETER });
        }
        let count: u8 = bytes[1];
        if count > 15 {
            return Err(CreateSecurityIdError { win_error_code: ERROR_INVALID_PARAMETER });
        }
        if bytes.len() != 8 + 4 * (count as usize) {
            return Err(CreateSecurityIdError { win_error_code: ERROR_INVALID_PARAMETER });
        }
        Ok(SecurityId { bytes })
    }

    pub(crate) fn from_wf_bytes(bytes: Vec<u8>) -> (r: Self)
        requires
            wf_sid(bytes@),
        ensures
            r@ == bytes@,
    {
        SecurityId { bytes }
    }

    /// The SID of the built-in administrators group.
    pub fn builtin_administrators() -> (r: Result<Self, CreateSecurityIdError>)
        ensures
            r matches Ok(sid) && sid@ == spec_builtin_administrators_sid(),
    {
        let mut subs: Vec<u32> = Vec::new();
        subs.push(SECURITY_BUILTIN_DOMAIN_RID);
        subs.push(DOMAIN_ALIAS_RID_ADMINS);
        proof {
            assert(subs@ =~= seq![SECURITY_BUILTIN_DOMAIN_RID, DOMAIN_ALIAS_RID_ADMINS]);
        }
        Ok(Self::make(SECURITY_NT_AUTHORITY, &subs))
    }

    /// The packed record.
    pub fn as_bytes(&self) -> (r: &[u8])
        ensures
            r@ == self@,
            wf_sid(self@),
    {
        proof {
            use_type_invariant(self);
        }
        self.bytes.as_slice()
    }

    /// Whether this SID is the fixed record of the given well-known identity.
    pub fn is_well_known(&self, well_known_sid_type: WellKnownSidType) -> (r: bool)
        ensures
            r == (self@ == spec_well_known_sid(well_known_sid_type)),
    {
        let expected: SecurityId = match well_known_sid_type {
            WellKnownSidType::BuiltinAdministrators => {
                let mut subs: Vec<u32> = Vec::new();
                subs.push(SECURITY_BUILTIN_DOMAIN_RID);
                subs.push(DOMAIN_ALIAS_RID_ADMINS);
                proof {
                    assert(subs@ =~= seq![SECURITY_BUILTIN_DOMAIN_RID, DOMAIN_ALIAS_RID_ADMINS]);
                }
                Self::make(SECURITY_NT_AUTHORITY, &subs)
            },
            WellKnownSidType::LocalSystem => {
                let mut subs: Vec<u32> = Vec::new();
                subs.push(SECURITY_LOCAL_SYSTEM_RID);
                proof {
                    assert(subs@ =~= seq![SECURITY_LOCAL_SYSTEM_RID]);
                }
                Self::make(SECURITY_NT_AUTHORITY, &subs)
            },
        };
        bytes_eq(self.bytes.as_slice(), expected.bytes.as_slice())
    }

    /// Whether this SID is the built-in administrators group.
    pub fn is_builtin_administrators(&self) -> (r: bool)
        ensures
            r == (self@ == spec_builtin_administrators_sid()),
    {
        self.is_well_known(WellKnownSidType::BuiltinAdministrators)
    }

    /// Whether this SID is the local system identity.
    pub fn is_local_system(&self) -> (r: bool)
        ensures
            r == (self@ == spec_local_system_sid()),
    {
        self.is_well_known(WellKnownSidType::LocalSystem)
    }
}

fn bytes_eq(a: &[u8], b: &[u8]) -> (r: bool)
    ensures
        r == (a@ == b@),
{
    if a.len() != b.len() {
        return false;
    }
    let mut i: usize = 0;
    while i < a.len()
        invariant
            i <= a@.len(),
            a@.len() == b@.len(),
            forall|j: int| 0 <= j < i ==> a@[j] == b@[j],
        decreases a@.len() - i,
    {
        if *slice_index_get(a, i) != *slice_index_get(b, i) {
            return false;
        }
        i += 1;
    }
    proof {
        assert(a@ =~= b@);
    }
    true
}

/// The digits after the authority: one `-` and one decimal number for each of
/// the first `n` sub-authorities.
pub open spec fn spec_sub_authorities_string(b: Seq<u8>, n: int) -> Seq<char>
    decreases n,
{
    if n <= 0 {
        Seq::empty()
    } else {
        spec_sub_authorities_string(b, n - 1) + seq!['-'] + dec_digits(
            spec_sub_authority(b, n - 1) as int,
        )
    }
}

/// The canonical rendering of the identifier authority: decimal for values
/// below 2^32, otherwise the six authority bytes in hexadecimal behind `0x`.
pub open spec fn spec_authority_string(b: Seq<u8>) -> Seq<char>
    recommends
        b.len() >= 8,
{
    if spec_authority_value(b) < 0x1_0000_0000 {
        dec_digits(spec_authority_value(b) as int)
    } else {
        seq!['0', 'x'] + hex_byte(b[2]) + hex_byte(b[3]) + hex_byte(b[4]) + hex_byte(b[5])
            + hex_byte(b[6]) + hex_byte(b[7])
    }
}

/// The canonical string form of a SID record:
/// `S-<revision>-<authority>-<sub>-...-<sub>`.
pub open spec fn spec_sid_string(b: Seq<u8>) -> Seq<char>
    recommends
        wf_sid(b),
{
    seq!['S', '-'] + dec_digits(b[0] as int) + seq!['-'] + spec_authority_string(b)
        + spec_sub_authorities_string(b, b[1] as int)
}

impl SecurityId {
    /// Renders the canonical string form of this SID.
    pub fn string_sid(&self) -> (r: String)
        ensures
            r@ == spec_sid_string(self@),
    {
        proof {
            use_type_invariant(self);
        }
        let mut out = String::new();
        proof {
            reveal_strlit("S-");
            reveal_strlit("-");
        }
        out.append("S-");
        push_decimal(&mut out, self.bytes[0] as u64);
        out.append("-");
        let auth: u64 = ((self.bytes[2] as u64) << 40) | ((self.bytes[3] as u64) << 32) | ((
        self.bytes[4] as u64) << 24) | ((self.bytes[5] as u64) << 16) | ((self.bytes[6] as u64)
            << 8) | (self.bytes[7] as u64);
        proof {
            assert(auth == spec_authority_value(self@));
        }
        if auth < 0x1_0000_0000 {
            push_decimal(&mut out, auth);
        } else {
            proof {
                reveal_strlit("0x");
                assert("0x"@ =~= seq!['0', 'x']);
            }
            out.append("0x");
            push_hex_byte(&mut out, self.bytes[2]);
            push_hex_byte(&mut out, self.bytes[3]);
            push_hex_byte(&mut out, self.bytes[4]);
            push_hex_byte(&mut out, self.bytes[5]);
            push_hex_byte(&mut out, self.bytes[6]);
            push_hex_byte(&mut out, self.bytes[7]);
        }
        let ghost prefix: Seq<char> = seq!['S', '-'] + dec_digits(self@[0] as int) + seq!['-']
            + spec_authority_string(self@);
        proof {
            assert("S-"@ =~= seq!['S', '-']);
            assert("-"@ =~= seq!['-']);
            assert(out@ =~= prefix + spec_sub_authorities_string(self@, 0));
        }
        let count: usize = self.bytes[1] as usize;
        let mut i: usize = 0;
        while i < count
            invariant
                i <= count,
                wf_sid(self@),
                count == self@[1] as int,
                out@ == prefix + spec_sub_authorities_string(self@, i as int),
                prefix == seq!['S', '-'] + dec_digits(self@[0] as int) + seq!['-']
                    + spec_authority_string(self@),
            decreases count - i,
        {
            out.append("-");
            let word = slice_subrange(self.bytes.as_slice(), 8 + 4 * i, 12 + 4 * i);
            let sub: u32 = u32_from_le_bytes(word);
            push_decimal(&mut out, sub as u64);
            proof {
                reveal_strlit("-");
                assert("-"@ =~= seq!['-']);
                assert(sub == spec_sub_authority(self@, i as int));
                assert(out@ =~= prefix + spec_sub_authorities_string(self@, i + 1));
            }
            i += 1;
        }
        out
    }
}

} // verus!
