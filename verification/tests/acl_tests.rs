use access_control::AccessControlEntry;
use access_control::AccessControlList;
use access_control::AccessInheritance;
use access_control::AccessMask;
use access_control::AccessMode;
use access_control::ExplicitAccess;
use access_control::SecurityId;
use access_control::mask::GENERIC_READ;
use access_control::mask::GENERIC_WRITE;
use access_control::mask::CONTAINERS_AND_OBJECTS_INHERIT;
use access_control::mask::READ_CONTROL;

fn collect_entries(acl: &AccessControlList) -> Vec<AccessControlEntry> {
    let mut out = Vec::new();
    let mut it = acl.entries();
    while let Some(entry) = it.next() {
        out.push(entry);
    }
    out
}

fn grant(mask_bits: u32, sid: SecurityId) -> ExplicitAccess {
    ExplicitAccess::new(
        AccessMask::from_bits(mask_bits).unwrap(),
        AccessMode::GrantAccess,
        AccessInheritance::empty(),
        sid,
    )
}

fn deny(mask_bits: u32, sid: SecurityId) -> ExplicitAccess {
    ExplicitAccess::new(
        AccessMask::from_bits(mask_bits).unwrap(),
        AccessMode::DenyAccess,
        AccessInheritance::empty(),
        sid,
    )
}

#[test]
fn empty_list_has_no_entries() {
    let acl = AccessControlList::new().unwrap();
    assert_eq!(acl.num_entries(), 0);
    assert!(collect_entries(&acl).is_empty());
    assert_eq!(acl.as_bytes(), &[2, 0, 8, 0, 0, 0, 0, 0]);
}

#[test]
fn insert_grant_into_empty_list() {
    // Empty list plus one grant for a given trustee with mask {read, write}.
    let mut acl = AccessControlList::new().unwrap();
    let trustee = SecurityId::builtin_administrators().unwrap();
    acl.insert(grant(GENERIC_READ | GENERIC_WRITE, trustee)).unwrap();

    assert_eq!(acl.num_entries(), 1);
    let entries = collect_entries(&acl);
    assert_eq!(entries.len(), 1);
    assert_eq!(entries[0].grants_access(), Some(true));
    assert_eq!(
        entries[0].access_mask().unwrap().bits(),
        GENERIC_READ | GENERIC_WRITE
    );
    let expected_trustee = SecurityId::builtin_administrators().unwrap();
    assert_eq!(
        entries[0].trustee().unwrap().as_bytes(),
        expected_trustee.as_bytes()
    );
}

#[test]
fn iteration_preserves_order_and_families() {
    // Allow and deny entries with distinct masks and trustees come back in
    // insertion order, each classified by its family.
    let mut acl = AccessControlList::new().unwrap();
    let alice = SecurityId::new(5, &vec![21, 1]).unwrap();
    let bob = SecurityId::new(5, &vec![21, 2]).unwrap();
    let carol = SecurityId::new(5, &vec![21, 3]).unwrap();
    acl.insert(grant(GENERIC_READ, alice)).unwrap();
    acl.insert(deny(GENERIC_WRITE, bob)).unwrap();
    acl.insert(grant(READ_CONTROL, carol)).unwrap();

    let entries = collect_entries(&acl);
    assert_eq!(entries.len(), 3);
    assert_eq!(entries[0].grants_access(), Some(true));
    assert_eq!(entries[1].grants_access(), Some(false));
    assert_eq!(entries[2].grants_access(), Some(true));
    assert_eq!(entries[0].access_mask().unwrap().bits(), GENERIC_READ);
    assert_eq!(entries[1].access_mask().unwrap().bits(), GENERIC_WRITE);
    assert_eq!(entries[2].access_mask().unwrap().bits(), READ_CONTROL);
    assert_eq!(entries[0].trustee().unwrap().string_sid(), "S-1-5-21-1");
    assert_eq!(entries[1].trustee().unwrap().string_sid(), "S-1-5-21-2");
    assert_eq!(entries[2].trustee().unwrap().string_sid(), "S-1-5-21-3");
}

#[test]
fn insert_keeps_prior_entries_unchanged() {
    let mut acl = AccessControlList::new().unwrap();
    let alice = SecurityId::new(5, &vec![21, 1]).unwrap();
    let bob = SecurityId::new(5, &vec![21, 2]).unwrap();
    acl.insert(grant(GENERIC_READ, alice)).unwrap();
    acl.insert(deny(GENERIC_WRITE, bob)).unwrap();
    let before: Vec<u8> = acl.as_bytes().to_vec();

    let carol = SecurityId::new(5, &vec![21, 3]).unwrap();
    acl.insert(grant(READ_CONTROL, carol)).unwrap();

    assert_eq!(acl.num_entries(), 3);
    // The prior entries' bytes are a prefix of the rebuilt region, unchanged.
    assert_eq!(&acl.as_bytes()[8..before.len()], &before[8..]);
    let entries = collect_entries(&acl);
    assert_eq!(entries[2].grants_access(), Some(true));
    assert_eq!(entries[2].access_mask().unwrap().bits(), READ_CONTROL);
    assert_eq!(entries[2].trustee().unwrap().string_sid(), "S-1-5-21-3");
}

#[test]
fn entry_sizes_sum_to_declared_content_size() {
    let mut acl = AccessControlList::new().unwrap();
    acl.insert(grant(GENERIC_READ, SecurityId::new(5, &vec![21, 1]).unwrap())).unwrap();
    acl.insert(deny(GENERIC_WRITE, SecurityId::new(5, &vec![21, 2, 3]).unwrap())).unwrap();
    acl.insert(grant(READ_CONTROL, SecurityId::builtin_administrators().unwrap())).unwrap();

    let total: usize = collect_entries(&acl).iter().map(|e| e.size()).sum();
    assert_eq!(total, acl.as_bytes().len() - 8);
}

#[test]
fn serialized_list_reparses_to_identical_entries() {
    // Build entries, serialize, re-validate the bytes, and recover the same
    // tags, masks and trustees.
    let mut acl = AccessControlList::new().unwrap();
    acl.insert(grant(GENERIC_READ, SecurityId::new(5, &vec![21, 1]).unwrap())).unwrap();
    acl.insert(deny(GENERIC_WRITE, SecurityId::new(5, &vec![21, 2]).unwrap())).unwrap();

    let reparsed = AccessControlList::from_bytes(acl.as_bytes().to_vec()).unwrap();
    let original = collect_entries(&acl);
    let recovered = collect_entries(&reparsed);
    assert_eq!(original.len(), recovered.len());
    for (a, b) in original.iter().zip(recovered.iter()) {
        assert_eq!(a.grants_access(), b.grants_access());
        assert_eq!(a.size(), b.size());
        assert_eq!(
            a.access_mask().unwrap().bits(),
            b.access_mask().unwrap().bits()
        );
        assert_eq!(
            a.trustee().unwrap().as_bytes(),
            b.trustee().unwrap().as_bytes()
        );
    }
}

#[test]
fn clone_is_independent_of_template() {
    let mut acl = AccessControlList::new().unwrap();
    acl.insert(grant(GENERIC_READ, SecurityId::new(5, &vec![21, 7]).unwrap())).unwrap();
    let copy = AccessControlList::clone_from(&acl).unwrap();
    assert_eq!(copy.as_bytes(), acl.as_bytes());

    // Release the template's storage; the copy must stay valid.
    drop(acl);
    let entries = collect_entries(&copy);
    assert_eq!(entries.len(), 1);
    assert_eq!(entries[0].grants_access(), Some(true));
    assert_eq!(entries[0].trustee().unwrap().string_sid(), "S-1-5-21-7");
}

#[test]
fn try_to_owned_copies_entries() {
    let mut acl = AccessControlList::new().unwrap();
    acl.insert(deny(GENERIC_WRITE, SecurityId::new(5, &vec![21, 9]).unwrap())).unwrap();
    let copy = acl.try_to_owned().unwrap();
    assert_eq!(copy.as_bytes(), acl.as_bytes());
}

#[test]
fn unknown_entry_is_opaque_but_sized() {
    // A system-audit entry (tag 2) is outside the nine modelled variants:
    // iteration must report its length but neither mask nor trustee.
    let known_sid: Vec<u8> = vec![1, 1, 0, 0, 0, 0, 0, 5, 18, 0, 0, 0];
    let mut bytes: Vec<u8> = vec![2, 0, 0, 0, 2, 0, 0, 0];
    // Known allow entry: header + mask + 12-byte SID = 20 bytes.
    bytes.extend(vec![0, 0, 20, 0]);
    bytes.extend(vec![0, 0, 2, 0]); // mask 0x00020000 = READ_CONTROL
    bytes.extend(known_sid);
    // Unknown entry, tag 2, declared size 9.
    bytes.extend(vec![2, 0, 9, 0, 0xAA, 0xBB, 0xCC, 0xDD, 0xEE]);
    let total = bytes.len() as u16;
    bytes[2] = total as u8;
    bytes[3] = (total >> 8) as u8;

    let acl = AccessControlList::from_bytes(bytes).unwrap();
    assert_eq!(acl.num_entries(), 2);
    let entries = collect_entries(&acl);
    assert_eq!(entries[0].grants_access(), Some(true));
    assert_eq!(entries[0].access_mask().unwrap().bits(), READ_CONTROL);
    assert_eq!(entries[0].size(), 20);
    assert_eq!(entries[1].grants_access(), None);
    assert!(entries[1].access_mask().is_none());
    assert!(entries[1].trustee().is_none());
    assert_eq!(entries[1].size(), 9);
    let total: usize = entries.iter().map(|e| e.size()).sum();
    assert_eq!(total, acl.as_bytes().len() - 8);
}

#[test]
fn insert_rejects_audit_modes() {
    let mut acl = AccessControlList::new().unwrap();
    let trustee = SecurityId::new(5, &vec![18]).unwrap();
    let request = ExplicitAccess::new(
        AccessMask::from_bits(GENERIC_READ).unwrap(),
        AccessMode::SetAuditSuccess,
        AccessInheritance::empty(),
        trustee,
    );
    let err = acl.insert(request).unwrap_err();
    assert_eq!(err.win_error_code(), 87);
    assert_eq!(acl.num_entries(), 0);
    assert_eq!(acl.as_bytes(), &[2, 0, 8, 0, 0, 0, 0, 0]);
}

#[test]
fn insert_rejects_revoke_and_not_used() {
    let mut acl = AccessControlList::new().unwrap();
    for mode in [AccessMode::RevokeAccess, AccessMode::NotUsed, AccessMode::SetAuditFailure] {
        let trustee = SecurityId::new(5, &vec![18]).unwrap();
        let request = ExplicitAccess::new(
            AccessMask::from_bits(GENERIC_READ).unwrap(),
            mode,
            AccessInheritance::empty(),
            trustee,
        );
        assert_eq!(acl.insert(request).unwrap_err().win_error_code(), 87);
    }
    assert_eq!(acl.num_entries(), 0);
}

#[test]
fn set_access_mode_maps_to_allow_entry() {
    let mut acl = AccessControlList::new().unwrap();
    let trustee = SecurityId::new(5, &vec![18]).unwrap();
    let request = ExplicitAccess::new(
        AccessMask::from_bits(GENERIC_READ).unwrap(),
        AccessMode::SetAccess,
        AccessInheritance::empty(),
        trustee,
    );
    acl.insert(request).unwrap();
    let entries = collect_entries(&acl);
    assert_eq!(entries[0].grants_access(), Some(true));
}

#[test]
fn insert_rejects_overgrown_list() {
    // A list already holding one near-maximal opaque record cannot take
    // another entry without outgrowing its 16-bit size field.
    let body_len = 0xFFF3 - 4;
    let mut bytes: Vec<u8> = vec![2, 0, 0xFB, 0xFF, 1, 0, 0, 0];
    bytes.extend(vec![2, 0, 0xF3, 0xFF]);
    bytes.extend(std::iter::repeat(0u8).take(body_len));
    assert_eq!(bytes.len(), 0xFFFB);
    let mut acl = AccessControlList::from_bytes(bytes).unwrap();

    let trustee = SecurityId::new(5, &vec![18]).unwrap();
    let err = acl.insert(grant(GENERIC_READ, trustee)).unwrap_err();
    assert_eq!(err.win_error_code(), 1344);
    assert_eq!(acl.num_entries(), 1);
}

#[test]
fn object_entries_locate_trustee_past_the_guids() {
    // An object-specific entry carries a presence word and the GUIDs it
    // announces between the mask and the SID; the trustee must be read past
    // them, and the GUID region must not be mistaken for a SID.
    let sid: Vec<u8> = vec![1, 1, 0, 0, 0, 0, 0, 5, 18, 0, 0, 0];
    let mut bytes: Vec<u8> = vec![2, 0, 0, 0, 3, 0, 0, 0];
    // Allow-object entry with both GUIDs: 4 + 4 + 4 + 32 + 12 = 56 bytes.
    bytes.extend(vec![0x05, 0, 56, 0]);
    bytes.extend(vec![0, 0, 0, 0x80]); // mask 0x80000000 = GENERIC_READ
    bytes.extend(vec![3, 0, 0, 0]); // both presence bits set
    bytes.extend((1..=32).collect::<Vec<u8>>()); // the two GUIDs
    bytes.extend(sid.clone());
    // Deny-object entry with no GUIDs: 4 + 4 + 4 + 12 = 24 bytes.
    bytes.extend(vec![0x06, 0, 24, 0]);
    bytes.extend(vec![0, 0, 2, 0]); // mask 0x00020000 = READ_CONTROL
    bytes.extend(vec![0, 0, 0, 0]); // no presence bits
    bytes.extend(sid.clone());
    // Allow-object entry with one GUID: 4 + 4 + 4 + 16 + 12 = 40 bytes.
    bytes.extend(vec![0x05, 0, 40, 0]);
    bytes.extend(vec![0, 0, 2, 0]);
    bytes.extend(vec![2, 0, 0, 0]); // inherited-object GUID only
    bytes.extend((1..=16).collect::<Vec<u8>>());
    bytes.extend(sid.clone());
    let total = bytes.len() as u16;
    bytes[2] = total as u8;
    bytes[3] = (total >> 8) as u8;

    let acl = AccessControlList::from_bytes(bytes).unwrap();
    assert_eq!(acl.num_entries(), 3);
    let entries = collect_entries(&acl);
    assert_eq!(entries[0].grants_access(), Some(true));
    assert_eq!(entries[0].access_mask().unwrap().bits(), GENERIC_READ);
    assert_eq!(entries[0].trustee().unwrap().string_sid(), "S-1-5-18");
    assert_eq!(entries[0].size(), 56);
    assert_eq!(entries[1].grants_access(), Some(false));
    assert_eq!(entries[1].access_mask().unwrap().bits(), READ_CONTROL);
    assert_eq!(entries[1].trustee().unwrap().string_sid(), "S-1-5-18");
    assert_eq!(entries[1].size(), 24);
    assert_eq!(entries[2].grants_access(), Some(true));
    assert_eq!(entries[2].trustee().unwrap().string_sid(), "S-1-5-18");
    assert_eq!(entries[2].size(), 40);
    let total: usize = entries.iter().map(|e| e.size()).sum();
    assert_eq!(total, acl.as_bytes().len() - 8);
}

#[test]
fn callback_entry_keeps_conditional_tail() {
    // A callback entry stores its conditional expression after the SID,
    // inside the declared size; the record must be accepted whole.
    let sid: Vec<u8> = vec![1, 1, 0, 0, 0, 0, 0, 5, 18, 0, 0, 0];
    let mut bytes: Vec<u8> = vec![2, 0, 0, 0, 1, 0, 0, 0];
    // Allow-callback entry: 8 + 12 + 6 condition bytes = 26.
    bytes.extend(vec![0x09, 0, 26, 0]);
    bytes.extend(vec![0, 0, 0, 0x80]);
    bytes.extend(sid.clone());
    bytes.extend(vec![0x61, 0x72, 0x74, 0x78, 1, 2]);
    let total = bytes.len() as u16;
    bytes[2] = total as u8;
    bytes[3] = (total >> 8) as u8;

    let acl = AccessControlList::from_bytes(bytes).unwrap();
    let entries = collect_entries(&acl);
    assert_eq!(entries.len(), 1);
    assert_eq!(entries[0].grants_access(), Some(true));
    assert_eq!(entries[0].access_mask().unwrap().bits(), GENERIC_READ);
    assert_eq!(entries[0].trustee().unwrap().string_sid(), "S-1-5-18");
    assert_eq!(entries[0].size(), 26);
    assert_eq!(entries[0].size(), acl.as_bytes().len() - 8);
}

#[test]
fn plain_entry_may_carry_padding() {
    // A record may declare more bytes than its SID fills; the padding stays
    // part of the record and of its reported size.
    let sid: Vec<u8> = vec![1, 1, 0, 0, 0, 0, 0, 5, 18, 0, 0, 0];
    let mut bytes: Vec<u8> = vec![2, 0, 32, 0, 1, 0, 0, 0];
    bytes.extend(vec![0x00, 0, 24, 0]);
    bytes.extend(vec![0, 0, 2, 0]);
    bytes.extend(sid);
    bytes.extend(vec![0, 0, 0, 0]);
    let acl = AccessControlList::from_bytes(bytes).unwrap();
    let entries = collect_entries(&acl);
    assert_eq!(entries[0].size(), 24);
    assert_eq!(entries[0].trustee().unwrap().string_sid(), "S-1-5-18");
}

#[test]
fn from_bytes_rejects_truncated_object_entries() {
    // An object entry whose declared size cannot hold the presence word.
    assert!(
        AccessControlList::from_bytes(vec![2, 0, 16, 0, 1, 0, 0, 0, 5, 0, 8, 0, 0, 0, 0, 0])
            .is_err()
    );
    // An object entry announcing two GUIDs inside a record too short for them.
    let mut bytes: Vec<u8> = vec![2, 0, 28, 0, 1, 0, 0, 0];
    bytes.extend(vec![0x05, 0, 20, 0]);
    bytes.extend(vec![0, 0, 0, 0x80]);
    bytes.extend(vec![3, 0, 0, 0]);
    bytes.extend(vec![1, 1, 0, 0, 0, 0, 0, 5]);
    assert!(AccessControlList::from_bytes(bytes).is_err());
}

#[test]
fn insert_fills_list_to_exact_size_limit() {
    // 65515 bytes already used; a 20-byte entry lands exactly on 0xFFFF.
    let body_len = 0xFFE3 - 4;
    let mut bytes: Vec<u8> = vec![2, 0, 0xEB, 0xFF, 1, 0, 0, 0];
    bytes.extend(vec![2, 0, 0xE3, 0xFF]);
    bytes.extend(std::iter::repeat(0u8).take(body_len));
    let mut acl = AccessControlList::from_bytes(bytes).unwrap();

    let trustee = SecurityId::new(5, &vec![18]).unwrap();
    acl.insert(grant(GENERIC_READ, trustee)).unwrap();
    assert_eq!(acl.as_bytes().len(), 0xFFFF);
    assert_eq!(acl.num_entries(), 2);
}

#[test]
fn from_bytes_rejects_malformed_lists() {
    // Too short for a header.
    assert!(AccessControlList::from_bytes(vec![2, 0, 4, 0]).is_err());
    // Size field disagrees with the buffer length.
    assert!(AccessControlList::from_bytes(vec![2, 0, 9, 0, 0, 0, 0, 0]).is_err());
    // Count declares an entry but no bytes follow.
    assert!(AccessControlList::from_bytes(vec![2, 0, 8, 0, 1, 0, 0, 0]).is_err());
    // Entry size of zero can never advance.
    assert!(
        AccessControlList::from_bytes(vec![2, 0, 12, 0, 1, 0, 0, 0, 2, 0, 0, 0]).is_err()
    );
    // Entry size runs past the buffer.
    assert!(
        AccessControlList::from_bytes(vec![2, 0, 12, 0, 1, 0, 0, 0, 2, 0, 9, 0]).is_err()
    );
    // Entries stop short of the declared total size.
    assert!(
        AccessControlList::from_bytes(vec![2, 0, 13, 0, 1, 0, 0, 0, 2, 0, 4, 0, 0]).is_err()
    );
    // A known tag whose record is too short to hold a mask and a SID.
    assert!(
        AccessControlList::from_bytes(vec![2, 0, 12, 0, 1, 0, 0, 0, 0, 0, 4, 0]).is_err()
    );
    // A known tag whose inline SID length disagrees with the record size.
    let mut bad: Vec<u8> = vec![2, 0, 28, 0, 1, 0, 0, 0];
    bad.extend(vec![0, 0, 20, 0, 0, 0, 0, 0]);
    bad.extend(vec![1, 2, 0, 0, 0, 0, 0, 5, 18, 0, 0, 0]); // count byte says 2
    assert!(AccessControlList::from_bytes(bad).is_err());
}

#[test]
fn from_bytes_accepts_empty_list() {
    let acl = AccessControlList::from_bytes(vec![2, 0, 8, 0, 0, 0, 0, 0]).unwrap();
    assert_eq!(acl.num_entries(), 0);
}

#[test]
fn inheritance_flags_round_trip_in_record() {
    let mut acl = AccessControlList::new().unwrap();
    let trustee = SecurityId::new(5, &vec![18]).unwrap();
    let request = ExplicitAccess::new(
        AccessMask::from_bits(GENERIC_READ).unwrap(),
        AccessMode::GrantAccess,
        AccessInheritance::from_bits(CONTAINERS_AND_OBJECTS_INHERIT).unwrap(),
        trustee,
    );
    acl.insert(request).unwrap();
    // The flags byte of the one entry's record carries the inheritance bits.
    assert_eq!(acl.as_bytes()[9], CONTAINERS_AND_OBJECTS_INHERIT as u8);
}
