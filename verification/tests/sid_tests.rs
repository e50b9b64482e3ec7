use access_control::SecurityId;
use access_control::WellKnownSidType;

#[test]
fn builtin_administrators_record() {
    let sid = SecurityId::builtin_administrators().unwrap();
    // S-1-5-32-544: revision 1, two sub-authorities, authority 5,
    // then 32 and 544 as little-endian words.
    let expected: Vec<u8> = vec![
        1, 2, 0, 0, 0, 0, 0, 5, 32, 0, 0, 0, 0x20, 0x02, 0, 0,
    ];
    assert_eq!(sid.as_bytes(), expected.as_slice());
}

#[test]
fn builtin_administrators_string() {
    let sid = SecurityId::builtin_administrators().unwrap();
    assert_eq!(sid.string_sid(), "S-1-5-32-544");
}

#[test]
fn builtin_administrators_is_well_known() {
    let sid = SecurityId::builtin_administrators().unwrap();
    assert!(sid.is_builtin_administrators());
    assert!(sid.is_well_known(WellKnownSidType::BuiltinAdministrators));
    assert!(!sid.is_local_system());
}

#[test]
fn local_system_classification() {
    let sid = SecurityId::new(5, &vec![18]).unwrap();
    assert!(sid.is_local_system());
    assert!(sid.is_well_known(WellKnownSidType::LocalSystem));
    assert!(!sid.is_builtin_administrators());
    assert_eq!(sid.string_sid(), "S-1-5-18");
}

#[test]
fn domain_sid_string() {
    let sid = SecurityId::new(5, &vec![21, 3_623_811_015, 3_361_044_348, 30_300]).unwrap();
    assert_eq!(sid.string_sid(), "S-1-5-21-3623811015-3361044348-30300");
}

#[test]
fn zero_sub_authorities() {
    let sid = SecurityId::new(0, &vec![]).unwrap();
    assert_eq!(sid.as_bytes(), &[1, 0, 0, 0, 0, 0, 0, 0]);
    assert_eq!(sid.string_sid(), "S-1-0");
}

#[test]
fn too_many_sub_authorities_rejected() {
    let subs: Vec<u32> = (0..16).collect();
    let err = SecurityId::new(5, &subs).unwrap_err();
    assert_eq!(err.win_error_code(), 87);
}

#[test]
fn fifteen_sub_authorities_accepted() {
    let subs: Vec<u32> = (0..15).collect();
    let sid = SecurityId::new(5, &subs).unwrap();
    assert_eq!(sid.as_bytes().len(), 8 + 4 * 15);
}

#[test]
fn oversized_authority_rejected() {
    let err = SecurityId::new(0x1_0000_0000_0000, &vec![18]).unwrap_err();
    assert_eq!(err.win_error_code(), 87);
}

#[test]
fn max_authority_accepted() {
    // Authorities of 2^32 and above render in hexadecimal behind 0x.
    let sid = SecurityId::new(0xFFFF_FFFF_FFFF, &vec![]).unwrap();
    assert_eq!(sid.as_bytes(), &[1, 0, 0xFF, 0xFF, 0xFF, 0xFF, 0xFF, 0xFF]);
    assert_eq!(sid.string_sid(), "S-1-0xffffffffffff");
}

#[test]
fn authority_rendering_switches_at_two_to_the_thirty_two() {
    let decimal = SecurityId::new(0xFFFF_FFFF, &vec![7]).unwrap();
    assert_eq!(decimal.string_sid(), "S-1-4294967295-7");
    let hex = SecurityId::new(0x1_0000_0000, &vec![7]).unwrap();
    assert_eq!(hex.string_sid(), "S-1-0x000100000000-7");
}

#[test]
fn try_from_bytes_round_trip() {
    let original = SecurityId::builtin_administrators().unwrap();
    let copy = SecurityId::try_from_bytes(original.as_bytes().to_vec()).unwrap();
    assert_eq!(copy.as_bytes(), original.as_bytes());
    assert!(copy.is_builtin_administrators());
}

#[test]
fn try_from_bytes_rejects_short_record() {
    let err = SecurityId::try_from_bytes(vec![1, 0, 0, 0, 0, 0, 0]).unwrap_err();
    assert_eq!(err.win_error_code(), 87);
}

#[test]
fn try_from_bytes_rejects_length_mismatch() {
    // Count byte says one sub-authority, but no sub-authority words follow.
    assert!(SecurityId::try_from_bytes(vec![1, 1, 0, 0, 0, 0, 0, 5]).is_err());
    // Count byte says none, but four extra bytes follow.
    assert!(SecurityId::try_from_bytes(vec![1, 0, 0, 0, 0, 0, 0, 5, 9, 9, 9, 9]).is_err());
}

#[test]
fn try_from_bytes_rejects_count_over_limit() {
    let mut bytes: Vec<u8> = vec![1, 16, 0, 0, 0, 0, 0, 5];
    bytes.extend(std::iter::repeat(0u8).take(4 * 16));
    assert!(SecurityId::try_from_bytes(bytes).is_err());
}
