use access_control::AccessControlList;
use access_control::AccessInheritance;
use access_control::AccessMask;
use access_control::AccessMode;
use access_control::ExplicitAccess;
use access_control::SecurityDescriptor;
use access_control::SecurityId;
use access_control::mask::GENERIC_READ;
use access_control::security_descriptor::SE_DACL_PROTECTED;

fn one_entry_acl() -> AccessControlList {
    let mut acl = AccessControlList::new().unwrap();
    let trustee = SecurityId::builtin_administrators().unwrap();
    let request = ExplicitAccess::new(
        AccessMask::from_bits(GENERIC_READ).unwrap(),
        AccessMode::GrantAccess,
        AccessInheritance::empty(),
        trustee,
    );
    acl.insert(request).unwrap();
    acl
}

#[test]
fn descriptor_without_dacl_reports_none() {
    let descriptor = SecurityDescriptor::new(None, None, 0);
    assert!(descriptor.dacl().is_none());
    assert!(descriptor.owner().is_none());
}

#[test]
fn set_dacl_installs_equivalent_view() {
    let acl = one_entry_acl();
    let expected: Vec<u8> = acl.as_bytes().to_vec();
    let mut descriptor = SecurityDescriptor::new(None, None, SE_DACL_PROTECTED);
    assert!(descriptor.dacl().is_none());
    let protected_before = descriptor.is_dacl_protected();

    descriptor.set_dacl(Some(acl));
    let active = descriptor.dacl().unwrap();
    assert_eq!(active.as_bytes(), expected.as_slice());
    assert_eq!(active.num_entries(), 1);
    // Replacing the DACL leaves the protection bit alone.
    assert_eq!(descriptor.is_dacl_protected(), protected_before);
}

#[test]
fn set_dacl_none_clears_previous_dacl() {
    let mut descriptor = SecurityDescriptor::new(None, Some(one_entry_acl()), 0);
    assert!(descriptor.dacl().is_some());
    descriptor.set_dacl(None);
    assert!(descriptor.dacl().is_none());
    descriptor.set_dacl(Some(one_entry_acl()));
    assert!(descriptor.dacl().is_some());
    descriptor.set_dacl(None);
    assert!(descriptor.dacl().is_none());
}

#[test]
fn protection_bit_follows_control_word() {
    let protected = SecurityDescriptor::new(None, None, SE_DACL_PROTECTED);
    assert!(protected.is_dacl_protected());
    let unprotected = SecurityDescriptor::new(None, None, 0);
    assert!(!unprotected.is_dacl_protected());
    // Other control bits do not stand in for the protection bit.
    let other_bits = SecurityDescriptor::new(None, None, 0x8004);
    assert!(!other_bits.is_dacl_protected());
}

#[test]
fn owner_is_reported_back() {
    let owner = SecurityId::builtin_administrators().unwrap();
    let descriptor = SecurityDescriptor::new(Some(owner), None, 0);
    let reported = descriptor.owner().unwrap();
    assert!(reported.is_builtin_administrators());
    assert_eq!(reported.string_sid(), "S-1-5-32-544");
}
