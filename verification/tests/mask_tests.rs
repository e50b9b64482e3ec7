use access_control::AccessInheritance;
use access_control::AccessMask;
use access_control::mask::ALL_ACCESS_BITS;
use access_control::mask::CONTAINERS_INHERIT;
use access_control::mask::DELETE;
use access_control::mask::GENERIC_READ;
use access_control::mask::GENERIC_WRITE;
use access_control::mask::OBJECTS_INHERIT;
use access_control::mask::SYNCHRONIZE;

#[test]
fn mask_from_bits_accepts_vocabulary_bits() {
    let mask = AccessMask::from_bits(DELETE | GENERIC_READ).unwrap();
    assert_eq!(mask.bits(), DELETE | GENERIC_READ);
    assert!(AccessMask::from_bits(ALL_ACCESS_BITS).is_some());
}

#[test]
fn mask_from_bits_rejects_foreign_bits() {
    assert!(AccessMask::from_bits(0x1).is_none());
    assert!(AccessMask::from_bits(GENERIC_READ | 0x40).is_none());
}

#[test]
fn mask_truncate_drops_foreign_bits() {
    let mask = AccessMask::from_bits_truncate(GENERIC_READ | 0xFF);
    assert_eq!(mask.bits(), GENERIC_READ);
}

#[test]
fn mask_union_and_contains() {
    let read = AccessMask::from_bits(GENERIC_READ).unwrap();
    let write = AccessMask::from_bits(GENERIC_WRITE).unwrap();
    let both = read.union(write);
    assert_eq!(both.bits(), GENERIC_READ | GENERIC_WRITE);
    assert!(both.contains(read));
    assert!(both.contains(write));
    assert!(!read.contains(both));
    let sync = AccessMask::from_bits(SYNCHRONIZE).unwrap();
    assert!(!both.contains(sync));
}

#[test]
fn mask_empty_is_empty() {
    let empty = AccessMask::empty();
    assert!(empty.is_empty());
    assert_eq!(empty.bits(), 0);
    assert!(!AccessMask::from_bits(DELETE).unwrap().is_empty());
}

#[test]
fn inheritance_bit_operations() {
    let containers = AccessInheritance::from_bits(CONTAINERS_INHERIT).unwrap();
    let objects = AccessInheritance::from_bits(OBJECTS_INHERIT).unwrap();
    let both = containers.union(objects);
    assert_eq!(both.bits(), CONTAINERS_INHERIT | OBJECTS_INHERIT);
    assert!(both.contains(containers));
    assert!(!containers.contains(both));
    assert!(AccessInheritance::from_bits(0x10).is_none());
    assert_eq!(AccessInheritance::from_bits_truncate(0x13).bits(), 0x3);
    assert_eq!(AccessInheritance::empty().bits(), 0);
}
