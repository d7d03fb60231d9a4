use cilmeta::bitvec::{BitVec64, BitVec64Iter};

#[test]
fn check_bits() {
    let bitset: BitVec64 = 0b1.into();
    assert!(bitset.bit(0));
    let bitset: BitVec64 = 0b1001.into();
    assert!(bitset.bit(0));
    assert!(bitset.bit(3));
}

#[test]
fn iterate() {
    let bitset: BitVec64 = 0b1001.into();
    assert!(bitset.bit(3));
    let mut iterator = bitset.into_iter();
    assert_eq!(Some(0), iterator.next());
    assert_eq!(Some(3), iterator.next());
    let bitset: BitVec64 = 0b1000.into();
    assert!(!bitset.bit(0));
    let mut iterator = bitset.into_iter();
    assert_eq!(Some(3), iterator.next());
}

#[test]
fn bit_reads_every_position() {
    let bitset = BitVec64(0x8000_0000_0000_0001);
    assert!(bitset.bit(0));
    assert!(!bitset.bit(1));
    assert!(!bitset.bit(62));
    assert!(bitset.bit(63));
}

#[test]
fn walk_ends_and_stays_ended() {
    let mut walk: BitVec64Iter = BitVec64(0b110).into_iter();
    assert_eq!(walk.next(), Some(1));
    assert_eq!(walk.next(), Some(2));
    assert_eq!(walk.next(), None);
    assert_eq!(walk.index, 3);
    assert_eq!(walk.next(), None);
}

#[test]
fn walk_of_nothing_is_empty() {
    let mut walk = BitVec64(0).into_iter();
    assert_eq!(walk.next(), None);
    assert_eq!(walk.index, 0);
}

#[test]
fn walk_stops_before_the_top_position() {
    let mut walk = BitVec64(0xC000_0000_0000_0000).into_iter();
    assert_eq!(walk.next(), Some(62));
    assert_eq!(walk.next(), None);
}

#[test]
fn position_counts_the_members_below() {
    let bitset = BitVec64(0b0100_0101);
    assert_eq!(bitset.position(0), Some(0));
    assert_eq!(bitset.position(2), Some(1));
    assert_eq!(bitset.position(6), Some(2));
    assert_eq!(bitset.position(1), None);
    assert_eq!(bitset.position(63), None);
    assert_eq!(BitVec64(u64::MAX).position(63), None);
    assert_eq!(BitVec64(u64::MAX).position(62), Some(62));
}

#[test]
fn len_counts_the_members_of_the_walk() {
    assert_eq!(BitVec64(0).len(), 0);
    assert_eq!(BitVec64(0b0100_0101).len(), 3);
    assert_eq!(BitVec64(u64::MAX).len(), 63);
}
