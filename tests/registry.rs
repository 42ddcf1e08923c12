use fsel::registry::{alloc_inum, InodeCounter, InodeInfo, InodeRegistry, ObjectId};

fn info(lo: u64, name: &[u8]) -> InodeInfo {
    InodeInfo { oid: ObjectId { lo, hi: 0 }, parent_oid: ObjectId { lo: 1, hi: 1 }, name: name.to_vec() }
}

#[test]
fn allocations_are_distinct_and_at_least_three() {
    let mut c = InodeCounter::new();
    let mut seen: Vec<u64> = Vec::new();
    for _ in 0..100 {
        let n = alloc_inum(&mut c).unwrap();
        assert!(n >= 3);
        assert!(!seen.contains(&n));
        seen.push(n);
    }
    assert_eq!(seen[0], 3);
    assert_eq!(seen[99], 102);
}

#[test]
fn first_insert_wins() {
    let mut r = InodeRegistry::new();
    assert!(r.get(5).is_none());
    assert!(r.insert(5, info(10, b"a")));
    assert!(!r.insert(5, info(11, b"b")));
    let got = r.get(5).unwrap();
    assert_eq!(got.oid, ObjectId { lo: 10, hi: 0 });
    assert_eq!(got.name, b"a".to_vec());
    assert!(r.contains(5));
    assert!(!r.contains(6));
}
