use libvmr::indexed_vec::{IndexedVec, IndexedVecErr, MAX_LEN};

#[test]
fn a_new_vector_is_empty() {
    let v: IndexedVec<u8> = IndexedVec::new();
    assert_eq!(v.len(), 0);
    assert!(v.is_empty());
    let w: IndexedVec<u8> = IndexedVec::with_capacity(10);
    assert!(w.is_empty());
    let d: IndexedVec<u8> = IndexedVec::default();
    assert_eq!(d.len(), 0);
}

#[test]
fn push_stops_at_the_limit() {
    let mut v: IndexedVec<u16> = IndexedVec::new();
    for i in 0..MAX_LEN {
        assert_eq!(v.push(i as u16), Ok(()));
    }
    assert_eq!(v.len(), 65534);
    assert_eq!(v.push(7), Err(IndexedVecErr));
    assert_eq!(v.len(), 65534);
    assert_eq!(v.get(65533), Some(&65533));
    assert_eq!(v.get(65534), None);
}

#[test]
fn push_appends_in_order() {
    let mut v = IndexedVec::new();
    v.push('a').unwrap();
    v.push('b').unwrap();
    assert_eq!(v.len(), 2);
    assert!(!v.is_empty());
    assert_eq!(v.as_slice(), &['a', 'b']);
    let collected: Vec<char> = v.iter().copied().collect();
    assert_eq!(collected, vec!['a', 'b']);
    assert_eq!(v.into_vec(), vec!['a', 'b']);
}

#[test]
fn extend_is_refused_beyond_the_limit() {
    let mut v: IndexedVec<u8> = IndexedVec::with_capacity(3);
    assert_eq!(v.extend_from_slice(&[1, 2, 3]), Ok(()));
    assert_eq!(v.as_slice(), &[1, 2, 3]);
    let too_big = vec![0u8; MAX_LEN - 2];
    assert_eq!(v.extend_from_slice(&too_big), Err(IndexedVecErr));
    assert_eq!(v.as_slice(), &[1, 2, 3]);
    let just_fits = vec![9u8; MAX_LEN - 3];
    assert_eq!(v.extend_from_slice(&just_fits), Ok(()));
    assert_eq!(v.len() as usize, MAX_LEN);
    assert_eq!(v.get(3), Some(&9));
    assert_eq!(v.extend_from_slice(&[]), Ok(()));
    assert_eq!(v.extend_from_slice(&[1]), Err(IndexedVecErr));
}

#[test]
fn get_mut_changes_one_element() {
    let mut v: IndexedVec<u8> = IndexedVec::new();
    v.extend_from_slice(&[10, 20, 30]).unwrap();
    *v.get_mut(1).unwrap() = 99;
    assert_eq!(v.as_slice(), &[10, 99, 30]);
    assert!(v.get_mut(3).is_none());
    assert_eq!(v.get(0), Some(&10));
    assert_eq!(v.get(3), None);
}

#[test]
fn conversion_from_a_vec_respects_the_limit() {
    let ok = IndexedVec::<u8>::try_from(vec![0u8; MAX_LEN]);
    assert_eq!(ok.unwrap().len() as usize, MAX_LEN);
    assert!(IndexedVec::<u8>::try_from(vec![0u8; MAX_LEN + 1]).is_err());
    assert!(IndexedVec::from_vec(vec![1u8, 2]).is_ok());
    assert!(IndexedVec::from_vec(vec![0u8; MAX_LEN + 1]).is_err());
}

#[test]
fn a_clone_holds_the_same_elements() {
    let mut v: IndexedVec<u16> = IndexedVec::new();
    v.push(5).unwrap();
    v.push(6).unwrap();
    let w = v.clone();
    assert_eq!(w.as_slice(), &[5, 6]);
}

#[test]
fn iter_mut_changes_elements_in_place() {
    let mut v: IndexedVec<u16> = IndexedVec::new();
    v.extend_from_slice(&[1, 2, 3]).unwrap();
    for x in v.iter_mut() {
        *x *= 10;
    }
    assert_eq!(v.as_slice(), &[10, 20, 30]);
    assert_eq!(v.len(), 3);
}
