use fil_consensus::bytes::{bytes_equal, compare_bytes, copy_bytes, ByteOrder};

#[test]
fn first_differing_byte_decides() {
    assert_eq!(compare_bytes(&vec![1, 2, 3], &vec![1, 3, 0]), ByteOrder::Less);
    assert_eq!(compare_bytes(&vec![2], &vec![1, 255, 255]), ByteOrder::Greater);
}

#[test]
fn prefix_sorts_first() {
    assert_eq!(compare_bytes(&vec![1, 2], &vec![1, 2, 0]), ByteOrder::Less);
    assert_eq!(compare_bytes(&vec![1, 2, 0], &vec![1, 2]), ByteOrder::Greater);
    assert_eq!(compare_bytes(&vec![], &vec![0]), ByteOrder::Less);
}

#[test]
fn equal_strings_are_the_same() {
    assert_eq!(compare_bytes(&vec![], &vec![]), ByteOrder::Same);
    assert_eq!(compare_bytes(&vec![9, 9], &vec![9, 9]), ByteOrder::Same);
    assert!(bytes_equal(&vec![9, 9], &vec![9, 9]));
    assert!(!bytes_equal(&vec![9, 9], &vec![9]));
}

#[test]
fn copy_keeps_every_byte() {
    let original = vec![0u8, 1, 2, 250, 255];
    assert_eq!(copy_bytes(&original), original);
    assert_eq!(copy_bytes(&vec![]), Vec::<u8>::new());
}
