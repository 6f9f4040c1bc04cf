use fil_consensus::bigint::Natural;

#[test]
fn bytes_denote_big_endian_numbers() {
    assert_eq!(Natural::from_u128(258).to_be_bytes(), vec![1, 2]);
    assert_eq!(Natural::from_u128(255).to_be_bytes(), vec![255]);
    assert_eq!(
        Natural::from_u128(u128::MAX).to_be_bytes(),
        vec![255u8; 16]
    );
}

#[test]
fn sum_carries_beyond_any_width() {
    let max = Natural::from_u128(u128::MAX);
    let sum = max.plus(&Natural::from_u128(1));
    let mut expected = vec![1u8];
    expected.extend(vec![0u8; 16]);
    assert_eq!(sum.to_be_bytes(), expected);
}

#[test]
fn sum_of_small_numbers() {
    let a = Natural::from_be_bytes(vec![255]);
    let b = Natural::from_be_bytes(vec![1]);
    assert_eq!(a.plus(&b).to_be_bytes(), vec![1, 0]);
}

#[test]
fn product_and_quotient() {
    let two = Natural::from_u128(2);
    let big = Natural::from_u128(128);
    assert_eq!(two.times(&big).to_be_bytes(), vec![1, 0]);
    assert_eq!(Natural::from_u128(256).div_floor(&two).to_be_bytes(), vec![128]);
    // The quotient is rounded down.
    assert_eq!(Natural::from_u128(7).div_floor(&two).to_be_bytes(), vec![3]);
}

#[test]
fn order_is_by_value() {
    let small = Natural::from_be_bytes(vec![255]);
    let large = Natural::from_be_bytes(vec![1, 0]);
    assert!(small.is_below(&large));
    assert!(!large.is_below(&small));
    assert!(!small.is_below(&small));
}

#[test]
fn leading_zeros_do_not_count() {
    let padded = Natural::from_be_bytes(vec![0, 0, 5]);
    let plain = Natural::from_be_bytes(vec![5]);
    assert!(!padded.is_below(&plain));
    assert!(!plain.is_below(&padded));
    let empty = Natural::from_be_bytes(vec![]);
    assert!(empty.is_below(&plain));
    assert_eq!(empty.plus(&plain).to_be_bytes(), vec![5]);
}

#[test]
fn duplicate_is_equal() {
    let n = Natural::from_u128(1 << 70);
    let d = n.duplicate();
    assert_eq!(n.to_be_bytes(), d.to_be_bytes());
}
