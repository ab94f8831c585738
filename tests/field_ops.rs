use conv_relu_circuit::field::Fe;

#[test]
fn from_u64_round_trips_through_bytes() {
    let a = Fe::from_u64(0x0102);
    let b = a.to_bytes();
    assert_eq!(b[0], 0x02);
    assert_eq!(b[1], 0x01);
    assert!(b[2..].iter().all(|x| *x == 0));
    assert_eq!(Fe::from_bytes(b), Some(a));
}

#[test]
fn from_bytes_refuses_the_modulus() {
    // p = 0x40000000000000000000000000000000224698fc094cf91b992d30ed00000001
    let mut p = [0u8; 32];
    p[0] = 0x01;
    p[4] = 0xed;
    p[5] = 0x30;
    p[6] = 0x2d;
    p[7] = 0x99;
    p[8] = 0x1b;
    p[9] = 0xf9;
    p[10] = 0x4c;
    p[11] = 0x09;
    p[12] = 0xfc;
    p[13] = 0x98;
    p[14] = 0x46;
    p[15] = 0x22;
    p[31] = 0x40;
    assert_eq!(Fe::from_bytes(p), None);
    let mut below = p;
    below[0] = 0x00;
    let m1 = Fe::from_bytes(below).unwrap();
    assert_eq!(m1, Fe::from_i64(-1));
}

#[test]
fn addition_and_multiplication() {
    let a = Fe::from_u64(7);
    let b = Fe::from_u64(6);
    assert_eq!(a.add(&b), Fe::from_u64(13));
    assert_eq!(a.mul(&b), Fe::from_u64(42));
    assert_eq!(Fe::from_u64(u64::MAX).add(&Fe::from_u64(1)).mul(&Fe::from_u64(2)).to_bytes()[8], 2);
}

#[test]
fn negation_wraps_modulo_p() {
    let a = Fe::from_u64(5);
    let n = a.neg();
    assert_ne!(n, a);
    assert_eq!(n.add(&a), Fe::zero());
    assert_eq!(Fe::from_i64(-5), n);
    assert_eq!(Fe::from_i64(i64::MIN).add(&Fe::from_u64(1u64 << 63)), Fe::zero());
    assert_eq!(Fe::zero().neg(), Fe::zero());
}

#[test]
fn comparison_by_canonical_integer() {
    let small = Fe::from_u64(3);
    let big = Fe::from_u64(4);
    assert!(big.gt(&small));
    assert!(!small.gt(&big));
    assert!(!small.gt(&small));
    assert!(Fe::from_i64(-1).gt(&Fe::from_u64(u64::MAX)));
    assert!(small.same(&Fe::from_i64(3)));
    assert!(!small.same(&big));
}
