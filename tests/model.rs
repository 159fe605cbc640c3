use halo2_arith::arith::{public_instances, satisfies, Witness};
use halo2_arith::circuit::{ArithCircuit, Gate};
use halo2_arith::encoding::{decode_instances, encode_instances};
use halo2_arith::field::Base;

fn modulus_bytes() -> [u8; 32] {
    let mut p = [0u8; 32];
    p[..16].copy_from_slice(&[
        0x01, 0x00, 0x00, 0x00, 0xed, 0x30, 0x2d, 0x99, 0x1b, 0xf9, 0x4c, 0x09, 0xfc, 0x98, 0x46, 0x22,
    ]);
    p[31] = 0x40;
    p
}

fn b(n: u64) -> Base {
    Base::from_u64(n)
}

#[test]
fn from_u64_encodes_little_endian() {
    let x = b(0x0102);
    let mut expected = [0u8; 32];
    expected[0] = 0x02;
    expected[1] = 0x01;
    assert_eq!(x.to_repr(), expected);
    assert_eq!(b(0).to_repr(), [0u8; 32]);
}

#[test]
fn field_operations_exact() {
    assert_eq!(b(69).add(&b(42)), b(111));
    assert_eq!(b(69).mul(&b(42)), b(2898));
    assert_eq!(b(69).sub(&b(42)), b(27));
    let big = b(u64::MAX).mul(&b(u64::MAX));
    let mut expected = [0u8; 32];
    // (2^64 - 1)^2 = 2^128 - 2^65 + 1
    expected[0] = 0x01;
    expected[8] = 0xfe;
    for byte in expected.iter_mut().take(16).skip(9) {
        *byte = 0xff;
    }
    assert_eq!(big.to_repr(), expected);
}

#[test]
fn subtraction_wraps_around_modulus() {
    let minus_one = b(0).sub(&b(1));
    let mut expected = modulus_bytes();
    expected[0] = 0x00;
    assert_eq!(minus_one.to_repr(), expected);
    assert_eq!(minus_one.add(&b(1)), b(0));
}

#[test]
fn from_repr_canonical_only() {
    assert_eq!(Base::from_repr(modulus_bytes()), None);
    assert_eq!(Base::from_repr([0xff; 32]), None);
    let mut below = modulus_bytes();
    below[0] = 0x00;
    let x = Base::from_repr(below).unwrap();
    assert_eq!(x.to_repr(), below);
    assert_eq!(Base::from_repr(b(5).to_repr()), Some(b(5)));
}

#[test]
fn same_compares_values() {
    assert!(b(7).same(&b(7)));
    assert!(!b(7).same(&b(8)));
    assert!(b(3).sub(&b(1)).same(&b(2)));
}

#[test]
fn scenario_public_instance_values() {
    let inst = public_instances(&b(69), &b(42));
    assert_eq!(inst, vec![b(111), b(2898), b(27)]);
    assert!(satisfies(&b(69), &b(42), &inst));
}

#[test]
fn scenario_difference_off_by_one_refused() {
    assert!(!satisfies(&b(69), &b(42), &[b(111), b(2898), b(26)]));
    assert!(!satisfies(&b(69), &b(42), &[b(111), b(2899), b(27)]));
    assert!(!satisfies(&b(69), &b(42), &[b(112), b(2898), b(27)]));
}

#[test]
fn satisfies_needs_three_in_order() {
    assert!(!satisfies(&b(69), &b(42), &[b(111), b(2898)]));
    assert!(!satisfies(&b(69), &b(42), &[b(111), b(2898), b(27), b(0)]));
    assert!(!satisfies(&b(69), &b(42), &[b(111), b(27), b(2898)]));
    assert!(!satisfies(&b(69), &b(42), &[]));
}

#[test]
fn satisfies_for_several_inputs() {
    for (x, y) in [(0u64, 0u64), (1, 0), (0, 1), (10, 3), (3, 10), (u64::MAX, u64::MAX)] {
        let inst = public_instances(&b(x), &b(y));
        assert!(satisfies(&b(x), &b(y), &inst));
    }
}

#[test]
fn witness_operations() {
    let k = Witness::Known(b(6));
    let j = Witness::Known(b(4));
    assert_eq!(k.add(&j), Witness::Known(b(10)));
    assert_eq!(k.sub(&j), Witness::Known(b(2)));
    assert_eq!(k.mul(&j), Witness::Known(b(24)));
    assert_eq!(k.add(&Witness::Unknown), Witness::Unknown);
    assert_eq!(Witness::Unknown.mul(&j), Witness::Unknown);
    assert_eq!(Gate::Sub.apply(&k, &j), Witness::Known(b(2)));
}

#[test]
fn circuit_rows_layout() {
    let c = ArithCircuit::new(b(69), b(42));
    let rows = c.rows();
    assert_eq!(rows.len(), 3);
    assert_eq!(rows.iter().map(|r| r.gate).collect::<Vec<_>>(), vec![Gate::Add, Gate::Mul, Gate::Sub]);
    assert_eq!(rows.iter().map(|r| r.slot).collect::<Vec<_>>(), vec![0, 1, 2]);
    assert_eq!(rows[0].out, Witness::Known(b(111)));
    assert_eq!(rows[1].out, Witness::Known(b(2898)));
    assert_eq!(rows[2].out, Witness::Known(b(27)));
    assert!(rows.iter().all(|r| r.lhs == c.a && r.rhs == c.b));
    assert_eq!(c.instances(), Some(vec![b(111), b(2898), b(27)]));
}

#[test]
fn circuit_without_witnesses() {
    let c = ArithCircuit::new(b(69), b(42)).without_witnesses();
    assert_eq!(c.a, Witness::Unknown);
    assert_eq!(c.b, Witness::Unknown);
    assert!(c.rows().iter().all(|r| r.out == Witness::Unknown));
    assert_eq!(c.instances(), None);
}

#[test]
fn encoding_round_trip() {
    let inst = public_instances(&b(69), &b(42));
    let bytes = encode_instances(&inst);
    assert_eq!(bytes.len(), 96);
    assert_eq!(bytes[0], 111);
    assert_eq!(bytes[32], (2898 % 256) as u8);
    assert_eq!(bytes[33], (2898 / 256) as u8);
    assert_eq!(bytes[64], 27);
    assert_eq!(decode_instances(&bytes), Some(inst));
    assert_eq!(decode_instances(&[]), Some(vec![]));
}

#[test]
fn decoding_refuses_bad_input() {
    assert_eq!(decode_instances(&[0u8; 31]), None);
    assert_eq!(decode_instances(&[0u8; 33]), None);
    let mut bytes = encode_instances(&[b(1), b(2)]);
    bytes[32..].copy_from_slice(&modulus_bytes());
    assert_eq!(decode_instances(&bytes), None);
}

#[test]
fn flipped_byte_never_satisfies() {
    let (x, y) = (b(69), b(42));
    let bytes = encode_instances(&public_instances(&x, &y));
    for pos in 0..bytes.len() {
        for mask in [0x01u8, 0x80, 0xff] {
            let mut flipped = bytes.clone();
            flipped[pos] ^= mask;
            if let Some(other) = decode_instances(&flipped) {
                assert!(!satisfies(&x, &y, &other));
            }
        }
    }
}
