use zkvm_core::bus::{ByteLookupEvent, ByteOpcode};
use zkvm_core::field_op::{FieldOpCols, FieldOperation};

fn limbs(v: u64, n: usize) -> Vec<u8> {
    let mut r = v.to_le_bytes().to_vec();
    r.resize(n, 0);
    r
}

fn value(s: &[u8]) -> u64 {
    s.iter().rev().fold(0u64, |acc, b| acc * 256 + *b as u64)
}

fn run(a: u64, b: u64, op: FieldOperation) -> FieldOpCols {
    let p = limbs(97, 2);
    let mut blu: Vec<ByteLookupEvent> = Vec::new();
    let c = FieldOpCols::populate(&mut blu, 3, 1, &limbs(a, 2), &limbs(b, 2), op, &p, 2);
    assert_eq!(blu.len(), 4);
    assert!(blu.iter().all(|e| e.opcode == ByteOpcode::U8Range && e.shard == 3));
    assert!(c.eval(&limbs(a, 2), &limbs(b, 2), op, &p));
    c
}

#[test]
fn add_reduces() {
    let c = run(90, 20, FieldOperation::Add);
    assert_eq!(value(&c.result), 13);
    assert_eq!(value(&c.carry), 1);
}

#[test]
fn mul_reduces() {
    let c = run(50, 60, FieldOperation::Mul);
    assert_eq!(value(&c.result), 3000 % 97);
    assert_eq!(value(&c.carry), 3000 / 97);
}

#[test]
fn sub_wraps() {
    let c = run(5, 20, FieldOperation::Sub);
    assert_eq!(value(&c.result), 82);
    assert_eq!(value(&c.carry), 1);
    let d = run(20, 5, FieldOperation::Sub);
    assert_eq!(value(&d.result), 15);
    assert_eq!(value(&d.carry), 0);
}

#[test]
fn div_inverts() {
    let c = run(10, 3, FieldOperation::Div);
    assert_eq!((value(&c.result) * 3) % 97, 10);
    assert_eq!(value(&c.result), 68);
}

#[test]
fn div_by_zero_leaves_zeros() {
    let p = limbs(97, 2);
    let mut blu: Vec<ByteLookupEvent> = Vec::new();
    let c = FieldOpCols::populate(&mut blu, 0, 0, &limbs(10, 2), &limbs(0, 2), FieldOperation::Div, &p, 2);
    assert_eq!(value(&c.result), 0);
    assert!(!c.eval(&limbs(10, 2), &limbs(0, 2), FieldOperation::Div, &p));
}

#[test]
fn wrong_result_fails() {
    let p = limbs(97, 2);
    let mut c = run(50, 60, FieldOperation::Mul);
    c.result[0] ^= 1;
    assert!(!c.eval(&limbs(50, 2), &limbs(60, 2), FieldOperation::Mul, &p));
}
