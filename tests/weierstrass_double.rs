use zkvm_core::memory_trace::MemoryRecordEvent;
use zkvm_core::weierstrass::{
    num_weierstrass_double_cols, EllipticCurveDoubleEvent, ExecutionRecord,
    WeierstrassDoubleAssignChip,
};
use zkvm_core::weierstrass_params::CurveType;

const SECP_G: [u32; 16] = [
    0x16f81798, 0x59f2815b, 0x2dce28d9, 0x029bfcdb, 0xce870b07, 0x55a06295, 0xf9dcbbac, 0x79be667e,
    0xfb10d4b8, 0x9c47d08f, 0xa6855419, 0xfd17b448, 0x0e1108a8, 0x5da4fbfc, 0x26a3c465, 0x483ada77,
];
const SECP_2G: [u32; 16] = [
    0x5c709ee5, 0xabac09b9, 0x8cef3ca7, 0x5c778e4b, 0x95c07cd8, 0x3045406e, 0x41ed7d6d, 0xc6047f94,
    0x50cfe52a, 0x236431a9, 0x3266d0e1, 0xf7f63265, 0x466ceaee, 0xa3c58419, 0xa63dc339, 0x1ae168fe,
];
const BN_G: [u32; 16] = [1, 0, 0, 0, 0, 0, 0, 0, 2, 0, 0, 0, 0, 0, 0, 0];
const BN_2G: [u32; 16] = [
    0x6d87cfd3, 0xd3c208c1, 0x16871ca8, 0xd97816a9, 0x68181585, 0x9b85045b, 0x2e131a02, 0x030644e7,
    0x5a18a2c4, 0xff3ebf7a, 0xe3538fc7, 0x68a6a449, 0xb2ae9c0a, 0xe7845f96, 0x0e0a7c92, 0x15ed738c,
];
const BLS_G: [u32; 24] = [
    0xdb22c6bb, 0xfb3af00a, 0xf97a1aef, 0x6c55e83f, 0x171bac58, 0xa14e3a3f, 0x9774b905, 0xc3688c4f,
    0x4fa9ac0f, 0x2695638c, 0x3197d794, 0x17f1d3a7, 0x46c5e7e1, 0x0caa2329, 0xa2888ae4, 0xd03cc744,
    0x2c04b3ed, 0x00db18cb, 0xd5d00af6, 0xfcf5e095, 0x741d8ae4, 0xa09e30ed, 0xe3aaa0f1, 0x08b3f481,
];
const BLS_2G: [u32; 24] = [
    0x29bf0f4e, 0xc39a8c55, 0x8f1c7c42, 0xe28f75bb, 0xc358a62a, 0x43902d0a, 0x91280125, 0x9721db30,
    0x50a9450c, 0x8808c8eb, 0x904d6746, 0x0572cbea, 0x79749d28, 0xba868819, 0xcd16bd1b, 0x4c56d9d4,
    0x1d5fd76a, 0xf73bb902, 0x8670e461, 0x22ba3ecb, 0x779d8e38, 0x22fda673, 0xabc673a3, 0x166a9d8c,
];

fn event(before: &[u32], after: &[u32]) -> EllipticCurveDoubleEvent {
    EllipticCurveDoubleEvent {
        shard: 1,
        channel: 0,
        clk: 40,
        p_ptr: 0x1000,
        p_memory_records: before
            .iter()
            .zip(after.iter())
            .map(|(p, v)| MemoryRecordEvent { prev_shard: 1, prev_clk: 4, prev_value: *p, value: *v })
            .collect(),
    }
}

fn record(curve: CurveType, events: Vec<EllipticCurveDoubleEvent>) -> ExecutionRecord {
    let mut r = ExecutionRecord {
        secp256k1_double_events: vec![],
        bn254_double_events: vec![],
        bls12381_double_events: vec![],
        byte_lookups: vec![],
    };
    match curve {
        CurveType::Secp256k1 => r.secp256k1_double_events = events,
        CurveType::Bn254 => r.bn254_double_events = events,
        CurveType::Bls12381 => r.bls12381_double_events = events,
    }
    r
}

fn limbs(words: &[u32]) -> Vec<u8> {
    words.iter().flat_map(|w| w.to_le_bytes()).collect()
}

fn double_and_check(curve: CurveType, g: &[u32], g2: &[u32]) {
    let chip = WeierstrassDoubleAssignChip::new(curve);
    let input = record(curve, vec![event(g, g2)]);
    let mut output = record(curve, vec![]);
    assert!(chip.included(&input));
    assert!(!chip.included(&output));
    let rows = chip.generate_trace(&input, &mut output);
    assert_eq!(rows.len(), 16);
    let half = g.len() / 2;
    assert_eq!(rows[0].x3_ins.result, limbs(&g2[..half]));
    assert_eq!(rows[0].y3_ins.result, limbs(&g2[half..]));
    assert!(rows[0].is_real);
    assert!(rows[1..].iter().all(|r| !r.is_real));
    assert!(rows.iter().enumerate().all(|(i, r)| r.nonce as usize == i));
    assert!(chip.eval_trace(&rows));
    assert_eq!(output.byte_lookups.len(), 22 * half * 4);
    let claim = chip.syscall_claim(&rows[0]);
    assert_eq!(claim.arg1, 0x1000);
    assert_eq!(claim.multiplicity, 1);
    assert_eq!(chip.syscall_claim(&rows[1]).multiplicity, 0);
}

#[test]
fn test_secp256k1_double_simple() {
    double_and_check(CurveType::Secp256k1, &SECP_G, &SECP_2G);
}

#[test]
fn test_bn254_double_simple() {
    double_and_check(CurveType::Bn254, &BN_G, &BN_2G);
}

#[test]
fn test_bls12381_double_simple() {
    double_and_check(CurveType::Bls12381, &BLS_G, &BLS_2G);
}

#[test]
fn wrong_written_point_fails() {
    let chip = WeierstrassDoubleAssignChip::new(CurveType::Secp256k1);
    let mut bad = SECP_2G;
    bad[0] ^= 1;
    let input = record(CurveType::Secp256k1, vec![event(&SECP_G, &bad)]);
    let mut output = record(CurveType::Secp256k1, vec![]);
    let rows = chip.generate_trace(&input, &mut output);
    assert!(!chip.eval(&rows[0]));
    assert!(!chip.eval_trace(&rows));
}

#[test]
fn broken_nonce_chain_fails() {
    let chip = WeierstrassDoubleAssignChip::new(CurveType::Bn254);
    let input = record(CurveType::Bn254, vec![event(&BN_G, &BN_2G)]);
    let mut output = record(CurveType::Bn254, vec![]);
    let mut rows = chip.generate_trace(&input, &mut output);
    rows[3].nonce = 7;
    assert!(!chip.eval_trace(&rows));
}

#[test]
fn same_events_give_same_trace() {
    let chip = WeierstrassDoubleAssignChip::new(CurveType::Secp256k1);
    let input = record(
        CurveType::Secp256k1,
        vec![event(&SECP_G, &SECP_2G), event(&SECP_2G, &SECP_2G)],
    );
    let mut out1 = record(CurveType::Secp256k1, vec![]);
    let mut out2 = record(CurveType::Secp256k1, vec![]);
    let rows1 = chip.generate_trace(&input, &mut out1);
    let rows2 = chip.generate_trace(&input, &mut out2);
    assert!(rows1 == rows2);
    assert!(out1 == out2);
}

#[test]
fn double_padding_row_satisfies_constraints() {
    for curve in [CurveType::Secp256k1, CurveType::Bn254, CurveType::Bls12381] {
        let chip = WeierstrassDoubleAssignChip::new(curve);
        let row = chip.padding_row();
        assert!(!row.is_real);
        assert!(chip.eval(&row));
    }
}

#[test]
fn trace_height_grows_by_powers_of_two() {
    let chip = WeierstrassDoubleAssignChip::new(CurveType::Bn254);
    let events: Vec<_> = (0..17).map(|_| event(&BN_G, &BN_2G)).collect();
    let input = record(CurveType::Bn254, events);
    let mut output = record(CurveType::Bn254, vec![]);
    let rows = chip.generate_trace(&input, &mut output);
    assert_eq!(rows.len(), 32);
    assert_eq!(rows.iter().filter(|r| r.is_real).count(), 17);
}

#[test]
fn names_and_widths() {
    let secp = WeierstrassDoubleAssignChip::new(CurveType::Secp256k1);
    let bls = WeierstrassDoubleAssignChip::new(CurveType::Bls12381);
    assert_eq!(secp.name(), "Secp256k1DoubleAssign");
    assert_eq!(WeierstrassDoubleAssignChip::new(CurveType::Bn254).name(), "Bn254DoubleAssign");
    assert_eq!(bls.name(), "Bls12381DoubleAssign");
    assert_eq!(secp.width(), 6 + 160 + 704);
    assert_eq!(bls.width(), num_weierstrass_double_cols(CurveType::Bls12381));
    assert_eq!(bls.width(), 6 + 240 + 1056);
}

#[test]
fn doubling_memory_claims() {
    let chip = WeierstrassDoubleAssignChip::new(CurveType::Secp256k1);
    let input = record(CurveType::Secp256k1, vec![event(&SECP_G, &SECP_2G)]);
    let mut output = record(CurveType::Secp256k1, vec![]);
    let rows = chip.generate_trace(&input, &mut output);
    let claims = chip.memory_claims(&rows[0]);
    assert_eq!(claims.len(), 32);
    assert!(!claims[0].is_send && claims[1].is_send);
    assert_eq!(claims[2].addr, 0x1004);
    assert_eq!(claims[2].value.reduce(), SECP_G[1]);
    assert_eq!(claims[3].value.reduce(), SECP_2G[1]);
    assert_eq!(claims[3].clk, 40);
    assert!(chip.memory_claims(&rows[1]).iter().all(|c| c.multiplicity == 0));
}

#[test]
fn slope_column_holds_tangent_slope() {
    let chip = WeierstrassDoubleAssignChip::new(CurveType::Secp256k1);
    let input = record(CurveType::Secp256k1, vec![event(&SECP_G, &SECP_2G)]);
    let mut output = record(CurveType::Secp256k1, vec![]);
    let rows = chip.generate_trace(&input, &mut output);
    let lambda: Vec<u8> = [
        0xcb35b284u32, 0x28101a30, 0x3eb9d123, 0x5992ac63, 0xf58857c2, 0xf631ee69, 0x36d3aebb,
        0xeddcd1b1,
    ]
    .iter()
    .rev()
    .flat_map(|w| w.to_le_bytes())
    .collect();
    assert_eq!(rows[0].slope.result, lambda);
    assert!(output.byte_lookups.iter().all(|e| e.shard == 1 && e.channel == 0));
}

#[test]
fn doubling_padding_rows_are_zero() {
    let chip = WeierstrassDoubleAssignChip::new(CurveType::Bls12381);
    let input = record(CurveType::Bls12381, vec![event(&BLS_G, &BLS_2G)]);
    let mut output = record(CurveType::Bls12381, vec![]);
    let rows = chip.generate_trace(&input, &mut output);
    for (i, r) in rows.iter().enumerate().skip(1) {
        assert!(!r.is_real && r.shard == 0 && r.clk == 0 && r.p_ptr == 0);
        assert_eq!(r.nonce as usize, i);
        assert!(r.p_access.iter().all(|m| m.prev_value.reduce() == 0 && m.value.reduce() == 0));
        assert!(r.x3_ins.result.iter().all(|b| *b == 0));
        assert_eq!(r.slope.result.len(), 48);
    }
}

#[test]
fn access_before_its_predecessor_fails() {
    let chip = WeierstrassDoubleAssignChip::new(CurveType::Secp256k1);
    let mut e = event(&SECP_G, &SECP_2G);
    e.p_memory_records[5].prev_clk = 41;
    let input = record(CurveType::Secp256k1, vec![e]);
    let mut output = record(CurveType::Secp256k1, vec![]);
    let rows = chip.generate_trace(&input, &mut output);
    assert!(!chip.eval(&rows[0]));
    let mut same_clock = rows[0].clone();
    same_clock.p_access[5].prev_clk = 40;
    assert!(!chip.eval(&same_clock));
    same_clock.p_access[5].prev_clk = 39;
    assert!(chip.eval(&same_clock));
}
