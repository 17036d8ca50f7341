use zkvm_core::bus::{Opcode, UNUSED_PC};
use zkvm_core::memory_air::MemoryInstructionsChip;
use zkvm_core::memory_laws::padding_row;
use zkvm_core::memory_trace::{populate, MemInstrEvent, MemoryRecordEvent};
use zkvm_core::word::Word;

fn event(opcode: Opcode, a: u32, b: u32, c: u32, prev: u32, value: u32) -> MemInstrEvent {
    MemInstrEvent {
        shard: 1,
        clk: 8,
        pc: 0x2000,
        opcode,
        a,
        b,
        c,
        op_a_0: false,
        mem_access: MemoryRecordEvent { prev_shard: 1, prev_clk: 3, prev_value: prev, value },
        addr_word_nonce: 5,
        unsigned_mem_val_nonce: 6,
    }
}

fn word(b0: u8, b1: u8, b2: u8, b3: u8) -> Word {
    Word { b0, b1, b2, b3 }
}

#[test]
fn lb_sign_extends_negative_byte() {
    let row = populate(&event(Opcode::LB, 0xFFFF_FF80, 0x100, 0, 0xFFFF_FF80, 0xFFFF_FF80));
    assert_eq!(row.addr_offset, 0);
    assert_eq!(row.addr_aligned, 0x100);
    assert_eq!(row.unsigned_mem_val, word(0x80, 0, 0, 0));
    assert!(row.mem_value_is_neg_not_x0);
    assert!(!row.mem_value_is_pos_not_x0);
    assert_eq!(row.op_a_value.reduce(), 0xFFFF_FF80);
    let chip = MemoryInstructionsChip;
    assert!(chip.eval(&row));
    let claims = chip.instruction_claims(&row);
    assert_eq!(claims[1].multiplicity, 1);
    assert_eq!(claims[1].opcode, Opcode::SUB.as_field());
    assert_eq!(claims[1].c, word(0, 1, 0, 0));
    assert_eq!(claims[2].opcode, Opcode::LB.as_field());
    assert_eq!(claims[2].multiplicity, 1);
}

#[test]
fn lbu_zero_extends_without_sub_claim() {
    let row = populate(&event(Opcode::LBU, 0x80, 0x100, 0, 0xFFFF_FF80, 0xFFFF_FF80));
    assert_eq!(row.unsigned_mem_val, word(0x80, 0, 0, 0));
    assert!(!row.mem_value_is_neg_not_x0);
    assert!(row.mem_value_is_pos_not_x0);
    let chip = MemoryInstructionsChip;
    assert!(chip.eval(&row));
    let claims = chip.instruction_claims(&row);
    assert_eq!(claims[1].multiplicity, 0);
    // A wrong destination value is caught locally.
    let mut bad = row;
    bad.op_a_value = Word::from_u32(0xFFFF_FF80);
    assert!(!chip.eval(&bad));
}

#[test]
fn lh_at_offset_two() {
    let row = populate(&event(Opcode::LH, 0xFFFF_DEAD, 0x102, 0, 0xDEAD_BEEF, 0xDEAD_BEEF));
    assert_eq!(row.addr_offset, 2);
    assert_eq!(row.addr_aligned, 0x100);
    assert!(row.offset_is_two);
    assert_eq!(row.unsigned_mem_val, word(0xAD, 0xDE, 0, 0));
    assert!(row.most_sig_byte_decomp[7]);
    assert!(row.mem_value_is_neg_not_x0);
    assert!(MemoryInstructionsChip.eval(&row));
}

#[test]
fn sb_at_offset_one() {
    let row = populate(&event(Opcode::SB, 0x0000_00AA, 0x100, 1, 0x1122_3344, 0x1122_AA44));
    assert_eq!(row.addr_offset, 1);
    assert_eq!(row.memory_access.value.reduce(), 0x1122_AA44);
    let chip = MemoryInstructionsChip;
    assert!(chip.eval(&row));
    assert!(chip.instruction_claims(&row)[2].is_memory_store);
    let wrong = populate(&event(Opcode::SB, 0x0000_00AA, 0x100, 1, 0x1122_3344, 0x1122_33AA));
    assert!(!chip.eval(&wrong));
}

#[test]
fn sh_and_sw_aligned_stores() {
    let chip = MemoryInstructionsChip;
    let sh = populate(&event(Opcode::SH, 0xBEEF, 0x102, 0, 0x1122_3344, 0xBEEF_3344));
    assert!(chip.eval(&sh));
    let sw = populate(&event(Opcode::SW, 0xCAFE_F00D, 0x100, 0, 0x1122_3344, 0xCAFE_F00D));
    assert!(chip.eval(&sw));
}

#[test]
fn sw_misaligned_is_unsatisfiable() {
    let chip = MemoryInstructionsChip;
    for value in [0x1122_3344u32, 0xCAFE_F00D, 0xF00D_3344, 0x0D33_4411] {
        let row = populate(&event(Opcode::SW, 0xCAFE_F00D, 0x101, 0, 0x1122_3344, value));
        assert!(!chip.eval(&row));
    }
}

#[test]
fn lw_reads_the_word() {
    let row = populate(&event(Opcode::LW, 0x1234_5678, 0xFC, 4, 0x1234_5678, 0x1234_5678));
    assert_eq!(row.unsigned_mem_val.reduce(), 0x1234_5678);
    assert!(MemoryInstructionsChip.eval(&row));
}

#[test]
fn load_to_x0_receives_any_value() {
    let mut e = event(Opcode::LB, 0, 0x100, 0, 0xFFFF_FF80, 0xFFFF_FF80);
    e.op_a_0 = true;
    let mut row = populate(&e);
    assert!(!row.mem_value_is_neg_not_x0 && !row.mem_value_is_pos_not_x0);
    let chip = MemoryInstructionsChip;
    assert!(chip.eval(&row));
    row.op_a_value = Word::from_u32(0xDEAD_BEEF);
    assert!(chip.eval(&row));
    let receive = chip.instruction_claims(&row)[2];
    assert!(receive.op_a_0);
    assert_eq!(receive.multiplicity, 1);
    assert_eq!(receive.next_pc, 0x2004);
}

#[test]
fn load_that_changes_memory_fails() {
    let row = populate(&event(Opcode::LW, 0x1234_5678, 0x100, 0, 0x1234_5678, 0x1234_5679));
    assert!(!MemoryInstructionsChip.eval(&row));
}

#[test]
fn address_claim_and_memory_claims() {
    let row = populate(&event(Opcode::LW, 7, 0x1000, 0x24, 7, 7));
    let chip = MemoryInstructionsChip;
    let add = chip.instruction_claims(&row)[0];
    assert_eq!(add.pc, UNUSED_PC);
    assert_eq!(add.opcode, Opcode::ADD.as_field());
    assert_eq!(add.a.reduce(), 0x1024);
    assert_eq!(add.nonce, 5);
    let mem = chip.memory_claims(&row);
    assert_eq!(mem[0].clk, 3);
    assert_eq!(mem[1].clk, 12);
    assert_eq!(mem[1].addr, 0x1024);
}

#[test]
fn address_above_field_fails_word_check() {
    let row = populate(&event(Opcode::LW, 7, 0xF000_0000, 0, 7, 7));
    assert!(!MemoryInstructionsChip.eval(&row));
}

#[test]
fn memory_padding_row_satisfies_constraints() {
    let row = padding_row();
    let chip = MemoryInstructionsChip;
    assert!(chip.eval(&row));
    assert!(chip.instruction_claims(&row).iter().all(|c| c.multiplicity == 0));
    assert!(chip.memory_claims(&row).iter().all(|c| c.multiplicity == 0));
}

#[test]
fn word_round_trips() {
    let w = Word::from_u32(0xDEAD_BEEF);
    assert_eq!(w, word(0xEF, 0xBE, 0xAD, 0xDE));
    assert_eq!(w.reduce(), 0xDEAD_BEEF);
    assert_eq!(w.get(2), 0xAD);
}

#[test]
fn memory_trace_pads_with_zero_rows() {
    let chip = MemoryInstructionsChip;
    let events = vec![
        event(Opcode::LW, 7, 0x100, 0, 7, 7),
        event(Opcode::SB, 0xAA, 0x100, 1, 0x1122_3344, 0x1122_AA44),
        event(Opcode::LB, 0xFFFF_FF80, 0x100, 0, 0xFFFF_FF80, 0xFFFF_FF80),
    ];
    let rows = chip.generate_trace(&events);
    assert_eq!(rows.len(), 16);
    assert!(rows.iter().all(|r| chip.eval(r)));
    assert!(rows[0].is_lw && rows[1].is_sb && rows[2].is_lb);
    assert!(rows[3..].iter().all(|r| *r == padding_row()));
}

#[test]
fn address_splits_into_aligned_and_offset() {
    for (b, c) in [(0x100u32, 3u32), (0x0FFF_FFFF, 2), (0xFFFF_FFFF, 1), (0x7000_0001, 0)] {
        let row = populate(&event(Opcode::LBU, 0, b, c, 0, 0));
        assert_eq!(row.addr_word.reduce(), b.wrapping_add(c));
        assert_eq!(row.addr_aligned + row.addr_offset, b.wrapping_add(c));
        assert_eq!(row.addr_aligned % 4, 0);
        assert!(row.addr_offset < 4);
    }
}

#[test]
fn memory_chip_framework() {
    let chip = MemoryInstructionsChip;
    assert_eq!(chip.name(), "MemoryInstrs");
    assert_eq!(chip.width(), 76);
    assert!(!chip.included(&vec![]));
    assert!(chip.included(&vec![event(Opcode::LW, 7, 0x100, 0, 7, 7)]));
}
