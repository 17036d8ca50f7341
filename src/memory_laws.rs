use vstd::prelude::*;
use crate::bus::{InstructionClaim, Opcode};
use crate::field::BABYBEAR_P;
use crate::memory_air::{
    addr_claim, address_and_access_hold, constraints_hold, load_holds, memory_claims_of,
    most_sig_byte_decomp_holds, offset_flags_hold, opcode_of, receive_claim, sign_extend_claim,
    store_holds, unsigned_mem_value_holds, word_range_holds,
};
use crate::memory_columns::{
    b2i, bits6, bits8, MemoryAccessCols, MemoryInstructionsColumns, WordRangeCheckerCols,
};
use crate::memory_trace::{event_addr, loaded_unsigned, populated, MemInstrEvent};
use crate::word::{word_of, Word};

verus! {

/// A word that passes the word check is below the field modulus.
pub proof fn lemma_word_range_below_modulus(w: Word, c: WordRangeCheckerCols)
    requires
        word_range_holds(w, c),
    ensures
        w.value() < BABYBEAR_P,
{
    let d = c.most_sig_byte_decomp;
    if d@[3] && d@[4] && d@[5] && d@[6] {
        assert(w.b3 == 0x78);
    } else {
        assert(w.b3 <= 0x77);
    }
}

/// On a real row that meets the constraints, the address splits exactly into an aligned
/// part and an offset below four, and the aligned part is a multiple of four.
pub proof fn lemma_address_decomposition(r: MemoryInstructionsColumns)
    requires
        r.wf(),
        constraints_hold(r),
        r.selector_sum() == 1,
    ensures
        r.addr_word.value() == r.addr_aligned + r.addr_offset,
        r.addr_offset < 4,
        r.addr_aligned % 4 == 0,
        r.addr_offset == r.flag_offset(),
{
    let p = BABYBEAR_P as int;
    lemma_word_range_below_modulus(r.addr_word, r.addr_word_range_checker);
    let off = r.flag_offset();
    assert(r.addr_offset == off);
    let low = 4 * bits6(r.addr_aligned_least_sig_byte_decomp);
    assert(0 <= low <= 252);
    if r.addr_word.b0 < off {
        assert((r.addr_word.b0 - off) % p == p + r.addr_word.b0 - off);
        assert(low % p == low);
        assert(false);
    }
    let v = r.addr_word.value();
    if r.addr_aligned + r.addr_offset != v {
        assert(r.addr_aligned + r.addr_offset == v + p);
        assert(v <= 2);
        assert(r.addr_word.b0 == v);
        assert(false);
    }
    assert(r.addr_word.b0 - off == low);
}

/// What a store of `op` writes over `prev` when storing `a` at byte `offset`.
pub open spec fn store_blend(op: Opcode, prev: Word, a: Word, offset: int) -> Word {
    match op {
        Opcode::SB => Word {
            b0: if offset == 0 { a.b0 } else { prev.b0 },
            b1: if offset == 1 { a.b0 } else { prev.b1 },
            b2: if offset == 2 { a.b0 } else { prev.b2 },
            b3: if offset == 3 { a.b0 } else { prev.b3 },
        },
        Opcode::SH => Word {
            b0: if offset == 0 { a.b0 } else { prev.b0 },
            b1: if offset == 0 { a.b1 } else { prev.b1 },
            b2: if offset == 2 { a.b0 } else { prev.b2 },
            b3: if offset == 2 { a.b1 } else { prev.b3 },
        },
        _ => a,
    }
}

/// The store opcode that a row's selectors pick.
pub open spec fn store_opcode(r: MemoryInstructionsColumns) -> Opcode {
    if r.is_sb {
        Opcode::SB
    } else if r.is_sh {
        Opcode::SH
    } else {
        Opcode::SW
    }
}

/// On a store row that meets the constraints, the written value is the blend of the
/// previous value and `op_a_value` at the row's offset; halves land at an even offset and
/// words at offset zero.
pub proof fn lemma_store_blend(r: MemoryInstructionsColumns)
    requires
        r.wf(),
        constraints_hold(r),
        r.is_store(),
    ensures
        r.memory_access.value == store_blend(
            store_opcode(r),
            r.memory_access.prev_value,
            r.op_a_value,
            r.addr_offset as int,
        ),
        r.is_sh ==> r.addr_offset == 0 || r.addr_offset == 2,
        r.is_sw ==> r.addr_offset == 0,
{
    lemma_address_decomposition(r);
}

/// On a store row whose offset flags are sound, the store constraints hold exactly when the
/// written value is the blend of `op_a_value` into the previous value at the flags' offset,
/// with halves at an even offset and words at offset zero.
pub proof fn lemma_store_constraints_iff_blend(r: MemoryInstructionsColumns)
    requires
        r.is_store(),
        r.selector_sum() == 1,
        offset_flags_hold(r),
    ensures
        store_holds(r) <==> {
            &&& r.memory_access.value == store_blend(
                store_opcode(r),
                r.memory_access.prev_value,
                r.op_a_value,
                r.flag_offset(),
            )
            &&& r.is_sh ==> (r.flag_offset() == 0 || r.flag_offset() == 2)
            &&& r.is_sw ==> r.flag_offset() == 0
        },
{
}

/// A word store at a nonzero offset cannot meet the constraints.
pub proof fn lemma_misaligned_word_store_unsatisfiable(r: MemoryInstructionsColumns)
    requires
        r.wf(),
        r.is_sw,
        r.addr_offset != 0,
    ensures
        !constraints_hold(r),
{
    if constraints_hold(r) {
        lemma_store_blend(r);
    }
}

/// On a load row that meets the constraints, memory is left as it was.
pub proof fn lemma_load_keeps_memory(r: MemoryInstructionsColumns)
    requires
        constraints_hold(r),
        r.is_load(),
    ensures
        r.memory_access.value == r.memory_access.prev_value,
{
}

/// A load into x0 leaves `op_a_value` free: any value there meets the constraints just as
/// well, and the row still receives its instruction once with the right opcode.
pub proof fn lemma_load_to_x0_leaves_value_free(r: MemoryInstructionsColumns, w: Word)
    requires
        constraints_hold(r),
        r.is_load(),
        r.op_a_0,
    ensures
        constraints_hold(MemoryInstructionsColumns { op_a_value: w, ..r }),
        receive_claim(MemoryInstructionsColumns { op_a_value: w, ..r }) == (InstructionClaim {
            a: w,
            ..receive_claim(r)
        }),
        receive_claim(r).multiplicity == 1,
        !receive_claim(r).is_send,
        receive_claim(r).op_a_0,
        !receive_claim(r).is_memory_store,
        receive_claim(r).opcode == (if r.is_lb {
            Opcode::LB.id()
        } else if r.is_lbu {
            Opcode::LBU.id()
        } else if r.is_lh {
            Opcode::LH.id()
        } else if r.is_lhu {
            Opcode::LHU.id()
        } else {
            Opcode::LW.id()
        }),
{
    let r2 = MemoryInstructionsColumns { op_a_value: w, ..r };
    assert(b2i(r.mem_value_is_pos_not_x0) == 0) by (nonlinear_arith)
        requires
            b2i(r.mem_value_is_pos_not_x0) == (((b2i(r.is_lb) + b2i(r.is_lh)) * (1 - b2i(
                r.most_sig_byte_decomp@[7],
            )) + b2i(r.is_lbu) + b2i(r.is_lhu) + b2i(r.is_lw)) * (1 - b2i(r.op_a_0))),
            r.op_a_0,
    ;
    assert(!r.is_sb && !r.is_sh && !r.is_sw);
    assert(load_holds(r2));
    assert(store_holds(r2));
    assert(address_and_access_hold(r2));
    assert(Opcode::LB.id() == 10 && Opcode::LBU.id() == 13 && Opcode::LH.id() == 11
        && Opcode::LHU.id() == 14 && Opcode::LW.id() == 12 && Opcode::SB.id() == 15
        && Opcode::SH.id() == 16 && Opcode::SW.id() == 17);
    if r.is_lb {
        assert(!r.is_lbu && !r.is_lh && !r.is_lhu && !r.is_lw);
        assert(opcode_of(r) == 10);
    } else if r.is_lbu {
        assert(!r.is_lh && !r.is_lhu && !r.is_lw);
        assert(opcode_of(r) == 13);
    } else if r.is_lh {
        assert(!r.is_lhu && !r.is_lw);
        assert(opcode_of(r) == 11);
    } else if r.is_lhu {
        assert(!r.is_lw);
        assert(opcode_of(r) == 14);
    } else {
        assert(opcode_of(r) == 12);
    }
    assert(opcode_of(r) == if r.is_lb {
        Opcode::LB.id()
    } else if r.is_lbu {
        Opcode::LBU.id()
    } else if r.is_lh {
        Opcode::LH.id()
    } else if r.is_lhu {
        Opcode::LHU.id()
    } else {
        Opcode::LW.id()
    });
}

/// The row that fills the trace after the real rows: every column zero.
pub fn padding_row() -> (r: MemoryInstructionsColumns)
    ensures
        r.wf(),
        r.selector_sum() == 0,
        constraints_hold(r),
        addr_claim(r).multiplicity == 0,
        sign_extend_claim(r).multiplicity == 0,
        receive_claim(r).multiplicity == 0,
        memory_claims_of(r)[0].multiplicity == 0,
        memory_claims_of(r)[1].multiplicity == 0,
{
    let z = Word::zero();
    let r = MemoryInstructionsColumns {
        shard: 0,
        clk: 0,
        pc: 0,
        op_a_value: z,
        op_b_value: z,
        op_c_value: z,
        op_a_0: false,
        is_lb: false,
        is_lbu: false,
        is_lh: false,
        is_lhu: false,
        is_lw: false,
        is_sb: false,
        is_sh: false,
        is_sw: false,
        addr_word: z,
        addr_word_range_checker: WordRangeCheckerCols {
            most_sig_byte_decomp: [false, false, false, false, false, false, false, false],
            and_most_sig_byte_decomp_3_to_5: false,
            and_most_sig_byte_decomp_3_to_6: false,
            and_most_sig_byte_decomp_3_to_7: false,
        },
        addr_word_nonce: 0,
        addr_aligned: 0,
        addr_aligned_least_sig_byte_decomp: [false, false, false, false, false, false],
        addr_offset: 0,
        offset_is_one: false,
        offset_is_two: false,
        offset_is_three: false,
        memory_access: MemoryAccessCols { prev_value: z, value: z, prev_shard: 0, prev_clk: 0 },
        unsigned_mem_val: z,
        unsigned_mem_val_nonce: 0,
        most_sig_byte_decomp: [false, false, false, false, false, false, false, false],
        mem_value_is_neg_not_x0: false,
        mem_value_is_pos_not_x0: false,
    };
    assert(r.memory_access.value == r.memory_access.prev_value);
    assert(bits8(r.most_sig_byte_decomp) == 0);
    assert(bits6(r.addr_aligned_least_sig_byte_decomp) == 0);
    r
}

/// An event that the executor could have made: a field-sized address, a later access time,
/// aligned halves and words, a load that leaves memory alone and (unless its value is
/// negative, which the ALU checks) writes the loaded value, and a store that writes the blend.
pub open spec fn event_valid(e: MemInstrEvent) -> bool {
    let p = BABYBEAR_P as int;
    let addr = event_addr(e);
    let off = addr % 4;
    let m = word_of(e.mem_access.value);
    let u = loaded_unsigned(e.opcode, m, off);
    let negative = (e.opcode == Opcode::LB && u.b0 >= 128) || (e.opcode == Opcode::LH && u.b1
        >= 128);
    &&& e.opcode.is_memory()
    &&& addr < BABYBEAR_P
    &&& (e.mem_access.prev_shard as int) % p < (e.shard as int) % p || ((e.mem_access.prev_shard
        as int) % p == (e.shard as int) % p && (e.mem_access.prev_clk as int) % p < ((e.clk as int)
        % p + 4) % p)
    &&& e.opcode.is_load() ==> e.mem_access.value == e.mem_access.prev_value
    &&& (e.opcode == Opcode::LH || e.opcode == Opcode::LHU || e.opcode == Opcode::SH) ==> off % 2
        == 0
    &&& (e.opcode == Opcode::LW || e.opcode == Opcode::SW) ==> off == 0
    &&& (e.opcode.is_load() && !e.op_a_0 && !negative) ==> word_of(e.a) == u
    &&& e.opcode.is_store() ==> m == store_blend(
        e.opcode,
        word_of(e.mem_access.prev_value),
        word_of(e.a),
        off,
    )
}

proof fn lemma_populated_address(row: MemoryInstructionsColumns, e: MemInstrEvent)
    requires
        populated(row, e),
        event_valid(e),
    ensures
        row.selector_sum() == 1,
        row.flag_offset() == event_addr(e) % 4,
        address_and_access_hold(row),
{
    let p = BABYBEAR_P as int;
    let addr = event_addr(e);
    vstd::arithmetic::div_mod::lemma_small_mod((addr - addr % 4) as nat, p as nat);
    assert(row.addr_aligned + row.addr_offset == addr);
}

proof fn lemma_populated_load(row: MemoryInstructionsColumns, e: MemInstrEvent)
    requires
        populated(row, e),
        event_valid(e),
        row.selector_sum() == 1,
        row.flag_offset() == event_addr(e) % 4,
    ensures
        load_holds(row),
{
    let off = event_addr(e) % 4;
    if e.opcode.is_load() {
        assert(unsigned_mem_value_holds(row));
        assert(most_sig_byte_decomp_holds(row));
        if e.opcode == Opcode::LB || e.opcode == Opcode::LH {
            assert(row.mem_value_is_pos_not_x0 ==> row.op_a_value == row.unsigned_mem_val);
        }
    } else {
        assert(!row.is_lb && !row.is_lbu && !row.is_lh && !row.is_lhu && !row.is_lw);
    }
}

proof fn lemma_populated_store(row: MemoryInstructionsColumns, e: MemInstrEvent)
    requires
        populated(row, e),
        event_valid(e),
        row.selector_sum() == 1,
        row.flag_offset() == event_addr(e) % 4,
        address_and_access_hold(row),
    ensures
        store_holds(row),
{
}

/// Trace generation is complete: the row made from a valid event meets every constraint.
pub proof fn lemma_populated_row_satisfies_constraints(row: MemoryInstructionsColumns, e: MemInstrEvent)
    requires
        populated(row, e),
        event_valid(e),
    ensures
        constraints_hold(row),
{
    lemma_populated_address(row, e);
    lemma_populated_load(row, e);
    lemma_populated_store(row, e);
}

} // verus!
