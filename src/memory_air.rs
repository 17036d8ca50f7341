use vstd::prelude::*;
use vstd::arithmetic::div_mod::lemma_mod_add_multiples_vanish;
use crate::bus::{
    InstructionClaim, MemoryAccessPosition, MemoryClaim, Opcode, DEFAULT_PC_INC, UNUSED_PC,
};
use crate::field::BABYBEAR_P;
use crate::memory_columns::{
    b2i, bits6, bits8, felt_eq, MemoryInstructionsColumns, WordRangeCheckerCols,
};
use crate::word::Word;

verus! {

/// The chip that checks loads and stores of the 32-bit instruction set.
#[derive(Clone, Copy, Debug)]
pub struct MemoryInstructionsChip;

/// The word check of the field: the bits recompose the top byte, bit 7 is clear, the
/// running products are right, and a top byte of `0x78` or more leaves only `0x78000000`.
pub open spec fn word_range_holds(w: Word, c: WordRangeCheckerCols) -> bool {
    let d = c.most_sig_byte_decomp;
    &&& bits8(d) == w.b3
    &&& !d@[7]
    &&& c.and_most_sig_byte_decomp_3_to_5 == (d@[3] && d@[4])
    &&& c.and_most_sig_byte_decomp_3_to_6 == (c.and_most_sig_byte_decomp_3_to_5 && d@[5])
    &&& c.and_most_sig_byte_decomp_3_to_7 == (c.and_most_sig_byte_decomp_3_to_6 && d@[6])
    &&& c.and_most_sig_byte_decomp_3_to_7 ==> (!d@[0] && !d@[1] && !d@[2] && w.b0 == 0 && w.b1
        == 0 && w.b2 == 0)
}

/// At most one offset flag is set, and the set one (or none, for zero) gives `addr_offset`.
pub open spec fn offset_flags_hold(r: MemoryInstructionsColumns) -> bool {
    &&& b2i(r.offset_is_one) + b2i(r.offset_is_two) + b2i(r.offset_is_three) <= 1
    &&& r.offset_is_zero() ==> felt_eq(r.addr_offset as int, 0)
    &&& r.offset_is_one ==> felt_eq(r.addr_offset as int, 1)
    &&& r.offset_is_two ==> felt_eq(r.addr_offset as int, 2)
    &&& r.offset_is_three ==> felt_eq(r.addr_offset as int, 3)
}

/// The clock of the row's memory access.
pub open spec fn access_clk(r: MemoryInstructionsColumns) -> int {
    (r.clk + MemoryAccessPosition::Memory.offset_spec()) % (BABYBEAR_P as int)
}

/// Address formation and the memory access.
pub open spec fn address_and_access_hold(r: MemoryInstructionsColumns) -> bool {
    let is_real = r.selector_sum() == 1;
    &&& is_real ==> word_range_holds(r.addr_word, r.addr_word_range_checker)
    &&& offset_flags_hold(r)
    &&& is_real ==> felt_eq(r.addr_aligned + r.addr_offset, r.addr_word.value())
    &&& is_real ==> felt_eq(
        r.addr_word.b0 - r.flag_offset(),
        4 * bits6(r.addr_aligned_least_sig_byte_decomp),
    )
    &&& is_real ==> (r.memory_access.prev_shard < r.shard || (r.memory_access.prev_shard
        == r.shard && r.memory_access.prev_clk < access_clk(r)))
    &&& r.is_load() ==> r.memory_access.value == r.memory_access.prev_value
}

/// The byte of the memory word that the offset flags pick.
pub open spec fn mem_byte(r: MemoryInstructionsColumns) -> int {
    let m = r.memory_access.value;
    b2i(r.offset_is_zero()) * m.b0 + b2i(r.offset_is_one) * m.b1 + b2i(r.offset_is_two) * m.b2
        + b2i(r.offset_is_three) * m.b3
}

/// The decoding of the loaded bytes into `unsigned_mem_val`.
pub open spec fn unsigned_mem_value_holds(r: MemoryInstructionsColumns) -> bool {
    let m = r.memory_access.value;
    let u = r.unsigned_mem_val;
    let lo = b2i(r.offset_is_zero());
    let hi = b2i(r.offset_is_two);
    &&& (r.is_lb || r.is_lbu) ==> (u.b0 == mem_byte(r) && u.b1 == 0 && u.b2 == 0 && u.b3 == 0)
    &&& (r.is_lh || r.is_lhu) ==> (!r.offset_is_one && !r.offset_is_three)
    &&& r.is_lw ==> r.offset_is_zero()
    &&& (r.is_lh || r.is_lhu) ==> (u.b0 == lo * m.b0 + hi * m.b2 && u.b1 == lo * m.b1 + hi * m.b3
        && u.b2 == 0 && u.b3 == 0)
    &&& r.is_lw ==> u == m
}

/// The bits of the loaded value's top byte.
pub open spec fn most_sig_byte_decomp_holds(r: MemoryInstructionsColumns) -> bool {
    &&& r.is_lb ==> bits8(r.most_sig_byte_decomp) == r.unsigned_mem_val.b0
    &&& r.is_lh ==> bits8(r.most_sig_byte_decomp) == r.unsigned_mem_val.b1
}

/// The constraints of loads.
pub open spec fn load_holds(r: MemoryInstructionsColumns) -> bool {
    let signed = b2i(r.is_lb) + b2i(r.is_lh);
    let sign = b2i(r.most_sig_byte_decomp@[7]);
    let not_x0 = 1 - b2i(r.op_a_0);
    &&& unsigned_mem_value_holds(r)
    &&& most_sig_byte_decomp_holds(r)
    &&& b2i(r.mem_value_is_neg_not_x0) == signed * sign * not_x0
    &&& b2i(r.mem_value_is_pos_not_x0) == (signed * (1 - sign) + b2i(r.is_lbu) + b2i(r.is_lhu)
        + b2i(r.is_lw)) * not_x0
    &&& r.mem_value_is_pos_not_x0 ==> r.op_a_value == r.unsigned_mem_val
}

/// The value that SB writes: `a`'s low byte at the offset, `prev` elsewhere.
pub open spec fn sb_value(r: MemoryInstructionsColumns) -> Word {
    let a = r.op_a_value;
    let p = r.memory_access.prev_value;
    Word {
        b0: if r.offset_is_zero() { a.b0 } else { p.b0 },
        b1: if r.offset_is_one { a.b0 } else { p.b1 },
        b2: if r.offset_is_two { a.b0 } else { p.b2 },
        b3: if r.offset_is_three { a.b0 } else { p.b3 },
    }
}

/// The value that SH writes: `a`'s low half at the offset, `prev` elsewhere.
pub open spec fn sh_value(r: MemoryInstructionsColumns) -> Word {
    let a = r.op_a_value;
    let p = r.memory_access.prev_value;
    Word {
        b0: if r.offset_is_zero() { a.b0 } else { p.b0 },
        b1: if r.offset_is_zero() { a.b1 } else { p.b1 },
        b2: if r.offset_is_two { a.b0 } else { p.b2 },
        b3: if r.offset_is_two { a.b1 } else { p.b3 },
    }
}

/// The constraints of stores.
pub open spec fn store_holds(r: MemoryInstructionsColumns) -> bool {
    &&& offset_flags_hold(r)
    &&& r.is_sb ==> r.memory_access.value == sb_value(r)
    &&& r.is_sh ==> (!r.offset_is_one && !r.offset_is_three)
    &&& r.is_sw ==> r.offset_is_zero()
    &&& r.is_sh ==> r.memory_access.value == sh_value(r)
    &&& r.is_sw ==> r.memory_access.value == r.op_a_value
}

/// Every row-local constraint of the chip.
pub open spec fn constraints_hold(r: MemoryInstructionsColumns) -> bool {
    &&& r.selector_sum() <= 1
    &&& address_and_access_hold(r)
    &&& load_holds(r)
    &&& store_holds(r)
}

/// The opcode that the selectors encode.
pub open spec fn opcode_of(r: MemoryInstructionsColumns) -> int {
    b2i(r.is_lb) * Opcode::LB.id() + b2i(r.is_lbu) * Opcode::LBU.id() + b2i(r.is_lh)
        * Opcode::LH.id() + b2i(r.is_lhu) * Opcode::LHU.id() + b2i(r.is_lw) * Opcode::LW.id()
        + b2i(r.is_sb) * Opcode::SB.id() + b2i(r.is_sh) * Opcode::SH.id() + b2i(r.is_sw)
        * Opcode::SW.id()
}

/// The ADD claim that the address is `op_b_value + op_c_value`.
pub open spec fn addr_claim(r: MemoryInstructionsColumns) -> InstructionClaim {
    InstructionClaim {
        is_send: true,
        pc: UNUSED_PC,
        next_pc: (UNUSED_PC + DEFAULT_PC_INC) as u32,
        opcode: Opcode::ADD.id(),
        a: r.addr_word,
        b: r.op_b_value,
        c: r.op_c_value,
        op_a_0: false,
        nonce: r.addr_word_nonce,
        is_memory_store: false,
        multiplicity: r.selector_sum() as u32,
    }
}

/// The mask that a negative load subtracts: limb 1 for LB, limb 2 for LH.
pub open spec fn signed_mask(r: MemoryInstructionsColumns) -> Word {
    Word { b0: 0, b1: b2i(r.is_lb) as u8, b2: b2i(r.is_lh) as u8, b3: 0 }
}

/// The SUB claim that sign-extends a negative loaded value into `op_a_value`.
pub open spec fn sign_extend_claim(r: MemoryInstructionsColumns) -> InstructionClaim {
    InstructionClaim {
        is_send: true,
        pc: UNUSED_PC,
        next_pc: (UNUSED_PC + DEFAULT_PC_INC) as u32,
        opcode: Opcode::SUB.id(),
        a: r.op_a_value,
        b: r.unsigned_mem_val,
        c: signed_mask(r),
        op_a_0: false,
        nonce: r.unsigned_mem_val_nonce,
        is_memory_store: false,
        multiplicity: b2i(r.mem_value_is_neg_not_x0) as u32,
    }
}

/// The claim that the row consumed the instruction at `pc`.
pub open spec fn receive_claim(r: MemoryInstructionsColumns) -> InstructionClaim {
    InstructionClaim {
        is_send: false,
        pc: r.pc,
        next_pc: ((r.pc + DEFAULT_PC_INC) % (BABYBEAR_P as int)) as u32,
        opcode: opcode_of(r) as u32,
        a: r.op_a_value,
        b: r.op_b_value,
        c: r.op_c_value,
        op_a_0: r.op_a_0,
        nonce: 0,
        is_memory_store: r.is_store(),
        multiplicity: r.selector_sum() as u32,
    }
}

/// The two memory tuples of the row's access: the old value at its old time is taken, the
/// new value at the row's time is given.
pub open spec fn memory_claims_of(r: MemoryInstructionsColumns) -> Seq<MemoryClaim> {
    seq![
        MemoryClaim {
            is_send: false,
            shard: r.memory_access.prev_shard,
            clk: r.memory_access.prev_clk,
            addr: r.addr_aligned,
            value: r.memory_access.prev_value,
            multiplicity: r.selector_sum() as u32,
        },
        MemoryClaim {
            is_send: true,
            shard: r.shard,
            clk: access_clk(r) as u32,
            addr: r.addr_aligned,
            value: r.memory_access.value,
            multiplicity: r.selector_sum() as u32,
        },
    ]
}

fn bit(b: bool) -> (r: u32)
    ensures
        r == b2i(b),
{
    if b {
        1
    } else {
        0
    }
}

fn bits8_value(d: &[bool; 8]) -> (r: u32)
    ensures
        r == bits8(*d),
{
    bit(d[0]) + 2 * bit(d[1]) + 4 * bit(d[2]) + 8 * bit(d[3]) + 16 * bit(d[4]) + 32 * bit(d[5])
        + 64 * bit(d[6]) + 128 * bit(d[7])
}

fn bits6_value(d: &[bool; 6]) -> (r: u32)
    ensures
        r == bits6(*d),
{
    bit(d[0]) + 2 * bit(d[1]) + 4 * bit(d[2]) + 8 * bit(d[3]) + 16 * bit(d[4]) + 32 * bit(d[5])
}

/// Whether `w` passes the word check of the field, by the columns `c`.
pub fn eval_word_range(w: &Word, c: &WordRangeCheckerCols) -> (ok: bool)
    ensures
        ok == word_range_holds(*w, *c),
{
    let d = &c.most_sig_byte_decomp;
    bits8_value(d) == w.b3 as u32 && !d[7] && c.and_most_sig_byte_decomp_3_to_5 == (d[3] && d[4])
        && c.and_most_sig_byte_decomp_3_to_6 == (c.and_most_sig_byte_decomp_3_to_5 && d[5])
        && c.and_most_sig_byte_decomp_3_to_7 == (c.and_most_sig_byte_decomp_3_to_6 && d[6]) && (
    !c.and_most_sig_byte_decomp_3_to_7 || (!d[0] && !d[1] && !d[2] && w.b0 == 0 && w.b1 == 0
        && w.b2 == 0))
}

fn felt_is(x: u32, v: u32) -> (r: bool)
    requires
        v < BABYBEAR_P,
    ensures
        r == felt_eq(x as int, v as int),
{
    x % BABYBEAR_P == v
}

impl MemoryInstructionsChip {
    /// Whether every row-local constraint holds on `local`.
    pub fn eval(&self, local: &MemoryInstructionsColumns) -> (ok: bool)
        ensures
            ok == constraints_hold(*local),
    {
        let is_real: u32 = bit(local.is_lb) + bit(local.is_lbu) + bit(local.is_lh) + bit(
            local.is_lhu,
        ) + bit(local.is_lw) + bit(local.is_sb) + bit(local.is_sh) + bit(local.is_sw);
        is_real <= 1 && self.eval_memory_address_and_access(local, is_real == 1)
            && self.eval_memory_load(local) && self.eval_memory_store(local)
    }

    /// The claims that the row puts on the instruction bus: the address ADD, the
    /// sign-extending SUB, and the receipt of the instruction itself.
    pub fn instruction_claims(&self, local: &MemoryInstructionsColumns) -> (r: Vec<
        InstructionClaim,
    >)
        ensures
            r@ == seq![addr_claim(*local), sign_extend_claim(*local), receive_claim(*local)],
    {
        let is_real: u32 = bit(local.is_lb) + bit(local.is_lbu) + bit(local.is_lh) + bit(
            local.is_lhu,
        ) + bit(local.is_lw) + bit(local.is_sb) + bit(local.is_sh) + bit(local.is_sw);
        let add = InstructionClaim {
            is_send: true,
            pc: UNUSED_PC,
            next_pc: UNUSED_PC + DEFAULT_PC_INC,
            opcode: Opcode::ADD.as_field(),
            a: local.addr_word,
            b: local.op_b_value,
            c: local.op_c_value,
            op_a_0: false,
            nonce: local.addr_word_nonce,
            is_memory_store: false,
            multiplicity: is_real,
        };
        let mask = Word {
            b0: 0,
            b1: bit(local.is_lb) as u8,
            b2: bit(local.is_lh) as u8,
            b3: 0,
        };
        let sub = InstructionClaim {
            is_send: true,
            pc: UNUSED_PC,
            next_pc: UNUSED_PC + DEFAULT_PC_INC,
            opcode: Opcode::SUB.as_field(),
            a: local.op_a_value,
            b: local.unsigned_mem_val,
            c: mask,
            op_a_0: false,
            nonce: local.unsigned_mem_val_nonce,
            is_memory_store: false,
            multiplicity: bit(local.mem_value_is_neg_not_x0),
        };
        let receive = InstructionClaim {
            is_send: false,
            pc: local.pc,
            next_pc: ((local.pc as u64 + DEFAULT_PC_INC as u64) % BABYBEAR_P as u64) as u32,
            opcode: self.compute_opcode(local),
            a: local.op_a_value,
            b: local.op_b_value,
            c: local.op_c_value,
            op_a_0: local.op_a_0,
            nonce: 0,
            is_memory_store: local.is_sb || local.is_sh || local.is_sw,
            multiplicity: is_real,
        };
        vec![add, sub, receive]
    }

    /// The tuples that the row puts on the memory bus.
    pub fn memory_claims(&self, local: &MemoryInstructionsColumns) -> (r: Vec<MemoryClaim>)
        ensures
            r@ == memory_claims_of(*local),
    {
        let is_real: u32 = bit(local.is_lb) + bit(local.is_lbu) + bit(local.is_lh) + bit(
            local.is_lhu,
        ) + bit(local.is_lw) + bit(local.is_sb) + bit(local.is_sh) + bit(local.is_sw);
        let clk = ((local.clk as u64 + MemoryAccessPosition::Memory.offset() as u64)
            % BABYBEAR_P as u64) as u32;
        let taken = MemoryClaim {
            is_send: false,
            shard: local.memory_access.prev_shard,
            clk: local.memory_access.prev_clk,
            addr: local.addr_aligned,
            value: local.memory_access.prev_value,
            multiplicity: is_real,
        };
        let given = MemoryClaim {
            is_send: true,
            shard: local.shard,
            clk,
            addr: local.addr_aligned,
            value: local.memory_access.value,
            multiplicity: is_real,
        };
        vec![taken, given]
    }

    /// The opcode that the row's selectors encode.
    pub fn compute_opcode(&self, local: &MemoryInstructionsColumns) -> (r: u32)
        ensures
            r == opcode_of(*local),
    {
        bit(local.is_lb) * Opcode::LB.as_field() + bit(local.is_lbu) * Opcode::LBU.as_field()
            + bit(local.is_lh) * Opcode::LH.as_field() + bit(local.is_lhu) * Opcode::LHU.as_field()
            + bit(local.is_lw) * Opcode::LW.as_field() + bit(local.is_sb) * Opcode::SB.as_field()
            + bit(local.is_sh) * Opcode::SH.as_field() + bit(local.is_sw) * Opcode::SW.as_field()
    }

    /// Address formation, alignment and the memory access.
    pub fn eval_memory_address_and_access(
        &self,
        local: &MemoryInstructionsColumns,
        is_real: bool,
    ) -> (ok: bool)
        requires
            is_real == (local.selector_sum() == 1),
        ensures
            ok == address_and_access_hold(*local),
    {
        let range_ok = !is_real || eval_word_range(&local.addr_word, &local.addr_word_range_checker);
        let flags_ok = self.eval_offset_value_flags(local);
        let p: u64 = BABYBEAR_P as u64;
        let sum_ok = !is_real || (local.addr_aligned as u64 + local.addr_offset as u64) % p == (
        local.addr_word.reduce() as u64) % p;
        let offset: u64 = bit(local.offset_is_one) as u64 + 2 * bit(local.offset_is_two) as u64 + 3
            * bit(local.offset_is_three) as u64;
        let low: u64 = 4 * bits6_value(&local.addr_aligned_least_sig_byte_decomp) as u64;
        proof {
            lemma_mod_add_multiples_vanish(local.addr_word.b0 - offset, p as int);
        }
        let low_ok = !is_real || (local.addr_word.b0 as u64 + p - offset) % p == low % p;
        let access_clk: u64 = (local.clk as u64 + MemoryAccessPosition::Memory.offset() as u64) % p;
        let m = &local.memory_access;
        let time_ok = !is_real || m.prev_shard < local.shard || (m.prev_shard == local.shard
            && (m.prev_clk as u64) < access_clk);
        let is_load = local.is_lb || local.is_lbu || local.is_lh || local.is_lhu || local.is_lw;
        let load_ok = !is_load || m.value == m.prev_value;
        range_ok && flags_ok && sum_ok && low_ok && time_ok && load_ok
    }

    /// The constraints of loads.
    pub fn eval_memory_load(&self, local: &MemoryInstructionsColumns) -> (ok: bool)
        ensures
            ok == load_holds(*local),
    {
        let unsigned_ok = self.eval_unsigned_mem_value(local);
        let decomp_ok = self.eval_most_sig_byte_bit_decomp(local, &local.unsigned_mem_val);
        let signed: u32 = bit(local.is_lb) + bit(local.is_lh);
        let sign: u32 = bit(local.most_sig_byte_decomp[7]);
        let not_x0: u32 = 1 - bit(local.op_a_0);
        let neg_ok = bit(local.mem_value_is_neg_not_x0) == signed * sign * not_x0;
        let pos_ok = bit(local.mem_value_is_pos_not_x0) == (signed * (1 - sign) + bit(local.is_lbu)
            + bit(local.is_lhu) + bit(local.is_lw)) * not_x0;
        let value_ok = !local.mem_value_is_pos_not_x0 || local.op_a_value == local.unsigned_mem_val;
        unsigned_ok && decomp_ok && neg_ok && pos_ok && value_ok
    }

    /// The constraints of stores.
    pub fn eval_memory_store(&self, local: &MemoryInstructionsColumns) -> (ok: bool)
        ensures
            ok == store_holds(*local),
    {
        let flags_ok = self.eval_offset_value_flags(local);
        let zero = !local.offset_is_one && !local.offset_is_two && !local.offset_is_three;
        let a = &local.op_a_value;
        let p = &local.memory_access.prev_value;
        let m = &local.memory_access.value;
        let sb = Word {
            b0: if zero { a.b0 } else { p.b0 },
            b1: if local.offset_is_one { a.b0 } else { p.b1 },
            b2: if local.offset_is_two { a.b0 } else { p.b2 },
            b3: if local.offset_is_three { a.b0 } else { p.b3 },
        };
        let sh = Word {
            b0: if zero { a.b0 } else { p.b0 },
            b1: if zero { a.b1 } else { p.b1 },
            b2: if local.offset_is_two { a.b0 } else { p.b2 },
            b3: if local.offset_is_two { a.b1 } else { p.b3 },
        };
        flags_ok && (!local.is_sb || *m == sb) && (!local.is_sh || (!local.offset_is_one
            && !local.offset_is_three)) && (!local.is_sw || zero) && (!local.is_sh || *m == sh) && (
        !local.is_sw || *m == *a)
    }

    /// The decoding of the loaded bytes into `unsigned_mem_val`.
    pub fn eval_unsigned_mem_value(&self, local: &MemoryInstructionsColumns) -> (ok: bool)
        ensures
            ok == unsigned_mem_value_holds(*local),
    {
        let m = &local.memory_access.value;
        let u = &local.unsigned_mem_val;
        let zero = !local.offset_is_one && !local.offset_is_two && !local.offset_is_three;
        let byte: u32 = bit(zero) * m.b0 as u32 + bit(local.offset_is_one) * m.b1 as u32 + bit(
            local.offset_is_two,
        ) * m.b2 as u32 + bit(local.offset_is_three) * m.b3 as u32;
        let lo = bit(zero);
        let hi = bit(local.offset_is_two);
        let byte_ok = !(local.is_lb || local.is_lbu) || (u.b0 as u32 == byte && u.b1 == 0 && u.b2
            == 0 && u.b3 == 0);
        let half_flags_ok = !(local.is_lh || local.is_lhu) || (!local.offset_is_one
            && !local.offset_is_three);
        let word_flags_ok = !local.is_lw || zero;
        let half_ok = !(local.is_lh || local.is_lhu) || (u.b0 as u32 == lo * m.b0 as u32 + hi
            * m.b2 as u32 && u.b1 as u32 == lo * m.b1 as u32 + hi * m.b3 as u32 && u.b2 == 0 && u.b3
            == 0);
        let word_ok = !local.is_lw || *u == *m;
        byte_ok && half_flags_ok && word_flags_ok && half_ok && word_ok
    }

    /// The bits of the loaded value's top byte (limb 0 for LB, limb 1 for LH).
    pub fn eval_most_sig_byte_bit_decomp(
        &self,
        local: &MemoryInstructionsColumns,
        unsigned_mem_val: &Word,
    ) -> (ok: bool)
        requires
            *unsigned_mem_val == local.unsigned_mem_val,
        ensures
            ok == most_sig_byte_decomp_holds(*local),
    {
        let recomposed = bits8_value(&local.most_sig_byte_decomp);
        (!local.is_lb || recomposed == unsigned_mem_val.b0 as u32) && (!local.is_lh || recomposed
            == unsigned_mem_val.b1 as u32)
    }

    /// The offset flags.
    pub fn eval_offset_value_flags(&self, local: &MemoryInstructionsColumns) -> (ok: bool)
        ensures
            ok == offset_flags_hold(*local),
    {
        let zero = !local.offset_is_one && !local.offset_is_two && !local.offset_is_three;
        bit(local.offset_is_one) + bit(local.offset_is_two) + bit(local.offset_is_three) <= 1 && (
        !zero || felt_is(local.addr_offset, 0)) && (!local.offset_is_one || felt_is(
            local.addr_offset,
            1,
        )) && (!local.offset_is_two || felt_is(local.addr_offset, 2)) && (!local.offset_is_three
            || felt_is(local.addr_offset, 3))
    }
}

} // verus!
