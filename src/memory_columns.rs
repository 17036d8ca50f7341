use vstd::prelude::*;
use crate::field::BABYBEAR_P;
use crate::word::Word;

verus! {

/// `1` for true, `0` for false.
pub open spec fn b2i(b: bool) -> int {
    if b {
        1
    } else {
        0
    }
}

/// The number whose little-endian bits are `d`.
pub open spec fn bits8(d: [bool; 8]) -> int {
    b2i(d@[0]) + 2 * b2i(d@[1]) + 4 * b2i(d@[2]) + 8 * b2i(d@[3]) + 16 * b2i(d@[4]) + 32 * b2i(
        d@[5],
    ) + 64 * b2i(d@[6]) + 128 * b2i(d@[7])
}

/// The number whose little-endian bits are `d`.
pub open spec fn bits6(d: [bool; 6]) -> int {
    b2i(d@[0]) + 2 * b2i(d@[1]) + 4 * b2i(d@[2]) + 8 * b2i(d@[3]) + 16 * b2i(d@[4]) + 32 * b2i(
        d@[5],
    )
}

/// Equality in the field: congruence modulo the BabyBear prime.
pub open spec fn felt_eq(x: int, y: int) -> bool {
    x % (BABYBEAR_P as int) == y % (BABYBEAR_P as int)
}

/// The columns of one access to memory: the value before and after the access, and the
/// timestamp of the access before it.
#[derive(Clone, Copy, Debug, PartialEq, Eq)]
pub struct MemoryAccessCols {
    pub prev_value: Word,
    pub value: Word,
    pub prev_shard: u32,
    pub prev_clk: u32,
}

/// Columns that show a word's value is below the field modulus: the bits of its top byte,
/// and running products of bits 3 to 6.
#[derive(Clone, Copy, Debug, PartialEq, Eq)]
pub struct WordRangeCheckerCols {
    pub most_sig_byte_decomp: [bool; 8],
    pub and_most_sig_byte_decomp_3_to_5: bool,
    pub and_most_sig_byte_decomp_3_to_6: bool,
    pub and_most_sig_byte_decomp_3_to_7: bool,
}

/// One row of the memory-instructions chip.
#[derive(Clone, Copy, Debug, PartialEq, Eq)]
pub struct MemoryInstructionsColumns {
    pub shard: u32,
    pub clk: u32,
    pub pc: u32,
    pub op_a_value: Word,
    pub op_b_value: Word,
    pub op_c_value: Word,
    pub op_a_0: bool,
    pub is_lb: bool,
    pub is_lbu: bool,
    pub is_lh: bool,
    pub is_lhu: bool,
    pub is_lw: bool,
    pub is_sb: bool,
    pub is_sh: bool,
    pub is_sw: bool,
    pub addr_word: Word,
    pub addr_word_range_checker: WordRangeCheckerCols,
    pub addr_word_nonce: u32,
    pub addr_aligned: u32,
    pub addr_aligned_least_sig_byte_decomp: [bool; 6],
    pub addr_offset: u32,
    pub offset_is_one: bool,
    pub offset_is_two: bool,
    pub offset_is_three: bool,
    pub memory_access: MemoryAccessCols,
    pub unsigned_mem_val: Word,
    pub unsigned_mem_val_nonce: u32,
    pub most_sig_byte_decomp: [bool; 8],
    pub mem_value_is_neg_not_x0: bool,
    pub mem_value_is_pos_not_x0: bool,
}

impl MemoryInstructionsColumns {
    /// Every field-valued column holds a canonical field element.
    pub open spec fn wf(&self) -> bool {
        &&& self.shard < BABYBEAR_P
        &&& self.clk < BABYBEAR_P
        &&& self.pc < BABYBEAR_P
        &&& self.addr_word_nonce < BABYBEAR_P
        &&& self.addr_aligned < BABYBEAR_P
        &&& self.addr_offset < BABYBEAR_P
        &&& self.memory_access.prev_shard < BABYBEAR_P
        &&& self.memory_access.prev_clk < BABYBEAR_P
        &&& self.unsigned_mem_val_nonce < BABYBEAR_P
    }

    /// `is_real`: the sum of the selectors.
    pub open spec fn selector_sum(&self) -> int {
        b2i(self.is_lb) + b2i(self.is_lbu) + b2i(self.is_lh) + b2i(self.is_lhu) + b2i(self.is_lw)
            + b2i(self.is_sb) + b2i(self.is_sh) + b2i(self.is_sw)
    }

    pub open spec fn is_load(&self) -> bool {
        self.is_lb || self.is_lbu || self.is_lh || self.is_lhu || self.is_lw
    }

    pub open spec fn is_store(&self) -> bool {
        self.is_sb || self.is_sh || self.is_sw
    }

    /// The offset flag for offset zero, implied by the other three.
    pub open spec fn offset_is_zero(&self) -> bool {
        !self.offset_is_one && !self.offset_is_two && !self.offset_is_three
    }

    /// The offset that the flags select.
    pub open spec fn flag_offset(&self) -> int {
        b2i(self.offset_is_one) + 2 * b2i(self.offset_is_two) + 3 * b2i(self.offset_is_three)
    }
}

} // verus!
