use vstd::prelude::*;
use crate::bus::Opcode;
use crate::field::BABYBEAR_P;
use crate::memory_columns::{
    bits6, bits8, MemoryAccessCols, MemoryInstructionsColumns, WordRangeCheckerCols,
};
use crate::memory_air::{constraints_hold, word_range_holds, MemoryInstructionsChip};
use crate::memory_laws::{event_valid, lemma_populated_row_satisfies_constraints, padding_row};
use crate::padding::{padded_height, trace_height};
use crate::word::{word_of, Word};

verus! {

/// The access to memory that an instruction made, as the executor recorded it.
#[derive(Clone, Copy, Debug, PartialEq, Eq, Structural)]
pub struct MemoryRecordEvent {
    pub prev_shard: u32,
    pub prev_clk: u32,
    pub prev_value: u32,
    pub value: u32,
}

/// One load or store, as the executor recorded it.
#[derive(Clone, Copy, Debug, PartialEq, Eq, Structural)]
pub struct MemInstrEvent {
    pub shard: u32,
    pub clk: u32,
    pub pc: u32,
    pub opcode: Opcode,
    /// The destination (load) or source (store) register's value.
    pub a: u32,
    /// The base address register's value.
    pub b: u32,
    /// The immediate offset.
    pub c: u32,
    /// Whether the destination register is x0.
    pub op_a_0: bool,
    pub mem_access: MemoryRecordEvent,
    /// Nonce of the ADD claim that forms the address.
    pub addr_word_nonce: u32,
    /// Nonce of the SUB claim that sign-extends a loaded value.
    pub unsigned_mem_val_nonce: u32,
}

/// The address that an event accesses: `b + c` modulo `2^32`.
pub open spec fn event_addr(e: MemInstrEvent) -> int {
    (e.b + e.c) % 0x1_0000_0000
}

/// The value that a load puts in `unsigned_mem_val`: the byte, half or word at the offset.
pub open spec fn loaded_unsigned(op: Opcode, m: Word, offset: int) -> Word {
    match op {
        Opcode::LB | Opcode::LBU => Word { b0: m.limb(offset), b1: 0, b2: 0, b3: 0 },
        Opcode::LH | Opcode::LHU => if offset >= 2 {
            Word { b0: m.b2, b1: m.b3, b2: 0, b3: 0 }
        } else {
            Word { b0: m.b0, b1: m.b1, b2: 0, b3: 0 }
        },
        Opcode::LW => m,
        _ => Word { b0: 0, b1: 0, b2: 0, b3: 0 },
    }
}

/// The bits of `x`, least significant first.
pub fn byte_bits(x: u8) -> (d: [bool; 8])
    ensures
        bits8(d) == x,
        d@[7] == (x >= 128),
        forall|i: int| 0 <= i < 8 ==> d@[i] == ((x as int / pow2_u8(i)) % 2 == 1),
{
    let d = [
        x & 1 == 1,
        (x >> 1u8) & 1 == 1,
        (x >> 2u8) & 1 == 1,
        (x >> 3u8) & 1 == 1,
        (x >> 4u8) & 1 == 1,
        (x >> 5u8) & 1 == 1,
        (x >> 6u8) & 1 == 1,
        (x >> 7u8) & 1 == 1,
    ];
    proof {
        assert(x == (x & 1) + 2 * ((x >> 1u8) & 1) + 4 * ((x >> 2u8) & 1) + 8 * ((x >> 3u8) & 1)
            + 16 * ((x >> 4u8) & 1) + 32 * ((x >> 5u8) & 1) + 64 * ((x >> 6u8) & 1) + 128 * ((x
            >> 7u8) & 1)) by (bit_vector);
        assert((x & 1) < 2 && ((x >> 1u8) & 1) < 2 && ((x >> 2u8) & 1) < 2 && ((x >> 3u8) & 1) < 2
            && ((x >> 4u8) & 1) < 2 && ((x >> 5u8) & 1) < 2 && ((x >> 6u8) & 1) < 2 && ((x >> 7u8)
            & 1) < 2) by (bit_vector);
        assert(((x >> 7u8) & 1 == 1) == (x >= 128)) by (bit_vector);
        assert((x & 1) == x % 2 && ((x >> 1u8) & 1) == (x / 2) % 2 && ((x >> 2u8) & 1) == (x / 4)
            % 2 && ((x >> 3u8) & 1) == (x / 8) % 2 && ((x >> 4u8) & 1) == (x / 16) % 2 && ((x
            >> 5u8) & 1) == (x / 32) % 2 && ((x >> 6u8) & 1) == (x / 64) % 2 && ((x >> 7u8) & 1)
            == (x / 128) % 2) by (bit_vector);
    }
    d
}

/// `2^i` for a bit index of a byte.
pub open spec fn pow2_u8(i: int) -> int {
    if i <= 0 {
        1
    } else if i == 1 {
        2
    } else if i == 2 {
        4
    } else if i == 3 {
        8
    } else if i == 4 {
        16
    } else if i == 5 {
        32
    } else if i == 6 {
        64
    } else {
        128
    }
}

/// The columns that show `w` is below the field modulus.
pub fn populate_word_range(w: &Word) -> (c: WordRangeCheckerCols)
    ensures
        bits8(c.most_sig_byte_decomp) == w.b3,
        c.most_sig_byte_decomp@[7] == (w.b3 >= 128),
        c.and_most_sig_byte_decomp_3_to_5 == (c.most_sig_byte_decomp@[3]
            && c.most_sig_byte_decomp@[4]),
        c.and_most_sig_byte_decomp_3_to_6 == (c.and_most_sig_byte_decomp_3_to_5
            && c.most_sig_byte_decomp@[5]),
        c.and_most_sig_byte_decomp_3_to_7 == (c.and_most_sig_byte_decomp_3_to_6
            && c.most_sig_byte_decomp@[6]),
        w.value() < BABYBEAR_P ==> word_range_holds(*w, c),
{
    let d = byte_bits(w.b3);
    proof {
        if w.value() < BABYBEAR_P {
            assert(w.b3 <= 0x78);
            if d@[3] && d@[4] && d@[5] && d@[6] {
                assert(w.b3 >= 0x78) by {
                    assert(d@[3] == ((w.b3 as int / 8) % 2 == 1));
                    assert(d@[4] == ((w.b3 as int / 16) % 2 == 1));
                    assert(d@[5] == ((w.b3 as int / 32) % 2 == 1));
                    assert(d@[6] == ((w.b3 as int / 64) % 2 == 1));
                }
                assert(w.b3 == 0x78);
                assert(d@[0] == ((w.b3 as int / 1) % 2 == 1));
                assert(d@[1] == ((w.b3 as int / 2) % 2 == 1));
                assert(d@[2] == ((w.b3 as int / 4) % 2 == 1));
            }
        }
    }
    let a5 = d[3] && d[4];
    let a6 = a5 && d[5];
    let a7 = a6 && d[6];
    WordRangeCheckerCols {
        most_sig_byte_decomp: d,
        and_most_sig_byte_decomp_3_to_5: a5,
        and_most_sig_byte_decomp_3_to_6: a6,
        and_most_sig_byte_decomp_3_to_7: a7,
    }
}

/// Byte `i` of `m`, for `i < 4`.
fn limb_at(m: &Word, i: u32) -> (r: u8)
    requires
        i < 4,
    ensures
        r == m.limb(i as int),
{
    m.get(i as usize)
}

/// The address columns of `b + c`: its word, its aligned form as a field element, its
/// offset, and bits 2 to 7 of the aligned address's low byte.
fn populate_address(b: u32, c: u32) -> (r: (Word, u32, u32, [bool; 6]))
    ensures
        r.0.value() == (b + c) % 0x1_0000_0000,
        r.0 == word_of(((b + c) % 0x1_0000_0000) as u32),
        r.2 == r.0.value() % 4,
        r.1 == (r.0.value() - r.0.value() % 4) % (BABYBEAR_P as int),
        4 * bits6(r.3) == r.0.b0 - r.2,
{
    let addr: u32 = b.wrapping_add(c);
    let offset: u32 = addr & 3;
    let aligned: u32 = addr & 0xffff_fffc;
    let addr_word = Word::from_u32(addr);
    let low: u8 = (aligned & 0xff) as u8;
    let low_bits = byte_bits(low);
    proof {
        assert((addr & 0xff) == ((addr & 0xffff_fffc) & 0xff) + (addr & 3)) by (bit_vector);
        assert(addr == (addr & 0xffff_fffc) + (addr & 3)) by (bit_vector);
        assert((addr & 3) == addr % 4) by (bit_vector);
        assert(((addr & 0xffff_fffc) & 0xff) % 4 == 0) by (bit_vector);
        assert((addr & 0xff) == addr % 256) by (bit_vector);
    }
    let decomp6 = [low_bits[2], low_bits[3], low_bits[4], low_bits[5], low_bits[6], low_bits[7]];
    (addr_word, aligned % BABYBEAR_P, offset, decomp6)
}

/// The unsigned value that a load reads from `value` at `offset`.
fn populate_unsigned(op: Opcode, value: &Word, offset: u32) -> (u: Word)
    requires
        offset < 4,
    ensures
        u == loaded_unsigned(op, *value, offset as int),
{
    match op {
        Opcode::LB | Opcode::LBU => Word::extend(limb_at(value, offset)),
        Opcode::LH | Opcode::LHU => if offset >= 2 {
            Word { b0: value.b2, b1: value.b3, b2: 0, b3: 0 }
        } else {
            Word { b0: value.b0, b1: value.b1, b2: 0, b3: 0 }
        },
        Opcode::LW => *value,
        _ => Word::zero(),
    }
}

/// The bits of the byte that holds a signed load's sign: limb 0 for LB, limb 1 for LH.
fn populate_sign_bits(op: Opcode, unsigned: &Word) -> (d: [bool; 8])
    ensures
        op == Opcode::LB ==> bits8(d) == unsigned.b0 && d@[7] == (unsigned.b0 >= 128),
        op == Opcode::LH ==> bits8(d) == unsigned.b1 && d@[7] == (unsigned.b1 >= 128),
{
    match op {
        Opcode::LB => byte_bits(unsigned.b0),
        Opcode::LH => byte_bits(unsigned.b1),
        _ => byte_bits(0),
    }
}

/// The row that trace generation makes for `event`.
pub open spec fn populated(row: MemoryInstructionsColumns, event: MemInstrEvent) -> bool {
    &&& row.shard == event.shard % BABYBEAR_P
    &&& row.clk == event.clk % BABYBEAR_P
    &&& row.pc == event.pc % BABYBEAR_P
    &&& row.is_lb == (event.opcode == Opcode::LB)
    &&& row.is_lbu == (event.opcode == Opcode::LBU)
    &&& row.is_lh == (event.opcode == Opcode::LH)
    &&& row.is_lhu == (event.opcode == Opcode::LHU)
    &&& row.is_lw == (event.opcode == Opcode::LW)
    &&& row.is_sb == (event.opcode == Opcode::SB)
    &&& row.is_sh == (event.opcode == Opcode::SH)
    &&& row.is_sw == (event.opcode == Opcode::SW)
    &&& row.op_a_0 == event.op_a_0
    &&& row.op_a_value == word_of(event.a)
    &&& row.op_b_value == word_of(event.b)
    &&& row.op_c_value == word_of(event.c)
    &&& row.addr_word == word_of(event_addr(event) as u32)
    &&& row.addr_word.value() == event_addr(event)
    &&& row.addr_word.value() < BABYBEAR_P ==> word_range_holds(
        row.addr_word,
        row.addr_word_range_checker,
    )
    &&& row.addr_offset == event_addr(event) % 4
    &&& row.addr_aligned == (event_addr(event) - event_addr(event) % 4) % (BABYBEAR_P as int)
    &&& row.offset_is_one == (event_addr(event) % 4 == 1)
    &&& row.offset_is_two == (event_addr(event) % 4 == 2)
    &&& row.offset_is_three == (event_addr(event) % 4 == 3)
    &&& 4 * bits6(row.addr_aligned_least_sig_byte_decomp) == row.addr_word.b0 - row.addr_offset
    &&& row.memory_access.prev_value == word_of(event.mem_access.prev_value)
    &&& row.memory_access.value == word_of(event.mem_access.value)
    &&& row.memory_access.prev_shard == event.mem_access.prev_shard % BABYBEAR_P
    &&& row.memory_access.prev_clk == event.mem_access.prev_clk % BABYBEAR_P
    &&& row.unsigned_mem_val == loaded_unsigned(
            event.opcode,
            row.memory_access.value,
            event_addr(event) % 4,
        )
    &&& event.opcode == Opcode::LB ==> bits8(row.most_sig_byte_decomp) == row.unsigned_mem_val.b0
    &&& event.opcode == Opcode::LH ==> bits8(row.most_sig_byte_decomp) == row.unsigned_mem_val.b1
    &&& row.mem_value_is_neg_not_x0 == ((row.is_lb || row.is_lh) && row.most_sig_byte_decomp@[7]
            && !event.op_a_0)
    &&& row.mem_value_is_pos_not_x0 == ((((row.is_lb || row.is_lh)
            && !row.most_sig_byte_decomp@[7]) || row.is_lbu || row.is_lhu || row.is_lw)
            && !event.op_a_0)
    &&& row.addr_word_nonce == event.addr_word_nonce % BABYBEAR_P
    &&& row.unsigned_mem_val_nonce == event.unsigned_mem_val_nonce % BABYBEAR_P
}

/// The row of the memory-instructions chip for one event.
pub fn populate(event: &MemInstrEvent) -> (row: MemoryInstructionsColumns)
    requires
        event.opcode.is_memory(),
    ensures
        populated(row, *event),
{
    let op = event.opcode;
    let (addr_word, aligned, offset, decomp6) = populate_address(event.b, event.c);
    let prev_value = Word::from_u32(event.mem_access.prev_value);
    let value = Word::from_u32(event.mem_access.value);
    let unsigned = populate_unsigned(op, &value, offset);
    let msb = populate_sign_bits(op, &unsigned);
    let signed = op == Opcode::LB || op == Opcode::LH;
    let neg = signed && msb[7] && !event.op_a_0;
    let pos = ((signed && !msb[7]) || op == Opcode::LBU || op == Opcode::LHU || op == Opcode::LW)
        && !event.op_a_0;
    MemoryInstructionsColumns {
        shard: event.shard % BABYBEAR_P,
        clk: event.clk % BABYBEAR_P,
        pc: event.pc % BABYBEAR_P,
        op_a_value: Word::from_u32(event.a),
        op_b_value: Word::from_u32(event.b),
        op_c_value: Word::from_u32(event.c),
        op_a_0: event.op_a_0,
        is_lb: op == Opcode::LB,
        is_lbu: op == Opcode::LBU,
        is_lh: op == Opcode::LH,
        is_lhu: op == Opcode::LHU,
        is_lw: op == Opcode::LW,
        is_sb: op == Opcode::SB,
        is_sh: op == Opcode::SH,
        is_sw: op == Opcode::SW,
        addr_word,
        addr_word_range_checker: populate_word_range(&addr_word),
        addr_word_nonce: event.addr_word_nonce % BABYBEAR_P,
        addr_aligned: aligned,
        addr_aligned_least_sig_byte_decomp: decomp6,
        addr_offset: offset,
        offset_is_one: offset == 1,
        offset_is_two: offset == 2,
        offset_is_three: offset == 3,
        memory_access: MemoryAccessCols {
            prev_value,
            value,
            prev_shard: event.mem_access.prev_shard % BABYBEAR_P,
            prev_clk: event.mem_access.prev_clk % BABYBEAR_P,
        },
        unsigned_mem_val: unsigned,
        unsigned_mem_val_nonce: event.unsigned_mem_val_nonce % BABYBEAR_P,
        most_sig_byte_decomp: msb,
        mem_value_is_neg_not_x0: neg,
        mem_value_is_pos_not_x0: pos,
    }
}

/// Cells per row of the memory-instructions chip: the clock, shard and pc, three operand
/// words, the x0 flag, eight selectors, the address word and its word check (eleven bits),
/// a nonce, the aligned address and its six bits, the offset and its three flags, the access
/// (two words, the previous shard and clock), the unsigned value and its nonce, the sign
/// byte's bits, and the two sign flags.
pub const NUM_MEMORY_INSTRUCTIONS_COLUMNS: usize = 76;

impl MemoryInstructionsChip {
    /// The chip's name.
    pub fn name(&self) -> (r: String)
        ensures
            r@ == "MemoryInstrs"@,
    {
        "MemoryInstrs".to_owned()
    }

    /// Cells per row.
    pub fn width(&self) -> (r: usize)
        ensures
            r == NUM_MEMORY_INSTRUCTIONS_COLUMNS,
    {
        NUM_MEMORY_INSTRUCTIONS_COLUMNS
    }

    /// Whether the shard has any load or store.
    pub fn included(&self, events: &Vec<MemInstrEvent>) -> (r: bool)
        ensures
            r == (events@.len() > 0),
    {
        events.len() > 0
    }

    /// The trace of a shard's loads and stores: a row per event in order, then all-zero
    /// padding rows up to the padded height.
    pub fn generate_trace(&self, events: &Vec<MemInstrEvent>) -> (rows: Vec<
        MemoryInstructionsColumns,
    >)
        requires
            forall|i: int| 0 <= i < events@.len() ==> (#[trigger] events@[i]).opcode.is_memory(),
            events@.len() <= 0x1000_0000,
        ensures
            rows@.len() == padded_height(events@.len() as nat),
            forall|i: int| 0 <= i < events@.len() ==> populated(#[trigger] rows@[i], events@[i]),
            forall|i: int|
                0 <= i < events@.len() && event_valid(events@[i]) ==> constraints_hold(
                    #[trigger] rows@[i],
                ),
            forall|i: int|
                events@.len() <= i < rows@.len() ==> (#[trigger] rows@[i]).selector_sum() == 0
                    && constraints_hold(rows@[i]),
    {
        let n = events.len();
        let height = trace_height(n);
        let mut rows: Vec<MemoryInstructionsColumns> = Vec::new();
        let mut i: usize = 0;
        while i < height
            invariant
                i <= height,
                n == events@.len(),
                n <= height,
                forall|k: int| 0 <= k < n ==> (#[trigger] events@[k]).opcode.is_memory(),
                rows@.len() == i,
                forall|k: int| 0 <= k < i && k < n ==> populated(#[trigger] rows@[k], events@[k]),
                forall|k: int|
                    0 <= k < i && k < n && event_valid(events@[k]) ==> constraints_hold(
                        #[trigger] rows@[k],
                    ),
                forall|k: int|
                    n <= k < i ==> (#[trigger] rows@[k]).selector_sum() == 0 && constraints_hold(
                        rows@[k],
                    ),
            decreases height - i,
        {
            if i < n {
                let row = populate(&events[i]);
                proof {
                    if event_valid(events@[i as int]) {
                        lemma_populated_row_satisfies_constraints(row, events@[i as int]);
                    }
                }
                rows.push(row);
            } else {
                rows.push(padding_row());
            }
            i = i + 1;
        }
        rows
    }
}

} // verus!
