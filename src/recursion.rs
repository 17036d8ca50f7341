use vstd::prelude::*;

verus! {

/// Lanes of the Poseidon2 permutation.
pub const POSEIDON2_WIDTH: usize = 16;

/// An address in the recursion machine's memory.
#[derive(Clone, Copy, Debug, PartialEq, Eq, Hash, Default)]
pub struct Address<F>(pub F);

impl Address<u32> {
    /// The address as an index.
    pub fn as_usize(&self) -> (r: usize)
        ensures
            r == self.0,
    {
        self.0 as usize
    }
}

/// An element of the degree-four extension field, by its coefficients.
#[derive(Clone, Copy, Debug, PartialEq, Eq, Default)]
pub struct Block<F>(pub [F; 4]);

/// The operations of the base field ALU.
#[derive(Clone, Copy, Debug, PartialEq, Eq)]
pub enum BaseAluOpcode {
    AddF,
    SubF,
    MulF,
    DivF,
}

/// The operations of the extension field ALU.
#[derive(Clone, Copy, Debug, PartialEq, Eq)]
pub enum ExtAluOpcode {
    AddE,
    SubE,
    MulE,
    DivE,
}

/// The inputs and outputs to an operation of the base field ALU.
#[derive(Clone, Copy, Debug, PartialEq, Eq)]
pub struct BaseAluIo<V> {
    pub out: V,
    pub in1: V,
    pub in2: V,
}

/// An instruction invoking the base field ALU.
#[derive(Clone, Debug)]
pub struct BaseAluInstr<F> {
    pub opcode: BaseAluOpcode,
    pub mult: F,
    pub addrs: BaseAluIo<Address<F>>,
}

/// The inputs and outputs to an operation of the extension field ALU.
#[derive(Clone, Copy, Debug, PartialEq, Eq)]
pub struct ExtAluIo<V> {
    pub out: V,
    pub in1: V,
    pub in2: V,
}

/// An instruction invoking the extension field ALU.
#[derive(Clone, Debug)]
pub struct ExtAluInstr<F> {
    pub opcode: ExtAluOpcode,
    pub mult: F,
    pub addrs: ExtAluIo<Address<F>>,
}

/// The inputs and outputs to the memory initialization table.
#[derive(Clone, Copy, Debug, PartialEq, Eq)]
pub struct MemIo<V> {
    pub inner: V,
}

/// Whether a memory instruction reads or writes.
#[derive(Clone, Copy, Debug, PartialEq, Eq)]
pub enum MemAccessKind {
    Read,
    Write,
}

/// An instruction of the memory initialization table.
#[derive(Clone, Copy, Debug, PartialEq, Eq)]
pub struct MemInstr<F> {
    pub addrs: MemIo<Address<F>>,
    pub vals: MemIo<Block<F>>,
    pub mult: F,
    pub kind: MemAccessKind,
}

/// The inputs and outputs to a Poseidon2 permutation.
#[derive(Clone, Copy, Debug, PartialEq, Eq)]
pub struct Poseidon2Io<V> {
    pub input: [V; POSEIDON2_WIDTH],
    pub output: [V; POSEIDON2_WIDTH],
}

/// An instruction invoking the Poseidon2 permutation.
#[derive(Clone, Debug)]
pub struct Poseidon2SkinnyInstr<F> {
    pub addrs: Poseidon2Io<Address<F>>,
    pub mults: [F; POSEIDON2_WIDTH],
}

/// The inputs and outputs to a select operation.
#[derive(Clone, Copy, Debug, PartialEq, Eq)]
pub struct SelectIo<V> {
    pub bit: V,
    pub out1: V,
    pub out2: V,
    pub in1: V,
    pub in2: V,
}

/// An instruction invoking the select operation.
#[derive(Clone, Copy, Debug)]
pub struct SelectInstr<F> {
    pub addrs: SelectIo<Address<F>>,
    pub mult1: F,
    pub mult2: F,
}

/// The inputs and outputs to an exp-reverse-bits operation; `exp` holds the exponent's bits,
/// least significant first.
#[derive(Clone, Debug, PartialEq, Eq)]
pub struct ExpReverseBitsIo<V> {
    pub base: V,
    pub exp: Vec<V>,
    pub result: V,
}

/// An instruction invoking the exp-reverse-bits operation.
#[derive(Clone, Debug)]
pub struct ExpReverseBitsInstr<F> {
    pub addrs: ExpReverseBitsIo<Address<F>>,
    pub mult: F,
}

/// A borrowed, flat view of an exp-reverse-bits instruction.
#[derive(Clone, Debug, PartialEq, Eq)]
pub struct ExpReverseBitsInstrC<'a, F> {
    pub base: &'a Address<F>,
    pub exp: &'a [Address<F>],
    pub exp_len: usize,
    pub result: &'a Address<F>,
    pub mult: &'a F,
}

impl<F> ExpReverseBitsInstr<F> {
    /// The flat view of the instruction.
    pub fn to_c(&self) -> (r: ExpReverseBitsInstrC<'_, F>)
        ensures
            *r.base == self.addrs.base,
            r.exp@ == self.addrs.exp@,
            r.exp_len == self.addrs.exp@.len(),
            *r.result == self.addrs.result,
            *r.mult == self.mult,
    {
        ExpReverseBitsInstrC {
            base: &self.addrs.base,
            exp: self.addrs.exp.as_slice(),
            exp_len: self.addrs.exp.len(),
            result: &self.addrs.result,
            mult: &self.mult,
        }
    }
}

/// The event of an exp-reverse-bits operation; the exponent's length is that of `exp`.
#[derive(Clone, Debug, PartialEq, Eq)]
pub struct ExpReverseBitsEvent<F> {
    pub base: F,
    pub exp: Vec<F>,
    pub result: F,
}

/// A borrowed, flat view of an exp-reverse-bits event.
#[derive(Clone, Debug, PartialEq, Eq)]
pub struct ExpReverseBitsEventC<'a, F> {
    pub base: &'a F,
    pub exp: &'a [F],
    pub exp_len: usize,
    pub result: &'a F,
}

impl<F> ExpReverseBitsEvent<F> {
    /// The flat view of the event.
    pub fn to_c(&self) -> (r: ExpReverseBitsEventC<'_, F>)
        ensures
            *r.base == self.base,
            r.exp@ == self.exp@,
            r.exp_len == self.exp@.len(),
            *r.result == self.result,
    {
        ExpReverseBitsEventC {
            base: &self.base,
            exp: self.exp.as_slice(),
            exp_len: self.exp.len(),
            result: &self.result,
        }
    }
}

/// The inputs and outputs of a FRI fold operation.
#[derive(Clone, Debug, PartialEq, Eq)]
pub struct FriFoldIo<V> {
    pub ext_single: FriFoldExtSingleIo<Block<V>>,
    pub ext_vec: FriFoldExtVecIo<Vec<Block<V>>>,
    pub base_single: FriFoldBaseIo<V>,
}

/// The extension-field-valued single inputs to the FRI fold operation.
#[derive(Clone, Debug, PartialEq, Eq)]
pub struct FriFoldExtSingleIo<V> {
    pub z: V,
    pub alpha: V,
}

/// The extension-field-valued vector inputs to the FRI fold operation.
#[derive(Clone, Debug, PartialEq, Eq)]
pub struct FriFoldExtVecIo<V> {
    pub mat_opening: V,
    pub ps_at_z: V,
    pub alpha_pow_input: V,
    pub ro_input: V,
    pub alpha_pow_output: V,
    pub ro_output: V,
}

/// The base-field-valued inputs to the FRI fold operation.
#[derive(Clone, Debug, PartialEq, Eq)]
pub struct FriFoldBaseIo<V> {
    pub x: V,
}

/// An instruction invoking the FRI fold operation.
#[derive(Clone, Debug, PartialEq, Eq)]
pub struct FriFoldInstr<F> {
    pub base_single_addrs: FriFoldBaseIo<Address<F>>,
    pub ext_single_addrs: FriFoldExtSingleIo<Address<F>>,
    pub ext_vec_addrs: FriFoldExtVecIo<Vec<Address<F>>>,
    pub alpha_pow_mults: Vec<F>,
    pub ro_mults: Vec<F>,
}

/// A borrowed, flat view of a FRI fold instruction.
#[derive(Clone, Debug, PartialEq, Eq)]
pub struct FriFoldInstrC<'a, F> {
    pub base_single_addrs: &'a FriFoldBaseIo<Address<F>>,
    pub ext_single_addrs: &'a FriFoldExtSingleIo<Address<F>>,
    pub ext_vec_addrs_mat_opening: &'a [Address<F>],
    pub ext_vec_addrs_mat_opening_len: usize,
    pub ext_vec_addrs_ps_at_z: &'a [Address<F>],
    pub ext_vec_addrs_ps_at_z_len: usize,
    pub ext_vec_addrs_alpha_pow_input: &'a [Address<F>],
    pub ext_vec_addrs_alpha_pow_input_len: usize,
    pub ext_vec_addrs_ro_input: &'a [Address<F>],
    pub ext_vec_addrs_ro_input_len: usize,
    pub ext_vec_addrs_alpha_pow_output: &'a [Address<F>],
    pub ext_vec_addrs_alpha_pow_output_len: usize,
    pub ext_vec_addrs_ro_output: &'a [Address<F>],
    pub ext_vec_addrs_ro_output_len: usize,
    pub alpha_pow_mults: &'a [F],
    pub alpha_pow_mults_len: usize,
    pub ro_mults: &'a [F],
    pub ro_mults_len: usize,
}

impl<F> FriFoldInstr<F> {
    /// The flat view of the instruction.
    pub fn to_c(&self) -> (r: FriFoldInstrC<'_, F>)
        ensures
            *r.base_single_addrs == self.base_single_addrs,
            *r.ext_single_addrs == self.ext_single_addrs,
            r.ext_vec_addrs_mat_opening@ == self.ext_vec_addrs.mat_opening@,
            r.ext_vec_addrs_mat_opening_len == self.ext_vec_addrs.mat_opening@.len(),
            r.ext_vec_addrs_ps_at_z@ == self.ext_vec_addrs.ps_at_z@,
            r.ext_vec_addrs_ps_at_z_len == self.ext_vec_addrs.ps_at_z@.len(),
            r.ext_vec_addrs_alpha_pow_input@ == self.ext_vec_addrs.alpha_pow_input@,
            r.ext_vec_addrs_alpha_pow_input_len == self.ext_vec_addrs.alpha_pow_input@.len(),
            r.ext_vec_addrs_ro_input@ == self.ext_vec_addrs.ro_input@,
            r.ext_vec_addrs_ro_input_len == self.ext_vec_addrs.ro_input@.len(),
            r.ext_vec_addrs_alpha_pow_output@ == self.ext_vec_addrs.alpha_pow_output@,
            r.ext_vec_addrs_alpha_pow_output_len == self.ext_vec_addrs.alpha_pow_output@.len(),
            r.ext_vec_addrs_ro_output@ == self.ext_vec_addrs.ro_output@,
            r.ext_vec_addrs_ro_output_len == self.ext_vec_addrs.ro_output@.len(),
            r.alpha_pow_mults@ == self.alpha_pow_mults@,
            r.alpha_pow_mults_len == self.alpha_pow_mults@.len(),
            r.ro_mults@ == self.ro_mults@,
            r.ro_mults_len == self.ro_mults@.len(),
    {
        FriFoldInstrC {
            base_single_addrs: &self.base_single_addrs,
            ext_single_addrs: &self.ext_single_addrs,
            ext_vec_addrs_mat_opening: self.ext_vec_addrs.mat_opening.as_slice(),
            ext_vec_addrs_mat_opening_len: self.ext_vec_addrs.mat_opening.len(),
            ext_vec_addrs_ps_at_z: self.ext_vec_addrs.ps_at_z.as_slice(),
            ext_vec_addrs_ps_at_z_len: self.ext_vec_addrs.ps_at_z.len(),
            ext_vec_addrs_alpha_pow_input: self.ext_vec_addrs.alpha_pow_input.as_slice(),
            ext_vec_addrs_alpha_pow_input_len: self.ext_vec_addrs.alpha_pow_input.len(),
            ext_vec_addrs_ro_input: self.ext_vec_addrs.ro_input.as_slice(),
            ext_vec_addrs_ro_input_len: self.ext_vec_addrs.ro_input.len(),
            ext_vec_addrs_alpha_pow_output: self.ext_vec_addrs.alpha_pow_output.as_slice(),
            ext_vec_addrs_alpha_pow_output_len: self.ext_vec_addrs.alpha_pow_output.len(),
            ext_vec_addrs_ro_output: self.ext_vec_addrs.ro_output.as_slice(),
            ext_vec_addrs_ro_output_len: self.ext_vec_addrs.ro_output.len(),
            alpha_pow_mults: self.alpha_pow_mults.as_slice(),
            alpha_pow_mults_len: self.alpha_pow_mults.len(),
            ro_mults: self.ro_mults.as_slice(),
            ro_mults_len: self.ro_mults.len(),
        }
    }
}

/// The data of one iteration of a FRI fold: one element of each vector input.
#[derive(Clone, Debug, PartialEq, Eq)]
pub struct FriFoldEvent<F> {
    pub base_single: FriFoldBaseIo<F>,
    pub ext_single: FriFoldExtSingleIo<Block<F>>,
    pub ext_vec: FriFoldExtVecIo<Block<F>>,
}

/// The inputs and outputs of a batch FRI operation.
#[derive(Clone, Debug, PartialEq, Eq)]
pub struct BatchFRIIo<V> {
    pub ext_single: BatchFRIExtSingleIo<Block<V>>,
    pub ext_vec: BatchFRIExtVecIo<Vec<Block<V>>>,
    pub base_vec: BatchFRIBaseVecIo<V>,
}

/// The extension-field-valued single inputs to the batch FRI operation.
#[derive(Clone, Debug, PartialEq, Eq)]
pub struct BatchFRIExtSingleIo<V> {
    pub acc: V,
}

/// The extension-field-valued vector inputs to the batch FRI operation.
#[derive(Clone, Debug, PartialEq, Eq)]
pub struct BatchFRIExtVecIo<V> {
    pub p_at_z: V,
    pub alpha_pow: V,
}

/// The base-field-valued vector inputs to the batch FRI operation.
#[derive(Clone, Debug, PartialEq, Eq)]
pub struct BatchFRIBaseVecIo<V> {
    pub p_at_x: V,
}

/// An instruction invoking the batch FRI operation.
#[derive(Clone, Debug, PartialEq, Eq)]
pub struct BatchFRIInstr<F> {
    pub base_vec_addrs: BatchFRIBaseVecIo<Vec<Address<F>>>,
    pub ext_single_addrs: BatchFRIExtSingleIo<Address<F>>,
    pub ext_vec_addrs: BatchFRIExtVecIo<Vec<Address<F>>>,
    pub acc_mult: F,
}

/// A borrowed, flat view of a batch FRI instruction.
#[derive(Clone, Debug, PartialEq, Eq)]
pub struct BatchFRIInstrC<'a, F> {
    pub base_vec_addrs_p_at_x: &'a [Address<F>],
    pub base_vec_addrs_p_at_x_len: usize,
    pub ext_single_addrs: &'a BatchFRIExtSingleIo<Address<F>>,
    pub ext_vec_addrs_p_at_z: &'a [Address<F>],
    pub ext_vec_addrs_p_at_z_len: usize,
    pub ext_vec_addrs_alpha_pow: &'a [Address<F>],
    pub ext_vec_addrs_alpha_pow_len: usize,
    pub acc_mult: &'a F,
}

impl<F> BatchFRIInstr<F> {
    /// The flat view of the instruction.
    pub fn to_c(&self) -> (r: BatchFRIInstrC<'_, F>)
        ensures
            r.base_vec_addrs_p_at_x@ == self.base_vec_addrs.p_at_x@,
            r.base_vec_addrs_p_at_x_len == self.base_vec_addrs.p_at_x@.len(),
            *r.ext_single_addrs == self.ext_single_addrs,
            r.ext_vec_addrs_p_at_z@ == self.ext_vec_addrs.p_at_z@,
            r.ext_vec_addrs_p_at_z_len == self.ext_vec_addrs.p_at_z@.len(),
            r.ext_vec_addrs_alpha_pow@ == self.ext_vec_addrs.alpha_pow@,
            r.ext_vec_addrs_alpha_pow_len == self.ext_vec_addrs.alpha_pow@.len(),
            *r.acc_mult == self.acc_mult,
    {
        BatchFRIInstrC {
            base_vec_addrs_p_at_x: self.base_vec_addrs.p_at_x.as_slice(),
            base_vec_addrs_p_at_x_len: self.base_vec_addrs.p_at_x.len(),
            ext_single_addrs: &self.ext_single_addrs,
            ext_vec_addrs_p_at_z: self.ext_vec_addrs.p_at_z.as_slice(),
            ext_vec_addrs_p_at_z_len: self.ext_vec_addrs.p_at_z.len(),
            ext_vec_addrs_alpha_pow: self.ext_vec_addrs.alpha_pow.as_slice(),
            ext_vec_addrs_alpha_pow_len: self.ext_vec_addrs.alpha_pow.len(),
            acc_mult: &self.acc_mult,
        }
    }
}

/// The data of one iteration of a batch FRI operation: one element of each vector input.
#[derive(Clone, Debug, PartialEq, Eq)]
pub struct BatchFRIEvent<F> {
    pub base_vec: BatchFRIBaseVecIo<F>,
    pub ext_single: BatchFRIExtSingleIo<Block<F>>,
    pub ext_vec: BatchFRIExtVecIo<Block<F>>,
}

/// An instruction that saves the public values to the record and commits to their digest;
/// `pv_addrs` holds the address of each public value in order.
#[derive(Clone, Debug)]
pub struct CommitPublicValuesInstr<F> {
    pub pv_addrs: Vec<Address<F>>,
}

/// The event of committing to the public values, in order.
#[derive(Clone, Debug)]
pub struct CommitPublicValuesEvent<F> {
    pub public_values: Vec<F>,
}

} // verus!
