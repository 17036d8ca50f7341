use vstd::prelude::*;
use crate::bigint::le_val;
use crate::bus::{ByteLookupEvent, MemoryClaim, SyscallClaim};
use crate::curve_algebra::{
    lemma_cong_of_carry, lemma_cong_of_carry_rev, lemma_doubling_on_curve, on_curve,
};
use crate::field::BABYBEAR_P;
use crate::field_op::{
    field_op_result, invertible, range_events, FieldOpCols, FieldOperation,
};
use crate::memory_columns::MemoryAccessCols;
use crate::memory_trace::MemoryRecordEvent;
use crate::padding::{padded_height, trace_height};
use crate::weierstrass_params::{lemma_curve_bounds, lemma_le_val_single, CurveType};
use crate::word::{word_of, Word};

verus! {

/// The limbs of a word, least significant first.
pub open spec fn word_bytes(w: Word) -> Seq<u8> {
    seq![w.b0, w.b1, w.b2, w.b3]
}

/// The limbs of the accesses' previous values (`prev`) or new values, word after word.
pub open spec fn access_bytes(s: Seq<MemoryAccessCols>, prev: bool) -> Seq<u8>
    decreases s.len(),
{
    if s.len() == 0 {
        Seq::empty()
    } else {
        access_bytes(s.drop_last(), prev) + word_bytes(
            if prev {
                s.last().prev_value
            } else {
                s.last().value
            },
        )
    }
}

/// The limbs of the accesses `lo..hi` of `s`, previous values or new ones.
pub fn access_limbs(s: &Vec<MemoryAccessCols>, lo: usize, hi: usize, prev: bool) -> (r: Vec<u8>)
    requires
        lo <= hi <= s@.len(),
    ensures
        r@ == access_bytes(s@.subrange(lo as int, hi as int), prev),
        r@.len() == 4 * (hi - lo),
{
    let mut r: Vec<u8> = Vec::new();
    let mut i: usize = lo;
    assert(s@.subrange(lo as int, lo as int) =~= Seq::<MemoryAccessCols>::empty());
    while i < hi
        invariant
            lo <= i <= hi,
            hi <= s@.len(),
            r@ == access_bytes(s@.subrange(lo as int, i as int), prev),
            r@.len() == 4 * (i - lo),
        decreases hi - i,
    {
        let w = if prev {
            s[i].prev_value
        } else {
            s[i].value
        };
        r.push(w.b0);
        r.push(w.b1);
        r.push(w.b2);
        r.push(w.b3);
        proof {
            let t = s@.subrange(lo as int, i + 1);
            assert(t.drop_last() =~= s@.subrange(lo as int, i as int));
            assert(r@ =~= access_bytes(t.drop_last(), prev) + word_bytes(w));
        }
        i = i + 1;
    }
    r
}

/// One row of the chip that doubles a point of a short Weierstrass curve in place.
#[derive(Clone, Debug, PartialEq, Eq)]
pub struct WeierstrassDoubleAssignCols {
    pub is_real: bool,
    pub shard: u32,
    pub channel: u8,
    pub nonce: u32,
    pub clk: u32,
    pub p_ptr: u32,
    pub p_access: Vec<MemoryAccessCols>,
    pub slope_denominator: FieldOpCols,
    pub slope_numerator: FieldOpCols,
    pub slope: FieldOpCols,
    pub p_x_squared: FieldOpCols,
    pub p_x_squared_times_3: FieldOpCols,
    pub slope_squared: FieldOpCols,
    pub p_x_plus_p_x: FieldOpCols,
    pub x3_ins: FieldOpCols,
    pub p_x_minus_x: FieldOpCols,
    pub y3_ins: FieldOpCols,
    pub slope_times_p_x_minus_x: FieldOpCols,
}

impl WeierstrassDoubleAssignCols {
    /// The point's `x` before doubling.
    pub open spec fn x_in(&self, c: CurveType) -> nat {
        le_val(access_bytes(self.p_access@.subrange(0, c.half_words()), true))
    }

    /// The point's `y` before doubling.
    pub open spec fn y_in(&self, c: CurveType) -> nat {
        le_val(
            access_bytes(
                self.p_access@.subrange(c.half_words(), c.words_per_point() as int),
                true,
            ),
        )
    }

    /// The limbs written back for `x`.
    pub open spec fn x_out_limbs(&self, c: CurveType) -> Seq<u8> {
        access_bytes(self.p_access@.subrange(0, c.half_words()), false)
    }

    /// The limbs written back for `y`.
    pub open spec fn y_out_limbs(&self, c: CurveType) -> Seq<u8> {
        access_bytes(
            self.p_access@.subrange(c.half_words(), c.words_per_point() as int),
            false,
        )
    }

    /// Every access and gadget has the curve's size.
    pub open spec fn has_shape(&self, c: CurveType) -> bool {
        &&& self.p_access@.len() == c.words_per_point()
        &&& self.gadgets_shaped(c.nb_limbs())
    }

    /// Every gadget has `n` limbs.
    pub open spec fn gadgets_shaped(&self, n: nat) -> bool {
        &&& self.slope_denominator.has_limbs(n)
        &&& self.slope_numerator.has_limbs(n)
        &&& self.slope.has_limbs(n)
        &&& self.p_x_squared.has_limbs(n)
        &&& self.p_x_squared_times_3.has_limbs(n)
        &&& self.slope_squared.has_limbs(n)
        &&& self.p_x_plus_p_x.has_limbs(n)
        &&& self.x3_ins.has_limbs(n)
        &&& self.p_x_minus_x.has_limbs(n)
        &&& self.y3_ins.has_limbs(n)
        &&& self.slope_times_p_x_minus_x.has_limbs(n)
    }

    /// The gadgets of every operation but the division.
    pub open spec fn ops_but_slope_hold(&self, x: nat, y: nat, a: nat, p: nat) -> bool {
        let s = self.slope.result_val();
        &&& self.p_x_squared.holds(FieldOperation::Mul, x, x, p)
        &&& self.p_x_squared_times_3.holds(
            FieldOperation::Mul,
            self.p_x_squared.result_val(),
            3,
            p,
        )
        &&& self.slope_numerator.holds(
            FieldOperation::Add,
            a,
            self.p_x_squared_times_3.result_val(),
            p,
        )
        &&& self.slope_denominator.holds(FieldOperation::Mul, 2, y, p)
        &&& self.slope_squared.holds(FieldOperation::Mul, s, s, p)
        &&& self.p_x_plus_p_x.holds(FieldOperation::Add, x, x, p)
        &&& self.x3_ins.holds(
            FieldOperation::Sub,
            self.slope_squared.result_val(),
            self.p_x_plus_p_x.result_val(),
            p,
        )
        &&& self.p_x_minus_x.holds(FieldOperation::Sub, x, self.x3_ins.result_val(), p)
        &&& self.slope_times_p_x_minus_x.holds(
            FieldOperation::Mul,
            s,
            self.p_x_minus_x.result_val(),
            p,
        )
        &&& self.y3_ins.holds(
            FieldOperation::Sub,
            self.slope_times_p_x_minus_x.result_val(),
            y,
            p,
        )
    }

    /// The division gadget: `slope = numerator / denominator`.
    pub open spec fn slope_holds(&self, p: nat) -> bool {
        self.slope.holds(
            FieldOperation::Div,
            self.slope_numerator.result_val(),
            self.slope_denominator.result_val(),
            p,
        )
    }

    /// The whole chain of gadgets that doubles `(x, y)`.
    pub open spec fn field_ops_hold(&self, x: nat, y: nat, a: nat, p: nat) -> bool {
        self.ops_but_slope_hold(x, y, a, p) && self.slope_holds(p)
    }

    /// Each access to the point comes after the access before it.
    pub open spec fn accesses_ordered(&self) -> bool {
        forall|i: int|
            0 <= i < self.p_access@.len() ==> {
                let m = #[trigger] self.p_access@[i];
                m.prev_shard < self.shard || (m.prev_shard == self.shard && m.prev_clk < self.clk)
            }
    }

    /// The row-local constraints on curve `c`.
    pub open spec fn constraints_hold(&self, c: CurveType) -> bool {
        &&& self.has_shape(c)
        &&& self.is_real ==> self.accesses_ordered()
        &&& self.is_real ==> self.field_ops_hold(self.x_in(c), self.y_in(c), c.a(), c.p())
        &&& self.is_real ==> self.x_out_limbs(c) == self.x3_ins.result@
        &&& self.is_real ==> self.y_out_limbs(c) == self.y3_ins.result@
    }

    /// The byte-range claims of the slope's gadgets, in the order they are filled.
    pub open spec fn slope_range_events(&self, shard: u32, channel: u8) -> Seq<ByteLookupEvent> {
        gadget_range_events(self.p_x_squared, shard, channel) + gadget_range_events(
            self.p_x_squared_times_3,
            shard,
            channel,
        ) + gadget_range_events(self.slope_numerator, shard, channel) + gadget_range_events(
            self.slope_denominator,
            shard,
            channel,
        ) + gadget_range_events(self.slope, shard, channel)
    }

    /// The byte-range claims of the new point's gadgets, in the order they are filled.
    pub open spec fn point_range_events(&self, shard: u32, channel: u8) -> Seq<ByteLookupEvent> {
        gadget_range_events(self.slope_squared, shard, channel) + gadget_range_events(
            self.p_x_plus_p_x,
            shard,
            channel,
        ) + gadget_range_events(self.x3_ins, shard, channel) + gadget_range_events(
            self.p_x_minus_x,
            shard,
            channel,
        ) + gadget_range_events(self.slope_times_p_x_minus_x, shard, channel)
            + gadget_range_events(self.y3_ins, shard, channel)
    }

    /// The byte-range claims of all gadgets, in the order they are filled.
    pub open spec fn ops_range_events(&self, shard: u32, channel: u8) -> Seq<ByteLookupEvent> {
        self.slope_range_events(shard, channel) + self.point_range_events(shard, channel)
    }

    /// The slope's gadgets as filling writes them for `(x, y)`.
    #[verifier::opaque]
    pub open spec fn slope_populated(&self, x: nat, y: nat, a: nat, p: nat, n: nat) -> bool {
        &&& gadget_filled(self.p_x_squared, FieldOperation::Mul, x, x, p, n)
        &&& gadget_filled(
            self.p_x_squared_times_3,
            FieldOperation::Mul,
            self.p_x_squared.result_val(),
            3,
            p,
            n,
        )
        &&& gadget_filled(
            self.slope_numerator,
            FieldOperation::Add,
            a,
            self.p_x_squared_times_3.result_val(),
            p,
            n,
        )
        &&& gadget_filled(self.slope_denominator, FieldOperation::Mul, 2, y, p, n)
        &&& gadget_filled(
            self.slope,
            FieldOperation::Div,
            self.slope_numerator.result_val(),
            self.slope_denominator.result_val(),
            p,
            n,
        )
    }

    /// The new point's gadgets as filling writes them for `x`, `y` and the slope column.
    #[verifier::opaque]
    pub open spec fn point_populated(&self, x: nat, y: nat, p: nat, n: nat) -> bool {
        let s = self.slope.result_val();
        &&& gadget_filled(self.slope_squared, FieldOperation::Mul, s, s, p, n)
        &&& gadget_filled(self.p_x_plus_p_x, FieldOperation::Add, x, x, p, n)
        &&& gadget_filled(
            self.x3_ins,
            FieldOperation::Sub,
            self.slope_squared.result_val(),
            self.p_x_plus_p_x.result_val(),
            p,
            n,
        )
        &&& gadget_filled(self.p_x_minus_x, FieldOperation::Sub, x, self.x3_ins.result_val(), p, n)
        &&& gadget_filled(
            self.slope_times_p_x_minus_x,
            FieldOperation::Mul,
            s,
            self.p_x_minus_x.result_val(),
            p,
            n,
        )
        &&& gadget_filled(
            self.y3_ins,
            FieldOperation::Sub,
            self.slope_times_p_x_minus_x.result_val(),
            y,
            p,
            n,
        )
    }

    /// Every gadget as filling writes it for the point `(x, y)`.
    pub open spec fn ops_populated(&self, x: nat, y: nat, a: nat, p: nat, n: nat) -> bool {
        self.slope_populated(x, y, a, p, n) && self.point_populated(x, y, p, n)
    }
}

/// The byte-range claims of one gadget: its result limbs, then its carry limbs.
pub open spec fn gadget_range_events(o: FieldOpCols, shard: u32, channel: u8) -> Seq<
    ByteLookupEvent,
> {
    range_events(shard, channel, o.result@) + range_events(shard, channel, o.carry@)
}

/// A gadget as filling writes it for `lhs op rhs` modulo `p` in `n` limbs: its limbs are
/// fixed, its result is reduced, and its constraints hold (for a division, where the
/// divisor has an inverse).
pub open spec fn gadget_filled(
    o: FieldOpCols,
    op: FieldOperation,
    lhs: nat,
    rhs: nat,
    p: nat,
    n: nat,
) -> bool {
    &&& o.has_limbs(n)
    &&& o.is_populated(op, lhs, rhs, p, n)
    &&& o.result_val() == field_op_result(op, lhs, rhs, p)
    &&& o.result_val() < p
    &&& (op != FieldOperation::Div || invertible(rhs, p)) ==> o.holds(op, lhs, rhs, p)
}

/// The slope `(3 x^2 + a) / (2 y)` modulo `p`, as the gadgets compute it.
pub open spec fn double_slope(x: nat, y: nat, a: nat, p: nat) -> nat {
    let x2 = field_op_result(FieldOperation::Mul, x, x, p);
    let x2_3 = field_op_result(FieldOperation::Mul, x2, 3, p);
    let num = field_op_result(FieldOperation::Add, a, x2_3, p);
    let den = field_op_result(FieldOperation::Mul, 2, y, p);
    field_op_result(FieldOperation::Div, num, den, p)
}

/// The doubled point's `x`: `slope^2 - 2 x` modulo `p`.
pub open spec fn double_x(x: nat, y: nat, a: nat, p: nat) -> nat {
    let s = double_slope(x, y, a, p);
    field_op_result(
        FieldOperation::Sub,
        field_op_result(FieldOperation::Mul, s, s, p),
        field_op_result(FieldOperation::Add, x, x, p),
        p,
    )
}

/// The doubled point's `y`: `slope (x - x') - y` modulo `p`.
pub open spec fn double_y(x: nat, y: nat, a: nat, p: nat) -> nat {
    let s = double_slope(x, y, a, p);
    let x3 = double_x(x, y, a, p);
    field_op_result(
        FieldOperation::Sub,
        field_op_result(FieldOperation::Mul, s, field_op_result(FieldOperation::Sub, x, x3, p), p),
        y,
        p,
    )
}

/// One call of the doubling precompile, with the memory accesses it made: the point's
/// words before (`prev_value`) and after (`value`).
#[derive(Clone, Debug, PartialEq, Eq)]
pub struct EllipticCurveDoubleEvent {
    pub shard: u32,
    pub channel: u8,
    pub clk: u32,
    pub p_ptr: u32,
    pub p_memory_records: Vec<MemoryRecordEvent>,
}

/// The chip for one curve.
#[derive(Clone, Copy, Debug)]
pub struct WeierstrassDoubleAssignChip {
    pub curve: CurveType,
}

/// A constant as a single limb.
fn small(v: u8) -> (r: Vec<u8>)
    ensures
        le_val(r@) == v,
        r@ == seq![v],
{
    let mut r: Vec<u8> = Vec::new();
    r.push(v);
    proof {
        assert(r@ =~= seq![v]);
        lemma_le_val_single(v);
    }
    r
}

impl WeierstrassDoubleAssignChip {
    /// The chip for `curve`.
    pub fn new(curve: CurveType) -> (r: Self)
        ensures
            r.curve == curve,
    {
        WeierstrassDoubleAssignChip { curve }
    }

    /// Fills the slope's gadgets for `(p_x, p_y)`, recording their byte-range claims.
    #[verifier::rlimit(100)]
    fn populate_slope(
        &self,
        blu_events: &mut Vec<ByteLookupEvent>,
        shard: u32,
        channel: u8,
        cols: &mut WeierstrassDoubleAssignCols,
        p_x: &Vec<u8>,
        p_y: &Vec<u8>,
    )
        requires
            le_val(p_x@) < self.curve.p(),
            le_val(p_y@) < self.curve.p(),
        ensures
            final(cols).slope_populated(
                le_val(p_x@),
                le_val(p_y@),
                self.curve.a(),
                self.curve.p(),
                self.curve.nb_limbs(),
            ),
            *final(cols) == (WeierstrassDoubleAssignCols {
                p_x_squared: final(cols).p_x_squared,
                p_x_squared_times_3: final(cols).p_x_squared_times_3,
                slope_numerator: final(cols).slope_numerator,
                slope_denominator: final(cols).slope_denominator,
                slope: final(cols).slope,
                ..*old(cols)
            }),
            final(blu_events)@ == old(blu_events)@ + final(cols).slope_range_events(shard, channel),
    {
        let p = self.curve.modulus();
        let n = self.curve.num_limbs();
        let a = self.curve.a_int();
        let two = small(2);
        let three = small(3);
        proof {
            lemma_curve_bounds(self.curve);
        }
        let ghost start = blu_events@;
        let p_x_squared = FieldOpCols::populate(
            blu_events,
            shard,
            channel,
            p_x,
            p_x,
            FieldOperation::Mul,
            &p,
            n,
        );
        let p_x_squared_times_3 = FieldOpCols::populate(
            blu_events,
            shard,
            channel,
            &p_x_squared.result,
            &three,
            FieldOperation::Mul,
            &p,
            n,
        );
        let slope_numerator = FieldOpCols::populate(
            blu_events,
            shard,
            channel,
            &a,
            &p_x_squared_times_3.result,
            FieldOperation::Add,
            &p,
            n,
        );
        let slope_denominator = FieldOpCols::populate(
            blu_events,
            shard,
            channel,
            &two,
            p_y,
            FieldOperation::Mul,
            &p,
            n,
        );
        let slope = FieldOpCols::populate(
            blu_events,
            shard,
            channel,
            &slope_numerator.result,
            &slope_denominator.result,
            FieldOperation::Div,
            &p,
            n,
        );
        cols.p_x_squared = p_x_squared;
        cols.p_x_squared_times_3 = p_x_squared_times_3;
        cols.slope_numerator = slope_numerator;
        cols.slope_denominator = slope_denominator;
        cols.slope = slope;
        proof {
            reveal(WeierstrassDoubleAssignCols::slope_populated);
            assert(blu_events@ =~= start + cols.slope_range_events(shard, channel));
        }
    }

    /// Fills the new point's gadgets for `(p_x, p_y)` and the slope column, recording their
    /// byte-range claims.
    #[verifier::rlimit(100)]
    fn populate_point(
        &self,
        blu_events: &mut Vec<ByteLookupEvent>,
        shard: u32,
        channel: u8,
        cols: &mut WeierstrassDoubleAssignCols,
        p_x: &Vec<u8>,
        p_y: &Vec<u8>,
    )
        requires
            le_val(p_x@) < self.curve.p(),
            le_val(p_y@) < self.curve.p(),
            old(cols).slope.result_val() < self.curve.p(),
        ensures
            final(cols).point_populated(
                le_val(p_x@),
                le_val(p_y@),
                self.curve.p(),
                self.curve.nb_limbs(),
            ),
            *final(cols) == (WeierstrassDoubleAssignCols {
                slope_squared: final(cols).slope_squared,
                p_x_plus_p_x: final(cols).p_x_plus_p_x,
                x3_ins: final(cols).x3_ins,
                p_x_minus_x: final(cols).p_x_minus_x,
                slope_times_p_x_minus_x: final(cols).slope_times_p_x_minus_x,
                y3_ins: final(cols).y3_ins,
                ..*old(cols)
            }),
            final(blu_events)@ == old(blu_events)@ + final(cols).point_range_events(shard, channel),
    {
        let p = self.curve.modulus();
        let n = self.curve.num_limbs();
        proof {
            lemma_curve_bounds(self.curve);
        }
        let ghost start = blu_events@;
        let slope_squared = FieldOpCols::populate(
            blu_events,
            shard,
            channel,
            &cols.slope.result,
            &cols.slope.result,
            FieldOperation::Mul,
            &p,
            n,
        );
        let p_x_plus_p_x = FieldOpCols::populate(
            blu_events,
            shard,
            channel,
            p_x,
            p_x,
            FieldOperation::Add,
            &p,
            n,
        );
        let x3_ins = FieldOpCols::populate(
            blu_events,
            shard,
            channel,
            &slope_squared.result,
            &p_x_plus_p_x.result,
            FieldOperation::Sub,
            &p,
            n,
        );
        let p_x_minus_x = FieldOpCols::populate(
            blu_events,
            shard,
            channel,
            p_x,
            &x3_ins.result,
            FieldOperation::Sub,
            &p,
            n,
        );
        let slope_times_p_x_minus_x = FieldOpCols::populate(
            blu_events,
            shard,
            channel,
            &cols.slope.result,
            &p_x_minus_x.result,
            FieldOperation::Mul,
            &p,
            n,
        );
        let y3_ins = FieldOpCols::populate(
            blu_events,
            shard,
            channel,
            &slope_times_p_x_minus_x.result,
            p_y,
            FieldOperation::Sub,
            &p,
            n,
        );
        cols.slope_squared = slope_squared;
        cols.p_x_plus_p_x = p_x_plus_p_x;
        cols.x3_ins = x3_ins;
        cols.p_x_minus_x = p_x_minus_x;
        cols.slope_times_p_x_minus_x = slope_times_p_x_minus_x;
        cols.y3_ins = y3_ins;
        proof {
            reveal(WeierstrassDoubleAssignCols::point_populated);
            assert(blu_events@ =~= start + cols.point_range_events(shard, channel));
        }
    }

    /// Fills the gadgets that double `(p_x, p_y)`, recording their byte-range claims: each
    /// gadget's limbs are fixed by the point, the slope is `(3 x^2 + a) / (2 y)` and the new
    /// point is `(slope^2 - 2 x, slope (x - x') - y)`, all reduced modulo `p`. Where `2 y`
    /// has an inverse, every gadget's constraints hold and a point on the curve doubles to a
    /// point on the curve.
    #[verifier::rlimit(100)]
    pub fn populate_field_ops(
        &self,
        blu_events: &mut Vec<ByteLookupEvent>,
        shard: u32,
        channel: u8,
        cols: &mut WeierstrassDoubleAssignCols,
        p_x: &Vec<u8>,
        p_y: &Vec<u8>,
    )
        requires
            le_val(p_x@) < self.curve.p(),
            le_val(p_y@) < self.curve.p(),
        ensures
            final(cols).p_access == old(cols).p_access,
            final(cols).is_real == old(cols).is_real,
            final(cols).shard == old(cols).shard,
            final(cols).channel == old(cols).channel,
            final(cols).nonce == old(cols).nonce,
            final(cols).clk == old(cols).clk,
            final(cols).p_ptr == old(cols).p_ptr,
            final(cols).ops_populated(
                le_val(p_x@),
                le_val(p_y@),
                self.curve.a(),
                self.curve.p(),
                self.curve.nb_limbs(),
            ),
            final(cols).gadgets_shaped(self.curve.nb_limbs()),
            final(cols).slope.result_val() == double_slope(
                le_val(p_x@),
                le_val(p_y@),
                self.curve.a(),
                self.curve.p(),
            ),
            final(cols).x3_ins.result_val() == double_x(
                le_val(p_x@),
                le_val(p_y@),
                self.curve.a(),
                self.curve.p(),
            ),
            final(cols).y3_ins.result_val() == double_y(
                le_val(p_x@),
                le_val(p_y@),
                self.curve.a(),
                self.curve.p(),
            ),
            final(cols).ops_but_slope_hold(
                le_val(p_x@),
                le_val(p_y@),
                self.curve.a(),
                self.curve.p(),
            ),
            invertible(final(cols).slope_denominator.result_val(), self.curve.p())
                ==> final(cols).slope_holds(self.curve.p()),
            invertible(final(cols).slope_denominator.result_val(), self.curve.p()) && on_curve(
                le_val(p_x@) as int,
                le_val(p_y@) as int,
                self.curve.a() as int,
                self.curve.b() as int,
                self.curve.p() as int,
            ) ==> on_curve(
                final(cols).x3_ins.result_val() as int,
                final(cols).y3_ins.result_val() as int,
                self.curve.a() as int,
                self.curve.b() as int,
                self.curve.p() as int,
            ),
            final(blu_events)@ == old(blu_events)@ + final(cols).ops_range_events(shard, channel),
    {
        let ghost start = blu_events@;
        self.populate_slope(blu_events, shard, channel, cols, p_x, p_y);
        proof {
            reveal(WeierstrassDoubleAssignCols::slope_populated);
        }
        self.populate_point(blu_events, shard, channel, cols, p_x, p_y);
        proof {
            lemma_curve_bounds(self.curve);
            lemma_populated_gadgets(
                *cols,
                le_val(p_x@),
                le_val(p_y@),
                self.curve.a(),
                self.curve.p(),
                self.curve.nb_limbs(),
            );
            assert(blu_events@ =~= start + cols.ops_range_events(shard, channel));
            if invertible(cols.slope_denominator.result_val(), self.curve.p()) && on_curve(
                le_val(p_x@) as int,
                le_val(p_y@) as int,
                self.curve.a() as int,
                self.curve.b() as int,
                self.curve.p() as int,
            ) {
                lemma_field_ops_on_curve(
                    *cols,
                    le_val(p_x@) as int,
                    le_val(p_y@) as int,
                    self.curve.b() as int,
                    self.curve.p() as int,
                    self.curve.a(),
                );
            }
        }
    }
}


/// Filled gadgets hold the doubling's values and meet their constraints (the division's
/// where the denominator has an inverse).
pub proof fn lemma_populated_gadgets(
    cols: WeierstrassDoubleAssignCols,
    x: nat,
    y: nat,
    a: nat,
    p: nat,
    n: nat,
)
    requires
        cols.ops_populated(x, y, a, p, n),
    ensures
        cols.slope.result_val() == double_slope(x, y, a, p),
        cols.x3_ins.result_val() == double_x(x, y, a, p),
        cols.y3_ins.result_val() == double_y(x, y, a, p),
        cols.ops_but_slope_hold(x, y, a, p),
        invertible(cols.slope_denominator.result_val(), p) ==> cols.slope_holds(p),
        cols.gadgets_shaped(n),
{
    reveal(WeierstrassDoubleAssignCols::slope_populated);
    reveal(WeierstrassDoubleAssignCols::point_populated);
}

/// The gadgets' facts do not depend on the row's nonce.
proof fn lemma_ops_populated_nonce(
    r: WeierstrassDoubleAssignCols,
    nonce: u32,
    x: nat,
    y: nat,
    a: nat,
    p: nat,
    n: nat,
)
    requires
        r.ops_populated(x, y, a, p, n),
    ensures
        (WeierstrassDoubleAssignCols { nonce, ..r }).ops_populated(x, y, a, p, n),
{
    reveal(WeierstrassDoubleAssignCols::slope_populated);
    reveal(WeierstrassDoubleAssignCols::point_populated);
}

/// Doubling keeps a point on its curve: on a real row that meets the constraints, if the
/// point read from memory is on the curve, the point written back is on it too, and the
/// limbs written back hold the gadgets' results.
pub proof fn lemma_double_on_curve(row: WeierstrassDoubleAssignCols, c: CurveType)
    requires
        row.constraints_hold(c),
        row.is_real,
        on_curve(row.x_in(c) as int, row.y_in(c) as int, c.a() as int, c.b() as int, c.p() as int),
    ensures
        on_curve(
            row.x3_ins.result_val() as int,
            row.y3_ins.result_val() as int,
            c.a() as int,
            c.b() as int,
            c.p() as int,
        ),
        le_val(row.x_out_limbs(c)) == row.x3_ins.result_val(),
        le_val(row.y_out_limbs(c)) == row.y3_ins.result_val(),
{
    lemma_curve_bounds(c);
    lemma_field_ops_on_curve(
        row,
        row.x_in(c) as int,
        row.y_in(c) as int,
        c.b() as int,
        c.p() as int,
        c.a(),
    );
}

/// Gadgets that meet the doubling chain's constraints on an on-curve point `(x, y)` hold an
/// on-curve point.
pub proof fn lemma_field_ops_on_curve(
    row: WeierstrassDoubleAssignCols,
    x: int,
    y: int,
    b: int,
    p: int,
    a_nat: nat,
)
    requires
        p > 0,
        x >= 0,
        y >= 0,
        row.field_ops_hold(x as nat, y as nat, a_nat, p as nat),
        on_curve(x, y, a_nat as int, b, p),
    ensures
        on_curve(
            row.x3_ins.result_val() as int,
            row.y3_ins.result_val() as int,
            a_nat as int,
            b,
            p,
        ),
{
    let a = a_nat as int;
    let px2 = row.p_x_squared.result_val() as int;
    let px2_3 = row.p_x_squared_times_3.result_val() as int;
    let num = row.slope_numerator.result_val() as int;
    let den = row.slope_denominator.result_val() as int;
    let s = row.slope.result_val() as int;
    let ssq = row.slope_squared.result_val() as int;
    let pxpx = row.p_x_plus_p_x.result_val() as int;
    let x3 = row.x3_ins.result_val() as int;
    let pmx = row.p_x_minus_x.result_val() as int;
    let stp = row.slope_times_p_x_minus_x.result_val() as int;
    let y3 = row.y3_ins.result_val() as int;
    lemma_cong_of_carry_rev(px2, x * x, le_val(row.p_x_squared.carry@) as int, p);
    lemma_cong_of_carry_rev(px2_3, px2 * 3, le_val(row.p_x_squared_times_3.carry@) as int, p);
    lemma_cong_of_carry_rev(num, a + px2_3, le_val(row.slope_numerator.carry@) as int, p);
    lemma_cong_of_carry_rev(den, 2 * y, le_val(row.slope_denominator.carry@) as int, p);
    lemma_cong_of_carry(s * den, num, le_val(row.slope.carry@) as int, p);
    lemma_cong_of_carry_rev(ssq, s * s, le_val(row.slope_squared.carry@) as int, p);
    lemma_cong_of_carry_rev(pxpx, x + x, le_val(row.p_x_plus_p_x.carry@) as int, p);
    lemma_cong_of_carry(x3 + pxpx, ssq, le_val(row.x3_ins.carry@) as int, p);
    lemma_cong_of_carry(pmx + x3, x, le_val(row.p_x_minus_x.carry@) as int, p);
    lemma_cong_of_carry_rev(stp, s * pmx, le_val(row.slope_times_p_x_minus_x.carry@) as int, p);
    lemma_cong_of_carry(y3 + y, stp, le_val(row.y3_ins.carry@) as int, p);
    lemma_doubling_on_curve(
        x,
        y,
        a,
        b,
        p,
        px2,
        px2_3,
        num,
        den,
        s,
        ssq,
        pxpx,
        x3,
        pmx,
        stp,
        y3,
    );
}

/// Whether each access of the row comes after the access before it.
fn eval_accesses_ordered(local: &WeierstrassDoubleAssignCols) -> (ok: bool)
    ensures
        ok == local.accesses_ordered(),
{
    let mut i: usize = 0;
    while i < local.p_access.len()
        invariant
            i <= local.p_access@.len(),
            forall|k: int|
                0 <= k < i ==> {
                    let m = #[trigger] local.p_access@[k];
                    m.prev_shard < local.shard || (m.prev_shard == local.shard && m.prev_clk
                        < local.clk)
                },
        decreases local.p_access@.len() - i,
    {
        let m = &local.p_access[i];
        if !(m.prev_shard < local.shard || (m.prev_shard == local.shard && m.prev_clk < local.clk)) {
            return false;
        }
        i = i + 1;
    }
    true
}

/// Whether two limb strings are equal.
fn bytes_eq(a: &Vec<u8>, b: &Vec<u8>) -> (r: bool)
    ensures
        r == (a@ == b@),
{
    if a.len() != b.len() {
        return false;
    }
    let mut i: usize = 0;
    while i < a.len()
        invariant
            a@.len() == b@.len(),
            i <= a@.len(),
            forall|j: int| 0 <= j < i ==> a@[j] == b@[j],
        decreases a@.len() - i,
    {
        if a[i] != b[i] {
            return false;
        }
        i = i + 1;
    }
    assert(a@ =~= b@);
    true
}

impl WeierstrassDoubleAssignChip {
    /// Whether every row-local constraint holds on `local`.
    pub fn eval(&self, local: &WeierstrassDoubleAssignCols) -> (ok: bool)
        ensures
            ok == local.constraints_hold(self.curve),
    {
        let n = self.curve.num_limbs();
        let w = self.curve.num_words();
        let shape = local.p_access.len() == w && local.slope_denominator.result.len() == n
            && local.slope_denominator.carry.len() == n && local.slope_numerator.result.len() == n
            && local.slope_numerator.carry.len() == n && local.slope.result.len() == n
            && local.slope.carry.len() == n && local.p_x_squared.result.len() == n
            && local.p_x_squared.carry.len() == n && local.p_x_squared_times_3.result.len() == n
            && local.p_x_squared_times_3.carry.len() == n && local.slope_squared.result.len() == n
            && local.slope_squared.carry.len() == n && local.p_x_plus_p_x.result.len() == n
            && local.p_x_plus_p_x.carry.len() == n && local.x3_ins.result.len() == n
            && local.x3_ins.carry.len() == n && local.p_x_minus_x.result.len() == n
            && local.p_x_minus_x.carry.len() == n && local.y3_ins.result.len() == n
            && local.y3_ins.carry.len() == n && local.slope_times_p_x_minus_x.result.len() == n
            && local.slope_times_p_x_minus_x.carry.len() == n;
        if !shape {
            return false;
        }
        if !local.is_real {
            return true;
        }
        let h = w / 2;
        let p = self.curve.modulus();
        let a = self.curve.a_int();
        let two = small(2);
        let three = small(3);
        let p_x = access_limbs(&local.p_access, 0, h, true);
        let p_y = access_limbs(&local.p_access, h, w, true);
        let s = &local.slope.result;
        let ops_ok = local.p_x_squared.eval(&p_x, &p_x, FieldOperation::Mul, &p)
            && local.p_x_squared_times_3.eval(
            &local.p_x_squared.result,
            &three,
            FieldOperation::Mul,
            &p,
        ) && local.slope_numerator.eval(
            &a,
            &local.p_x_squared_times_3.result,
            FieldOperation::Add,
            &p,
        ) && local.slope_denominator.eval(&two, &p_y, FieldOperation::Mul, &p)
            && local.slope_squared.eval(s, s, FieldOperation::Mul, &p) && local.p_x_plus_p_x.eval(
            &p_x,
            &p_x,
            FieldOperation::Add,
            &p,
        ) && local.x3_ins.eval(
            &local.slope_squared.result,
            &local.p_x_plus_p_x.result,
            FieldOperation::Sub,
            &p,
        ) && local.p_x_minus_x.eval(&p_x, &local.x3_ins.result, FieldOperation::Sub, &p)
            && local.slope_times_p_x_minus_x.eval(
            s,
            &local.p_x_minus_x.result,
            FieldOperation::Mul,
            &p,
        ) && local.y3_ins.eval(
            &local.slope_times_p_x_minus_x.result,
            &p_y,
            FieldOperation::Sub,
            &p,
        );
        let slope_ok = local.slope.eval(
            &local.slope_numerator.result,
            &local.slope_denominator.result,
            FieldOperation::Div,
            &p,
        );
        let x_out = access_limbs(&local.p_access, 0, h, false);
        let y_out = access_limbs(&local.p_access, h, w, false);
        ops_ok && slope_ok && eval_accesses_ordered(local) && bytes_eq(
            &x_out,
            &local.x3_ins.result,
        ) && bytes_eq(
            &y_out,
            &local.y3_ins.result,
        )
    }

    /// The syscall that a row receives: the precompile's call with the point's address.
    pub open spec fn syscall_claim_of(&self, r: WeierstrassDoubleAssignCols) -> SyscallClaim {
        SyscallClaim {
            shard: r.shard,
            channel: r.channel,
            clk: r.clk,
            nonce: r.nonce,
            syscall_id: self.curve.syscall_id_spec(),
            arg1: r.p_ptr,
            arg2: 0,
            multiplicity: if r.is_real {
                1
            } else {
                0
            },
        }
    }

    /// The syscall that the row receives.
    pub fn syscall_claim(&self, local: &WeierstrassDoubleAssignCols) -> (r: SyscallClaim)
        ensures
            r == self.syscall_claim_of(*local),
    {
        SyscallClaim {
            shard: local.shard,
            channel: local.channel,
            clk: local.clk,
            nonce: local.nonce,
            syscall_id: self.curve.syscall_id(),
            arg1: local.p_ptr,
            arg2: 0,
            multiplicity: if local.is_real {
                1
            } else {
                0
            },
        }
    }
}


/// An access column set of zeros.
pub open spec fn zero_access() -> MemoryAccessCols {
    MemoryAccessCols {
        prev_value: Word { b0: 0, b1: 0, b2: 0, b3: 0 },
        value: Word { b0: 0, b1: 0, b2: 0, b3: 0 },
        prev_shard: 0,
        prev_clk: 0,
    }
}

/// A padding row (up to its nonce): not real, every scalar and access zero, and the gadgets
/// as filling writes them for the point `(0, 0)`.
pub open spec fn is_padding_row(r: WeierstrassDoubleAssignCols, c: CurveType) -> bool {
    &&& !r.is_real
    &&& r.shard == 0
    &&& r.channel == 0
    &&& r.clk == 0
    &&& r.p_ptr == 0
    &&& r.p_access@.len() == c.words_per_point()
    &&& forall|i: int| 0 <= i < r.p_access@.len() ==> #[trigger] r.p_access@[i] == zero_access()
    &&& r.ops_populated(0, 0, c.a(), c.p(), c.nb_limbs())
}

/// The row for an event (up to its nonce): real, its scalars and accesses the event's, and
/// the gadgets as filling writes them for the point it reads.
pub open spec fn is_event_row(r: WeierstrassDoubleAssignCols, e: EllipticCurveDoubleEvent, c: CurveType) -> bool {
    &&& r.is_real
    &&& r.shard == e.shard
    &&& r.channel == e.channel
    &&& r.clk == e.clk
    &&& r.p_ptr == e.p_ptr
    &&& r.p_access@ == event_access(e)
    &&& r.x_in(c) == event_x(e, c)
    &&& r.y_in(c) == event_y(e, c)
    &&& r.ops_populated(event_x(e, c), event_y(e, c), c.a(), c.p(), c.nb_limbs())
}

/// A trace of the events `events`: the padded height, the nonce counting rows, a row per
/// event in order and padding rows after them.
pub open spec fn is_trace_of(
    rows: Seq<WeierstrassDoubleAssignCols>,
    events: Seq<EllipticCurveDoubleEvent>,
    c: CurveType,
) -> bool {
    &&& rows.len() == padded_height(events.len())
    &&& forall|i: int| 0 <= i < rows.len() ==> #[trigger] rows[i].nonce == i
    &&& forall|i: int| 0 <= i < events.len() ==> is_event_row(#[trigger] rows[i], events[i], c)
    &&& forall|i: int| events.len() <= i < rows.len() ==> is_padding_row(#[trigger] rows[i], c)
}

/// Two gadgets hold the same limbs.
pub open spec fn gadgets_agree(a: FieldOpCols, b: FieldOpCols) -> bool {
    a.result@ == b.result@ && a.carry@ == b.carry@
}

/// Two rows hold the same cells.
pub open spec fn rows_agree(r1: WeierstrassDoubleAssignCols, r2: WeierstrassDoubleAssignCols) -> bool {
    &&& r1.is_real == r2.is_real
    &&& r1.shard == r2.shard
    &&& r1.channel == r2.channel
    &&& r1.nonce == r2.nonce
    &&& r1.clk == r2.clk
    &&& r1.p_ptr == r2.p_ptr
    &&& r1.p_access@ == r2.p_access@
    &&& gadgets_agree(r1.slope_denominator, r2.slope_denominator)
    &&& gadgets_agree(r1.slope_numerator, r2.slope_numerator)
    &&& gadgets_agree(r1.slope, r2.slope)
    &&& gadgets_agree(r1.p_x_squared, r2.p_x_squared)
    &&& gadgets_agree(r1.p_x_squared_times_3, r2.p_x_squared_times_3)
    &&& gadgets_agree(r1.slope_squared, r2.slope_squared)
    &&& gadgets_agree(r1.p_x_plus_p_x, r2.p_x_plus_p_x)
    &&& gadgets_agree(r1.x3_ins, r2.x3_ins)
    &&& gadgets_agree(r1.p_x_minus_x, r2.p_x_minus_x)
    &&& gadgets_agree(r1.y3_ins, r2.y3_ins)
    &&& gadgets_agree(r1.slope_times_p_x_minus_x, r2.slope_times_p_x_minus_x)
}

/// Gadgets filled for the same point hold the same limbs.
proof fn lemma_populated_gadgets_agree(
    r1: WeierstrassDoubleAssignCols,
    r2: WeierstrassDoubleAssignCols,
    x: nat,
    y: nat,
    a: nat,
    p: nat,
    n: nat,
)
    requires
        r1.ops_populated(x, y, a, p, n),
        r2.ops_populated(x, y, a, p, n),
    ensures
        gadgets_agree(r1.slope_denominator, r2.slope_denominator),
        gadgets_agree(r1.slope_numerator, r2.slope_numerator),
        gadgets_agree(r1.slope, r2.slope),
        gadgets_agree(r1.p_x_squared, r2.p_x_squared),
        gadgets_agree(r1.p_x_squared_times_3, r2.p_x_squared_times_3),
        gadgets_agree(r1.slope_squared, r2.slope_squared),
        gadgets_agree(r1.p_x_plus_p_x, r2.p_x_plus_p_x),
        gadgets_agree(r1.x3_ins, r2.x3_ins),
        gadgets_agree(r1.p_x_minus_x, r2.p_x_minus_x),
        gadgets_agree(r1.y3_ins, r2.y3_ins),
        gadgets_agree(r1.slope_times_p_x_minus_x, r2.slope_times_p_x_minus_x),
{
    reveal(WeierstrassDoubleAssignCols::slope_populated);
    reveal(WeierstrassDoubleAssignCols::point_populated);
}

/// Trace generation is deterministic: two traces of the same events hold the same cells.
pub proof fn lemma_traces_of_same_events_agree(
    rows1: Seq<WeierstrassDoubleAssignCols>,
    rows2: Seq<WeierstrassDoubleAssignCols>,
    events: Seq<EllipticCurveDoubleEvent>,
    c: CurveType,
)
    requires
        is_trace_of(rows1, events, c),
        is_trace_of(rows2, events, c),
    ensures
        rows1.len() == rows2.len(),
        forall|i: int| 0 <= i < rows1.len() ==> rows_agree(#[trigger] rows1[i], rows2[i]),
{
    assert forall|i: int| 0 <= i < rows1.len() implies rows_agree(#[trigger] rows1[i], rows2[i]) by {
        let (r1, r2) = (rows1[i], rows2[i]);
        if i < events.len() {
            let e = events[i];
            assert(is_event_row(r1, e, c) && is_event_row(r2, e, c));
            lemma_populated_gadgets_agree(r1, r2, event_x(e, c), event_y(e, c), c.a(), c.p(), c.nb_limbs());
        } else {
            assert(is_padding_row(r1, c) && is_padding_row(r2, c));
            assert(r1.p_access@ =~= r2.p_access@);
            lemma_populated_gadgets_agree(r1, r2, 0, 0, c.a(), c.p(), c.nb_limbs());
        }
    }
}

/// The access columns for one recorded access.
pub open spec fn record_cols(r: MemoryRecordEvent) -> MemoryAccessCols {
    MemoryAccessCols {
        prev_value: word_of(r.prev_value),
        value: word_of(r.value),
        prev_shard: r.prev_shard % BABYBEAR_P,
        prev_clk: r.prev_clk % BABYBEAR_P,
    }
}

/// The access columns for an event's accesses.
pub open spec fn event_access(e: EllipticCurveDoubleEvent) -> Seq<MemoryAccessCols> {
    e.p_memory_records@.map_values(|r: MemoryRecordEvent| record_cols(r))
}

/// The `x` that an event reads.
pub open spec fn event_x(e: EllipticCurveDoubleEvent, c: CurveType) -> nat {
    le_val(access_bytes(event_access(e).subrange(0, c.half_words()), true))
}

/// The `y` that an event reads.
pub open spec fn event_y(e: EllipticCurveDoubleEvent, c: CurveType) -> nat {
    le_val(access_bytes(event_access(e).subrange(c.half_words(), c.words_per_point() as int), true))
}

/// An event the chip can take: one access per word of the point, and coordinates that are
/// elements of the base field.
pub open spec fn event_ok(e: EllipticCurveDoubleEvent, c: CurveType) -> bool {
    &&& e.p_memory_records@.len() == c.words_per_point()
    &&& event_x(e, c) < c.p()
    &&& event_y(e, c) < c.p()
}

/// The events of one shard that the doubling chips read, and the byte-lookup claims that
/// trace generation adds.
#[derive(Clone, Debug, PartialEq, Eq)]
pub struct ExecutionRecord {
    pub secp256k1_double_events: Vec<EllipticCurveDoubleEvent>,
    pub bn254_double_events: Vec<EllipticCurveDoubleEvent>,
    pub bls12381_double_events: Vec<EllipticCurveDoubleEvent>,
    pub byte_lookups: Vec<ByteLookupEvent>,
}

impl ExecutionRecord {
    /// The doubling events of curve `c`.
    pub open spec fn double_events(&self, c: CurveType) -> Seq<EllipticCurveDoubleEvent> {
        match c {
            CurveType::Secp256k1 => self.secp256k1_double_events@,
            CurveType::Bn254 => self.bn254_double_events@,
            CurveType::Bls12381 => self.bls12381_double_events@,
        }
    }
}

/// The byte-range claims of the rows' gadgets, row after row.
pub open spec fn rows_range_events(rows: Seq<WeierstrassDoubleAssignCols>) -> Seq<ByteLookupEvent>
    decreases rows.len(),
{
    if rows.len() == 0 {
        Seq::empty()
    } else {
        rows_range_events(rows.drop_last()) + rows.last().ops_range_events(
            rows.last().shard,
            rows.last().channel,
        )
    }
}

/// The trace's constraints: every row's, and a nonce that starts at zero and counts up.
pub open spec fn trace_constraints_hold(rows: Seq<WeierstrassDoubleAssignCols>, c: CurveType) -> bool {
    &&& forall|i: int| 0 <= i < rows.len() ==> #[trigger] rows[i].constraints_hold(c)
    &&& rows.len() > 0 ==> rows[0].nonce == 0
    &&& forall|i: int|
        0 <= i < rows.len() - 1 ==> #[trigger] rows[i + 1].nonce == (rows[i].nonce + 1) % (
        BABYBEAR_P as int)
}

impl WeierstrassDoubleAssignChip {
    /// The access columns for a recorded access.
    fn access_cols(r: &MemoryRecordEvent) -> (m: MemoryAccessCols)
        ensures
            m == record_cols(*r),
    {
        MemoryAccessCols {
            prev_value: Word::from_u32(r.prev_value),
            value: Word::from_u32(r.value),
            prev_shard: r.prev_shard % BABYBEAR_P,
            prev_clk: r.prev_clk % BABYBEAR_P,
        }
    }

    /// The access columns for an event's accesses.
    fn event_access_cols(event: &EllipticCurveDoubleEvent) -> (r: Vec<MemoryAccessCols>)
        ensures
            r@ == event_access(*event),
    {
        let mut p_access: Vec<MemoryAccessCols> = Vec::new();
        let mut i: usize = 0;
        while i < event.p_memory_records.len()
            invariant
                i <= event.p_memory_records@.len(),
                p_access@ =~= event_access(*event).subrange(0, i as int),
            decreases event.p_memory_records@.len() - i,
        {
            p_access.push(Self::access_cols(&event.p_memory_records[i]));
            i = i + 1;
        }
        assert(p_access@ =~= event_access(*event));
        p_access
    }

    /// Empty gadget columns of the curve's size.
    fn blank_row(&self, p_access: Vec<MemoryAccessCols>) -> (r: WeierstrassDoubleAssignCols)
        ensures
            r.p_access == p_access,
            !r.is_real,
            r.shard == 0,
            r.channel == 0,
            r.nonce == 0,
            r.clk == 0,
            r.p_ptr == 0,
    {
        let n = self.curve.num_limbs();
        WeierstrassDoubleAssignCols {
            is_real: false,
            shard: 0,
            channel: 0,
            nonce: 0,
            clk: 0,
            p_ptr: 0,
            p_access,
            slope_denominator: FieldOpCols::zeros(n),
            slope_numerator: FieldOpCols::zeros(n),
            slope: FieldOpCols::zeros(n),
            p_x_squared: FieldOpCols::zeros(n),
            p_x_squared_times_3: FieldOpCols::zeros(n),
            slope_squared: FieldOpCols::zeros(n),
            p_x_plus_p_x: FieldOpCols::zeros(n),
            x3_ins: FieldOpCols::zeros(n),
            p_x_minus_x: FieldOpCols::zeros(n),
            y3_ins: FieldOpCols::zeros(n),
            slope_times_p_x_minus_x: FieldOpCols::zeros(n),
        }
    }

    /// The row for one event, recording its gadgets' byte-range claims.
    #[verifier::rlimit(50)]
    pub fn populate_row(
        &self,
        event: &EllipticCurveDoubleEvent,
        blu_events: &mut Vec<ByteLookupEvent>,
    ) -> (row: WeierstrassDoubleAssignCols)
        requires
            event_ok(*event, self.curve),
        ensures
            row.is_real,
            row.shard == event.shard,
            row.channel == event.channel,
            row.clk == event.clk,
            row.p_ptr == event.p_ptr,
            row.nonce == 0,
            row.p_access@ == event_access(*event),
            is_event_row(row, *event, self.curve),
            row.has_shape(self.curve),
            row.x_in(self.curve) == event_x(*event, self.curve),
            row.y_in(self.curve) == event_y(*event, self.curve),
            row.ops_but_slope_hold(
                row.x_in(self.curve),
                row.y_in(self.curve),
                self.curve.a(),
                self.curve.p(),
            ),
            invertible(row.slope_denominator.result_val(), self.curve.p()) ==> row.slope_holds(
                self.curve.p(),
            ),
            final(blu_events)@ == old(blu_events)@ + row.ops_range_events(event.shard, event.channel),
    {
        let w = self.curve.num_words();
        let p_access = Self::event_access_cols(event);
        let h = w / 2;
        let p_x = access_limbs(&p_access, 0, h, true);
        let p_y = access_limbs(&p_access, h, w, true);
        let mut row = self.blank_row(p_access);
        row.is_real = true;
        row.shard = event.shard;
        row.channel = event.channel;
        row.clk = event.clk;
        row.p_ptr = event.p_ptr;
        self.populate_field_ops(blu_events, event.shard, event.channel, &mut row, &p_x, &p_y);
        row
    }

    /// A row that fills the trace: not real, with the gadgets run on the point `(0, 0)`.
    pub fn padding_row(&self) -> (row: WeierstrassDoubleAssignCols)
        ensures
            is_padding_row(row, self.curve),
            row.nonce == 0,
            row.has_shape(self.curve),
            row.constraints_hold(self.curve),
            self.syscall_claim_of(row).multiplicity == 0,
    {
        let w = self.curve.num_words();
        let mut p_access: Vec<MemoryAccessCols> = Vec::new();
        let mut i: usize = 0;
        while i < w
            invariant
                i <= w,
                p_access@.len() == i,
                forall|k: int| 0 <= k < i ==> #[trigger] p_access@[k] == zero_access(),
            decreases w - i,
        {
            let z = Word::zero();
            p_access.push(MemoryAccessCols { prev_value: z, value: z, prev_shard: 0, prev_clk: 0 });
            i = i + 1;
        }
        let mut row = self.blank_row(p_access);
        let zero: Vec<u8> = Vec::new();
        let mut discarded: Vec<ByteLookupEvent> = Vec::new();
        proof {
            lemma_curve_bounds(self.curve);
            assert(le_val(zero@) == 0);
        }
        self.populate_field_ops(&mut discarded, 0, 0, &mut row, &zero, &zero);
        row
    }

    /// The chip's name: the curve's, followed by `DoubleAssign`.
    pub fn name(&self) -> (r: String)
        ensures
            self.curve == CurveType::Secp256k1 ==> r@ == "Secp256k1DoubleAssign"@,
            self.curve == CurveType::Bn254 ==> r@ == "Bn254DoubleAssign"@,
            self.curve == CurveType::Bls12381 ==> r@ == "Bls12381DoubleAssign"@,
    {
        match self.curve {
            CurveType::Secp256k1 => "Secp256k1DoubleAssign".to_owned(),
            CurveType::Bn254 => "Bn254DoubleAssign".to_owned(),
            CurveType::Bls12381 => "Bls12381DoubleAssign".to_owned(),
        }
    }

    /// Cells per row: six scalars, ten per accessed word (two words of limbs, the previous
    /// shard and clock), and a result and a carry of `N` limbs for each of eleven gadgets.
    pub fn width(&self) -> (r: usize)
        ensures
            r == 6 + 10 * self.curve.words_per_point() + 22 * self.curve.nb_limbs(),
    {
        num_weierstrass_double_cols(self.curve)
    }

    /// Whether the shard has any doubling on this chip's curve.
    pub fn included(&self, shard: &ExecutionRecord) -> (r: bool)
        ensures
            r == (shard.double_events(self.curve).len() > 0),
    {
        match self.curve {
            CurveType::Secp256k1 => shard.secp256k1_double_events.len() > 0,
            CurveType::Bn254 => shard.bn254_double_events.len() > 0,
            CurveType::Bls12381 => shard.bls12381_double_events.len() > 0,
        }
    }

    /// The doubling events of this chip's curve.
    fn events<'a>(&self, input: &'a ExecutionRecord) -> (r: &'a Vec<EllipticCurveDoubleEvent>)
        ensures
            r@ == input.double_events(self.curve),
    {
        match self.curve {
            CurveType::Secp256k1 => &input.secp256k1_double_events,
            CurveType::Bn254 => &input.bn254_double_events,
            CurveType::Bls12381 => &input.bls12381_double_events,
        }
    }

    /// The trace of the shard's doublings on this curve: a row per event in order, then
    /// padding rows up to the padded height, the nonce counting rows from zero. The events'
    /// byte-range claims are added to `output`.
    pub fn generate_trace(&self, input: &ExecutionRecord, output: &mut ExecutionRecord) -> (rows:
        Vec<WeierstrassDoubleAssignCols>)
        requires
            forall|i: int|
                0 <= i < input.double_events(self.curve).len() ==> event_ok(
                    #[trigger] input.double_events(self.curve)[i],
                    self.curve,
                ),
            input.double_events(self.curve).len() <= 0x0400_0000,
        ensures
            rows@.len() == padded_height(input.double_events(self.curve).len()),
            is_trace_of(rows@, input.double_events(self.curve), self.curve),
            forall|i: int| 0 <= i < rows@.len() ==> #[trigger] rows@[i].nonce == i,
            forall|i: int|
                0 <= i < rows@.len() ==> #[trigger] rows@[i].has_shape(self.curve),
            forall|i: int|
                0 <= i < input.double_events(self.curve).len() ==> {
                    let r = #[trigger] rows@[i];
                    let e = input.double_events(self.curve)[i];
                    &&& r.is_real
                    &&& is_event_row(r, e, self.curve)
                    &&& r.shard == e.shard
                    &&& r.channel == e.channel
                    &&& r.clk == e.clk
                    &&& r.p_ptr == e.p_ptr
                    &&& r.p_access@ == event_access(e)
                    &&& r.x_in(self.curve) == event_x(e, self.curve)
                    &&& r.y_in(self.curve) == event_y(e, self.curve)
                    &&& r.ops_but_slope_hold(
                        r.x_in(self.curve),
                        r.y_in(self.curve),
                        self.curve.a(),
                        self.curve.p(),
                    )
                    &&& invertible(r.slope_denominator.result_val(), self.curve.p())
                        ==> r.slope_holds(self.curve.p())
                },
            forall|i: int|
                input.double_events(self.curve).len() <= i < rows@.len() ==> is_padding_row(
                    #[trigger] rows@[i],
                    self.curve,
                ) && rows@[i].constraints_hold(self.curve),
            final(output).byte_lookups@ == old(output).byte_lookups@ + rows_range_events(
                rows@.subrange(0, input.double_events(self.curve).len() as int),
            ),
            (forall|i: int|
                0 <= i < input.double_events(self.curve).len() ==> {
                    let r = #[trigger] rows@[i];
                    &&& invertible(r.slope_denominator.result_val(), self.curve.p())
                    &&& r.accesses_ordered()
                    &&& r.x_out_limbs(self.curve) == r.x3_ins.result@
                    &&& r.y_out_limbs(self.curve) == r.y3_ins.result@
                }) ==> trace_constraints_hold(rows@, self.curve),
            final(output).secp256k1_double_events == old(output).secp256k1_double_events,
            final(output).bn254_double_events == old(output).bn254_double_events,
            final(output).bls12381_double_events == old(output).bls12381_double_events,
    {
        let events = self.events(input);
        let n = events.len();
        let height = trace_height(n);
        let mut rows: Vec<WeierstrassDoubleAssignCols> = Vec::new();
        let ghost start = output.byte_lookups@;
        let mut i: usize = 0;
        while i < n
            invariant
                i <= n,
                n == events@.len(),
                events@ == input.double_events(self.curve),
                forall|k: int| 0 <= k < n ==> event_ok(#[trigger] events@[k], self.curve),
                n <= 0x0400_0000,
                rows@.len() == i,
                forall|k: int| 0 <= k < i ==> #[trigger] rows@[k].nonce == k,
                forall|k: int| 0 <= k < i ==> #[trigger] rows@[k].has_shape(self.curve),
                forall|k: int|
                    0 <= k < i ==> {
                        let r = #[trigger] rows@[k];
                        let e = events@[k];
                        &&& r.is_real
                        &&& is_event_row(r, e, self.curve)
                    &&& is_event_row(r, e, self.curve)
                        &&& r.shard == e.shard
                        &&& r.channel == e.channel
                        &&& r.clk == e.clk
                        &&& r.p_ptr == e.p_ptr
                        &&& r.p_access@ == event_access(e)
                        &&& r.x_in(self.curve) == event_x(e, self.curve)
                        &&& r.y_in(self.curve) == event_y(e, self.curve)
                        &&& r.ops_but_slope_hold(
                            r.x_in(self.curve),
                            r.y_in(self.curve),
                            self.curve.a(),
                            self.curve.p(),
                        )
                        &&& invertible(r.slope_denominator.result_val(), self.curve.p())
                            ==> r.slope_holds(self.curve.p())
                    },
                output.byte_lookups@ == start + rows_range_events(rows@),
                output.secp256k1_double_events == old(output).secp256k1_double_events,
                output.bn254_double_events == old(output).bn254_double_events,
                output.bls12381_double_events == old(output).bls12381_double_events,
            decreases n - i,
        {
            let mut row = self.populate_row(&events[i], &mut output.byte_lookups);
            proof {
                let e = events@[i as int];
                lemma_ops_populated_nonce(
                    row,
                    i as u32,
                    event_x(e, self.curve),
                    event_y(e, self.curve),
                    self.curve.a(),
                    self.curve.p(),
                    self.curve.nb_limbs(),
                );
            }
            row.nonce = i as u32;
            proof {
                assert(rows@.push(row).drop_last() =~= rows@);
            }
            rows.push(row);
            i = i + 1;
        }
        assert(rows@.subrange(0, n as int) =~= rows@);
        while i < height
            invariant
                n <= i <= height,
                height <= 0x1000_0000,
                n == events@.len(),
                events@ == input.double_events(self.curve),
                rows@.len() == i,
                forall|k: int| 0 <= k < i ==> #[trigger] rows@[k].nonce == k,
                forall|k: int| 0 <= k < i ==> #[trigger] rows@[k].has_shape(self.curve),
                forall|k: int|
                    0 <= k < n ==> {
                        let r = #[trigger] rows@[k];
                        let e = events@[k];
                        &&& r.is_real
                        &&& is_event_row(r, e, self.curve)
                    &&& is_event_row(r, e, self.curve)
                        &&& r.shard == e.shard
                        &&& r.channel == e.channel
                        &&& r.clk == e.clk
                        &&& r.p_ptr == e.p_ptr
                        &&& r.p_access@ == event_access(e)
                        &&& r.x_in(self.curve) == event_x(e, self.curve)
                        &&& r.y_in(self.curve) == event_y(e, self.curve)
                        &&& r.ops_but_slope_hold(
                            r.x_in(self.curve),
                            r.y_in(self.curve),
                            self.curve.a(),
                            self.curve.p(),
                        )
                        &&& invertible(r.slope_denominator.result_val(), self.curve.p())
                            ==> r.slope_holds(self.curve.p())
                    },
                forall|k: int|
                    n <= k < i ==> is_padding_row(#[trigger] rows@[k], self.curve)
                        && rows@[k].constraints_hold(self.curve),
                output.byte_lookups@ == start + rows_range_events(rows@.subrange(0, n as int)),
                output.secp256k1_double_events == old(output).secp256k1_double_events,
                output.bn254_double_events == old(output).bn254_double_events,
                output.bls12381_double_events == old(output).bls12381_double_events,
            decreases height - i,
        {
            let mut row = self.padding_row();
            proof {
                lemma_ops_populated_nonce(
                    row,
                    i as u32,
                    0,
                    0,
                    self.curve.a(),
                    self.curve.p(),
                    self.curve.nb_limbs(),
                );
            }
            row.nonce = i as u32;
            proof {
                assert(rows@.push(row).subrange(0, n as int) =~= rows@.subrange(0, n as int));
            }
            rows.push(row);
            i = i + 1;
        }
        proof {
            assert forall|k: int| 0 <= k < rows@.len() - 1 implies #[trigger] rows@[k + 1].nonce == (
            rows@[k].nonce + 1) % (BABYBEAR_P as int) by {
                vstd::arithmetic::div_mod::lemma_small_mod((k + 1) as nat, BABYBEAR_P as nat);
            }
        }
        rows
    }

    /// Whether a whole trace meets the chip's constraints, the nonce chain included.
    pub fn eval_trace(&self, rows: &Vec<WeierstrassDoubleAssignCols>) -> (ok: bool)
        ensures
            ok == trace_constraints_hold(rows@, self.curve),
    {
        if rows.len() > 0 && rows[0].nonce != 0 {
            return false;
        }
        let mut i: usize = 0;
        while i < rows.len()
            invariant
                i <= rows@.len(),
                rows@.len() > 0 ==> rows@[0].nonce == 0,
                forall|j: int| 0 <= j < i ==> #[trigger] rows@[j].constraints_hold(self.curve),
                forall|j: int|
                    0 <= j < i && j < rows@.len() - 1 ==> #[trigger] rows@[j + 1].nonce == (
                    rows@[j].nonce + 1) % (BABYBEAR_P as int),
            decreases rows@.len() - i,
        {
            if !self.eval(&rows[i]) {
                return false;
            }
            if i + 1 < rows.len() && rows[i + 1].nonce as u64 != (rows[i].nonce as u64 + 1)
                % BABYBEAR_P as u64 {
                return false;
            }
            i = i + 1;
        }
        true
    }
}

/// Cells per row of the doubling chip on curve `c`.
pub fn num_weierstrass_double_cols(c: CurveType) -> (r: usize)
    ensures
        r == 6 + 10 * c.words_per_point() + 22 * c.nb_limbs(),
{
    6 + 10 * c.num_words() + 22 * c.num_limbs()
}


/// The memory tuple of access `i` of a row: the old value at its old time is taken
/// (`given` false), the new value at the row's time is given.
pub open spec fn point_access_claim(r: WeierstrassDoubleAssignCols, i: int, given: bool) -> MemoryClaim {
    let m = r.p_access@[i];
    let addr = ((r.p_ptr + 4 * i) % (BABYBEAR_P as int)) as u32;
    if given {
        MemoryClaim {
            is_send: true,
            shard: r.shard,
            clk: r.clk,
            addr,
            value: m.value,
            multiplicity: if r.is_real {
                1
            } else {
                0
            },
        }
    } else {
        MemoryClaim {
            is_send: false,
            shard: m.prev_shard,
            clk: m.prev_clk,
            addr,
            value: m.prev_value,
            multiplicity: if r.is_real {
                1
            } else {
                0
            },
        }
    }
}

impl WeierstrassDoubleAssignChip {
    /// The tuples that a row puts on the memory bus: for each word of the point, the value
    /// taken and the value given, at `p_ptr + 4 i`.
    pub fn memory_claims(&self, local: &WeierstrassDoubleAssignCols) -> (r: Vec<MemoryClaim>)
        requires
            local.p_access@.len() <= 0x1000_0000,
        ensures
            r@.len() == 2 * local.p_access@.len(),
            forall|i: int|
                0 <= i < local.p_access@.len() ==> r@[2 * i] == point_access_claim(*local, i, false)
                    && r@[2 * i + 1] == point_access_claim(*local, i, true),
    {
        let mut r: Vec<MemoryClaim> = Vec::new();
        let mult: u32 = if local.is_real {
            1
        } else {
            0
        };
        let mut i: usize = 0;
        while i < local.p_access.len()
            invariant
                i <= local.p_access@.len(),
                local.p_access@.len() <= 0x1000_0000,
                mult == (if local.is_real {
                    1u32
                } else {
                    0u32
                }),
                r@.len() == 2 * i,
                forall|k: int|
                    0 <= k < i ==> r@[2 * k] == point_access_claim(*local, k, false) && r@[2 * k + 1]
                        == point_access_claim(*local, k, true),
            decreases local.p_access@.len() - i,
        {
            let m = &local.p_access[i];
            let addr = ((local.p_ptr as u64 + 4 * i as u64) % BABYBEAR_P as u64) as u32;
            r.push(
                MemoryClaim {
                    is_send: false,
                    shard: m.prev_shard,
                    clk: m.prev_clk,
                    addr,
                    value: m.prev_value,
                    multiplicity: mult,
                },
            );
            r.push(
                MemoryClaim {
                    is_send: true,
                    shard: local.shard,
                    clk: local.clk,
                    addr,
                    value: m.value,
                    multiplicity: mult,
                },
            );
            i = i + 1;
        }
        r
    }
}

} // verus!
