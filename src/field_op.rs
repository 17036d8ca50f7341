use vstd::prelude::*;
use vstd::arithmetic::div_mod::{
    lemma_fundamental_div_mod, lemma_mod_add_multiples_vanish, lemma_mul_mod_noop_general,
};
use crate::bigint::{
    big_add, big_div, big_eq, big_modinv, big_mul, big_rem, big_sub, le_val, limbs_of, pow256,
    to_limbs,
};
use crate::bus::{ByteLookupEvent, ByteOpcode};

verus! {

/// The operations that the multi-limb gadget witnesses.
#[derive(Clone, Copy, Debug, PartialEq, Eq, Structural)]
pub enum FieldOperation {
    Add,
    Mul,
    Sub,
    Div,
}

/// The integer identity that a gadget's columns must meet: `result` is `lhs op rhs` up to
/// `carry` multiples of `p` (subtraction and division are checked as the addition and
/// product they undo).
pub open spec fn field_op_relation(
    op: FieldOperation,
    lhs: nat,
    rhs: nat,
    result: nat,
    carry: nat,
    p: nat,
) -> bool {
    match op {
        FieldOperation::Add => lhs + rhs == result + carry * p,
        FieldOperation::Mul => lhs * rhs == result + carry * p,
        FieldOperation::Sub => result + rhs == lhs + carry * p,
        FieldOperation::Div => result * rhs == lhs + carry * p,
    }
}

/// Whether `rhs` has an inverse modulo `p`.
pub open spec fn invertible(rhs: nat, p: nat) -> bool {
    exists|x: nat| #[trigger] ((rhs * x) % p) == 1nat % p
}

/// The inverse of `rhs` modulo `p` in `[0, p)`, where there is one.
pub open spec fn inverse(rhs: nat, p: nat) -> nat {
    choose|x: nat| x < p && #[trigger] ((rhs * x) % p) == 1nat % p
}

/// An inverse below the modulus is the only one.
pub proof fn lemma_inverse_unique(r: nat, p: nat, x: nat, y: nat)
    requires
        p > 1,
        x < p,
        y < p,
        (r * x) % p == 1nat % p,
        (r * y) % p == 1nat % p,
    ensures
        x == y,
{
    let (pi, ri, xi, yi) = (p as int, r as int, x as int, y as int);
    lemma_mul_mod_noop_general(xi, ri * yi, pi);
    lemma_mul_mod_noop_general(xi * ri, yi, pi);
    assert(xi * (ri * yi) == (xi * ri) * yi) by (nonlinear_arith);
    assert(xi * ri == ri * xi) by (nonlinear_arith);
    vstd::arithmetic::div_mod::lemma_small_mod(1, p);
    vstd::arithmetic::div_mod::lemma_small_mod(x, p);
    vstd::arithmetic::div_mod::lemma_small_mod(y, p);
}

/// Where `rhs` has an inverse modulo `p > 1`, `inverse` is it.
pub proof fn lemma_inverse_is_inverse(r: nat, p: nat)
    requires
        p > 1,
        invertible(r, p),
    ensures
        inverse(r, p) < p,
        (r * inverse(r, p)) % p == 1nat % p,
{
    let x = choose|x: nat| #[trigger] ((r * x) % p) == 1nat % p;
    lemma_mul_mod_noop_general(r as int, x as int, p as int);
    assert((r * (x % p)) % p == 1nat % p);
    assert((x % p) < p && ((r * (x % p)) % p) == 1nat % p);
}

/// The result that the gadget's columns hold for `lhs op rhs` modulo `p`: the reduced sum,
/// product or difference, and for a division the product with the inverse (zero where
/// there is none).
pub open spec fn field_op_result(op: FieldOperation, lhs: nat, rhs: nat, p: nat) -> nat {
    match op {
        FieldOperation::Add => (lhs + rhs) % p,
        FieldOperation::Mul => (lhs * rhs) % p,
        FieldOperation::Sub => ((lhs + p - rhs) % (p as int)) as nat,
        FieldOperation::Div => if invertible(rhs, p) {
            (lhs * inverse(rhs, p)) % p
        } else {
            0
        },
    }
}

/// The carry that goes with `field_op_result`: the multiple of `p` in the gadget's identity.
pub open spec fn field_op_carry(op: FieldOperation, lhs: nat, rhs: nat, p: nat) -> nat {
    match op {
        FieldOperation::Add => (lhs + rhs) / p,
        FieldOperation::Mul => (lhs * rhs) / p,
        FieldOperation::Sub => if lhs >= rhs {
            0
        } else {
            1
        },
        FieldOperation::Div => if invertible(rhs, p) {
            ((field_op_result(op, lhs, rhs, p) * rhs - lhs) / (p as int)) as nat
        } else {
            0
        },
    }
}

/// The byte-range claims for the limbs `s`.
pub open spec fn range_events(shard: u32, channel: u8, s: Seq<u8>) -> Seq<ByteLookupEvent> {
    s.map_values(
        |b: u8|
            ByteLookupEvent {
                shard,
                channel,
                opcode: ByteOpcode::U8Range,
                a: 0,
                b: b as u32,
                c: 0,
            },
    )
}

/// The witness columns of one modular operation on `N`-limb numbers.
#[derive(Clone, Debug, PartialEq, Eq)]
pub struct FieldOpCols {
    pub result: Vec<u8>,
    pub carry: Vec<u8>,
}

impl FieldOpCols {
    /// The value of the result limbs.
    pub open spec fn result_val(&self) -> nat {
        le_val(self.result@)
    }

    /// The columns that filling writes for `lhs op rhs` modulo `p` in `n` limbs.
    pub open spec fn is_populated(
        &self,
        op: FieldOperation,
        lhs: nat,
        rhs: nat,
        p: nat,
        n: nat,
    ) -> bool {
        &&& self.result@ == limbs_of(field_op_result(op, lhs, rhs, p), n)
        &&& self.carry@ == limbs_of(field_op_carry(op, lhs, rhs, p), n)
    }

    /// Both limb vectors have `n` limbs.
    pub open spec fn has_limbs(&self, n: nat) -> bool {
        self.result@.len() == n && self.carry@.len() == n
    }

    /// The gadget's constraints on operands `lhs` and `rhs` modulo `p`.
    pub open spec fn holds(&self, op: FieldOperation, lhs: nat, rhs: nat, p: nat) -> bool {
        field_op_relation(op, lhs, rhs, le_val(self.result@), le_val(self.carry@), p)
    }

    /// Columns of all-zero limbs.
    pub fn zeros(n: usize) -> (c: FieldOpCols)
        ensures
            c.has_limbs(n as nat),
            le_val(c.result@) == 0,
            le_val(c.carry@) == 0,
            c.result@ == limbs_of(0, n as nat),
            c.carry@ == limbs_of(0, n as nat),
    {
        let z: Vec<u8> = Vec::new();
        proof {
            crate::bigint::lemma_pow256_positive(n as nat);
            assert(le_val(z@) == 0);
        }
        FieldOpCols { result: to_limbs(&z, n), carry: to_limbs(&z, n) }
    }

    /// Fills the columns for `lhs op rhs` modulo `p` in `n` limbs, and records a byte-range
    /// claim for each limb. A division by a number with no inverse leaves zeros.
    pub fn populate(
        blu_events: &mut Vec<ByteLookupEvent>,
        shard: u32,
        channel: u8,
        lhs: &Vec<u8>,
        rhs: &Vec<u8>,
        op: FieldOperation,
        p: &Vec<u8>,
        n: usize,
    ) -> (c: FieldOpCols)
        requires
            le_val(p@) > 1,
            le_val(p@) < pow256(n as nat),
            le_val(lhs@) < le_val(p@),
            le_val(rhs@) < le_val(p@),
        ensures
            c.has_limbs(n as nat),
            c.result_val() < le_val(p@),
            op == FieldOperation::Add ==> c.result_val() == (le_val(lhs@) + le_val(rhs@)) % le_val(
                p@,
            ),
            op == FieldOperation::Mul ==> c.result_val() == (le_val(lhs@) * le_val(rhs@)) % le_val(
                p@,
            ),
            op == FieldOperation::Sub ==> c.result_val() == (le_val(lhs@) + le_val(p@) - le_val(
                rhs@,
            )) % (le_val(p@) as int),
            op == FieldOperation::Div && invertible(le_val(rhs@), le_val(p@)) ==> (c.result_val()
                * le_val(rhs@)) % le_val(p@) == le_val(lhs@) % le_val(p@),
            op == FieldOperation::Div && !invertible(le_val(rhs@), le_val(p@)) ==> c.result_val()
                == 0,
            op != FieldOperation::Div || invertible(le_val(rhs@), le_val(p@)) ==> c.holds(
                op,
                le_val(lhs@),
                le_val(rhs@),
                le_val(p@),
            ),
            c.is_populated(op, le_val(lhs@), le_val(rhs@), le_val(p@), n as nat),
            c.result_val() == field_op_result(op, le_val(lhs@), le_val(rhs@), le_val(p@)),
            final(blu_events)@ == old(blu_events)@ + range_events(shard, channel, c.result@)
                + range_events(shard, channel, c.carry@),
    {
        let c = Self::compute(lhs, rhs, op, p, n);
        let mut i: usize = 0;
        let ghost start = blu_events@;
        while i < n
            invariant
                i <= n,
                c.has_limbs(n as nat),
                blu_events@ == start + range_events(shard, channel, c.result@.subrange(0, i as int)),
            decreases n - i,
        {
            blu_events.push(
                ByteLookupEvent {
                    shard,
                    channel,
                    opcode: ByteOpcode::U8Range,
                    a: 0,
                    b: c.result[i] as u32,
                    c: 0,
                },
            );
            proof {
                assert(c.result@.subrange(0, i + 1) =~= c.result@.subrange(0, i as int).push(
                    c.result@[i as int],
                ));
                assert(range_events(shard, channel, c.result@.subrange(0, i + 1)) =~= range_events(
                    shard,
                    channel,
                    c.result@.subrange(0, i as int),
                ).push(
                    ByteLookupEvent {
                        shard,
                        channel,
                        opcode: ByteOpcode::U8Range,
                        a: 0,
                        b: c.result@[i as int] as u32,
                        c: 0,
                    },
                ));
            }
            i = i + 1;
        }
        assert(c.result@.subrange(0, n as int) =~= c.result@);
        let ghost mid = blu_events@;
        let mut j: usize = 0;
        while j < n
            invariant
                j <= n,
                c.has_limbs(n as nat),
                blu_events@ == mid + range_events(shard, channel, c.carry@.subrange(0, j as int)),
            decreases n - j,
        {
            blu_events.push(
                ByteLookupEvent {
                    shard,
                    channel,
                    opcode: ByteOpcode::U8Range,
                    a: 0,
                    b: c.carry[j] as u32,
                    c: 0,
                },
            );
            proof {
                assert(c.carry@.subrange(0, j + 1) =~= c.carry@.subrange(0, j as int).push(
                    c.carry@[j as int],
                ));
                assert(range_events(shard, channel, c.carry@.subrange(0, j + 1)) =~= range_events(
                    shard,
                    channel,
                    c.carry@.subrange(0, j as int),
                ).push(
                    ByteLookupEvent {
                        shard,
                        channel,
                        opcode: ByteOpcode::U8Range,
                        a: 0,
                        b: c.carry@[j as int] as u32,
                        c: 0,
                    },
                ));
            }
            j = j + 1;
        }
        assert(c.carry@.subrange(0, n as int) =~= c.carry@);
        c
    }

    /// The result and carry of `lhs op rhs` modulo `p`, in `n` limbs.
    fn compute(lhs: &Vec<u8>, rhs: &Vec<u8>, op: FieldOperation, p: &Vec<u8>, n: usize) -> (c:
        FieldOpCols)
        requires
            le_val(p@) > 1,
            le_val(p@) < pow256(n as nat),
            le_val(lhs@) < le_val(p@),
            le_val(rhs@) < le_val(p@),
        ensures
            c.has_limbs(n as nat),
            c.result_val() < le_val(p@),
            op == FieldOperation::Add ==> c.result_val() == (le_val(lhs@) + le_val(rhs@)) % le_val(
                p@,
            ),
            op == FieldOperation::Mul ==> c.result_val() == (le_val(lhs@) * le_val(rhs@)) % le_val(
                p@,
            ),
            op == FieldOperation::Sub ==> c.result_val() == (le_val(lhs@) + le_val(p@) - le_val(
                rhs@,
            )) % (le_val(p@) as int),
            op == FieldOperation::Div && invertible(le_val(rhs@), le_val(p@)) ==> (c.result_val()
                * le_val(rhs@)) % le_val(p@) == le_val(lhs@) % le_val(p@),
            op == FieldOperation::Div && !invertible(le_val(rhs@), le_val(p@)) ==> c.result_val()
                == 0,
            op != FieldOperation::Div || invertible(le_val(rhs@), le_val(p@)) ==> c.holds(
                op,
                le_val(lhs@),
                le_val(rhs@),
                le_val(p@),
            ),
            c.is_populated(op, le_val(lhs@), le_val(rhs@), le_val(p@), n as nat),
            c.result_val() == field_op_result(op, le_val(lhs@), le_val(rhs@), le_val(p@)),
    {
        let ghost l = le_val(lhs@);
        let ghost r = le_val(rhs@);
        let ghost m = le_val(p@);
        match op {
            FieldOperation::Add | FieldOperation::Mul => {
                let s = if op == FieldOperation::Add {
                    big_add(lhs, rhs)
                } else {
                    big_mul(lhs, rhs)
                };
                let res = big_rem(&s, p);
                let carry = big_div(&s, p);
                proof {
                    lemma_fundamental_div_mod(le_val(s@) as int, m as int);
                    assert(l * r < m * m) by (nonlinear_arith)
                        requires l < m, r < m;
                    assert(l + r < m * m) by (nonlinear_arith)
                        requires l < m, r < m, m > 1;
                    assert(le_val(carry@) < m) by (nonlinear_arith)
                        requires
                            le_val(carry@) == le_val(s@) / m,
                            le_val(s@) < m * m,
                            m > 1,
                    ;
                    assert(le_val(s@) == le_val(res@) + le_val(carry@) * m) by (nonlinear_arith)
                        requires
                            le_val(s@) as int == m * (le_val(s@) as int / m as int) + le_val(s@) as int
                                % m as int,
                            le_val(res@) == le_val(s@) % m,
                            le_val(carry@) == le_val(s@) / m,
                    ;
                }
                assert(le_val(res@) == field_op_result(op, l, r, m));
                assert(le_val(carry@) == field_op_carry(op, l, r, m));
                FieldOpCols { result: to_limbs(&res, n), carry: to_limbs(&carry, n) }
            },
            FieldOperation::Sub => {
                let lp = big_add(lhs, p);
                let d = big_sub(&lp, rhs);
                let res = big_rem(&d, p);
                let t = big_add(&res, rhs);
                let mut one: Vec<u8> = Vec::new();
                one.push(1);
                let zero: Vec<u8> = Vec::new();
                proof {
                    assert(one@.drop_first() =~= Seq::<u8>::empty());
                    assert(le_val(Seq::<u8>::empty()) == 0);
                    assert(le_val(one@) == 1);
                    assert(le_val(zero@) == 0);
                }
                let carry_val = if big_eq(&t, lhs) {
                    to_limbs(&zero, n)
                } else {
                    to_limbs(&one, n)
                };
                proof {
                    if l >= r {
                        assert((l + m - r) as int % (m as int) == l - r) by {
                            vstd::arithmetic::div_mod::lemma_small_mod((l - r) as nat, m);
                            lemma_mod_add_multiples_vanish(l - r, m as int);
                        }
                        assert(le_val(carry_val@) == 0);
                        assert(le_val(res@) + r == l);
                        assert(le_val(carry_val@) * m == 0) by (nonlinear_arith)
                            requires le_val(carry_val@) == 0;
                    } else {
                        assert((l + m - r) as int % (m as int) == l + m - r) by {
                            vstd::arithmetic::div_mod::lemma_small_mod((l + m - r) as nat, m);
                        }
                        assert(le_val(carry_val@) == 1);
                        assert(le_val(res@) + r == l + m);
                        assert(le_val(carry_val@) * m == m) by (nonlinear_arith)
                            requires le_val(carry_val@) == 1;
                    }
                }
                assert(le_val(res@) == field_op_result(op, l, r, m));
                assert(carry_val@ == limbs_of(field_op_carry(op, l, r, m), n as nat));
                FieldOpCols { result: to_limbs(&res, n), carry: carry_val }
            },
            FieldOperation::Div => {
                match big_modinv(rhs, p) {
                    Some(inv) => {
                        let prod = big_mul(lhs, &inv);
                        let res = big_rem(&prod, p);
                        let back = big_mul(&res, rhs);
                        proof {
                            let x = le_val(inv@);
                            assert(invertible(r, m));
                            lemma_mul_mod_noop_general((l * x) as int, r as int, m as int);
                            assert((l * x) * r == l * (r * x)) by (nonlinear_arith);
                            lemma_mul_mod_noop_general(l as int, (r * x) as int, m as int);
                            lemma_mul_mod_noop_general(l as int, 1, m as int);
                            assert(le_val(res@) * r < m * m) by (nonlinear_arith)
                                requires le_val(res@) < m, r < m;
                            vstd::arithmetic::div_mod::lemma_small_mod(l, m);
                            vstd::arithmetic::div_mod::lemma_small_mod(1, m);
                            assert(le_val(back@) % m == l);
                            lemma_fundamental_div_mod(le_val(back@) as int, m as int);
                        }
                        let excess = big_sub(&back, lhs);
                        let carry = big_div(&excess, p);
                        proof {
                            let b = le_val(back@);
                            assert(b == m * (b / m) + l);
                            assert(le_val(excess@) == m * (b / m));
                            vstd::arithmetic::div_mod::lemma_div_multiples_vanish((b / m) as int, m as int);
                            assert(le_val(carry@) == b / m);
                            assert(le_val(carry@) < m) by (nonlinear_arith)
                                requires le_val(carry@) == b / m, b < m * m, m > 1;
                            assert(b == l + le_val(carry@) * m) by (nonlinear_arith)
                                requires b == m * (b / m) + l, le_val(carry@) == b / m;
                            lemma_inverse_is_inverse(r, m);
                            lemma_inverse_unique(r, m, le_val(inv@), inverse(r, m));
                            assert(b - l == le_val(carry@) * m);
                            vstd::arithmetic::div_mod::lemma_div_multiples_vanish(
                                le_val(carry@) as int,
                                m as int,
                            );
                            assert(le_val(carry@) * m == m * le_val(carry@)) by (nonlinear_arith);
                        }
                        assert(le_val(res@) == field_op_result(op, l, r, m));
                        assert(le_val(carry@) == field_op_carry(op, l, r, m));
                        FieldOpCols { result: to_limbs(&res, n), carry: to_limbs(&carry, n) }
                    },
                    None => {
                        assert(!invertible(r, m));
                        FieldOpCols::zeros(n)
                    },
                }
            },
        }
    }

    /// Whether the columns meet the gadget's constraints on `lhs op rhs` modulo `p`.
    pub fn eval(&self, lhs: &Vec<u8>, rhs: &Vec<u8>, op: FieldOperation, p: &Vec<u8>) -> (ok:
        bool)
        ensures
            ok == self.holds(op, le_val(lhs@), le_val(rhs@), le_val(p@)),
    {
        let cp = big_mul(&self.carry, p);
        match op {
            FieldOperation::Add => big_eq(&big_add(lhs, rhs), &big_add(&self.result, &cp)),
            FieldOperation::Mul => big_eq(&big_mul(lhs, rhs), &big_add(&self.result, &cp)),
            FieldOperation::Sub => big_eq(&big_add(&self.result, rhs), &big_add(lhs, &cp)),
            FieldOperation::Div => big_eq(&big_mul(&self.result, rhs), &big_add(lhs, &cp)),
        }
    }
}

} // verus!
