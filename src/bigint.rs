use vstd::prelude::*;
use num::BigUint;

verus! {

/// `256^n`.
pub open spec fn pow256(n: nat) -> nat
    decreases n,
{
    if n == 0 {
        1
    } else {
        256 * pow256((n - 1) as nat)
    }
}

/// The number whose little-endian base-256 digits are `s`.
pub open spec fn le_val(s: Seq<u8>) -> nat
    decreases s.len(),
{
    if s.len() == 0 {
        0
    } else {
        (s[0] + 256 * le_val(s.drop_first())) as nat
    }
}

/// The `n` lowest base-256 digits of `v`, least significant first.
pub open spec fn limbs_of(v: nat, n: nat) -> Seq<u8>
    decreases n,
{
    if n == 0 {
        Seq::empty()
    } else {
        seq![(v % 256) as u8] + limbs_of(v / 256, (n - 1) as nat)
    }
}

/// A limb string is the digits of its own value.
pub proof fn lemma_limbs_of_le_val(s: Seq<u8>)
    ensures
        s == limbs_of(le_val(s), s.len()),
    decreases s.len(),
{
    if s.len() > 0 {
        let t = s.drop_first();
        lemma_limbs_of_le_val(t);
        vstd::arithmetic::div_mod::lemma_fundamental_div_mod_converse(
            le_val(s) as int,
            256,
            le_val(t) as int,
            s[0] as int,
        );
        assert(le_val(s) == le_val(t) * 256 + s[0]);
        assert(s =~= seq![(le_val(s) % 256) as u8] + limbs_of(le_val(s) / 256, (s.len() - 1) as nat));
    } else {
        assert(s =~= Seq::<u8>::empty());
    }
}

/// `n` limbs hold exactly the numbers below `256^n`.
pub proof fn lemma_le_val_bound(s: Seq<u8>)
    ensures
        le_val(s) < pow256(s.len()),
    decreases s.len(),
{
    if s.len() > 0 {
        lemma_le_val_bound(s.drop_first());
    }
}

pub proof fn lemma_pow256_positive(n: nat)
    ensures
        pow256(n) >= 1,
    decreases n,
{
    if n > 0 {
        lemma_pow256_positive((n - 1) as nat);
    }
}

/// The value of the first `n` limbs plus `256^n` times the value of the rest.
pub proof fn lemma_le_val_split(s: Seq<u8>, n: nat)
    requires
        n <= s.len(),
    ensures
        le_val(s) == le_val(s.subrange(0, n as int)) + pow256(n) * le_val(
            s.subrange(n as int, s.len() as int),
        ),
    decreases n,
{
    if n > 0 {
        let t = s.drop_first();
        lemma_le_val_split(t, (n - 1) as nat);
        assert(s.subrange(0, n as int).drop_first() =~= t.subrange(0, n - 1));
        assert(s.subrange(n as int, s.len() as int) =~= t.subrange(n - 1, t.len() as int));
        let a = le_val(t.subrange(0, n - 1));
        let b = le_val(t.subrange(n - 1, t.len() as int));
        let q = pow256((n - 1) as nat);
        assert(256 * (a + q * b) == 256 * a + (256 * q) * b) by (nonlinear_arith);
        assert(s.subrange(0, n as int)[0] == s[0]);
        assert(le_val(s.subrange(0, n as int)) == s[0] + 256 * a);
        assert(le_val(s) == s[0] + 256 * le_val(t));
        assert(pow256(n) == 256 * q);
        assert(le_val(s) == (s[0] + 256 * a) + pow256(n) * b);
    } else {
        assert(s.subrange(0, 0) =~= Seq::<u8>::empty());
        assert(s.subrange(0, s.len() as int) =~= s);
        assert(le_val(s.subrange(0, 0)) == 0);
        assert(pow256(0) == 1);
        assert(pow256(n) * le_val(s) == le_val(s)) by (nonlinear_arith)
            requires pow256(n) == 1;
    }
}

/// Zero limbs on top change nothing.
pub proof fn lemma_le_val_push_zero(s: Seq<u8>)
    ensures
        le_val(s.push(0)) == le_val(s),
    decreases s.len(),
{
    if s.len() > 0 {
        assert(s.push(0).drop_first() =~= s.drop_first().push(0));
        lemma_le_val_push_zero(s.drop_first());
        assert(s.push(0)[0] == s[0]);
    } else {
        assert(s.push(0).drop_first() =~= Seq::<u8>::empty());
        assert(le_val(s.push(0)) == s.push(0)[0] + 256 * le_val(s.push(0).drop_first()));
        assert(le_val(Seq::<u8>::empty()) == 0);
    }
}

/// The number `v` written in exactly `n` limbs, cut or padded with zeros.
pub fn to_limbs(v: &Vec<u8>, n: usize) -> (r: Vec<u8>)
    requires
        le_val(v@) < pow256(n as nat),
    ensures
        r@.len() == n,
        le_val(r@) == le_val(v@),
        r@ == limbs_of(le_val(v@), n as nat),
{
    let mut r: Vec<u8> = Vec::new();
    let mut i: usize = 0;
    let m: usize = if v.len() < n {
        v.len()
    } else {
        n
    };
    while i < m
        invariant
            i <= m,
            m <= v.len(),
            m <= n,
            r@ =~= v@.subrange(0, i as int),
        decreases m - i,
    {
        r.push(v[i]);
        i = i + 1;
    }
    proof {
        if v.len() > n {
            lemma_le_val_split(v@, n as nat);
            let hi = le_val(v@.subrange(n as int, v@.len() as int));
            if hi > 0 {
                lemma_pow256_positive(n as nat);
                assert(pow256(n as nat) * hi >= pow256(n as nat)) by (nonlinear_arith)
                    requires hi >= 1;
            }
            assert(hi == 0);
            assert(pow256(n as nat) * hi == 0) by (nonlinear_arith)
                requires hi == 0;
            assert(r@ =~= v@.subrange(0, n as int));
            assert(le_val(r@) == le_val(v@));
        } else {
            assert(v@.subrange(0, v@.len() as int) =~= v@);
            assert(r@ =~= v@);
        }
    }
    while r.len() < n
        invariant
            r@.len() <= n,
            le_val(r@) == le_val(v@),
        decreases n - r@.len(),
    {
        proof {
            lemma_le_val_push_zero(r@);
        }
        r.push(0);
    }
    proof {
        lemma_limbs_of_le_val(r@);
    }
    r
}

/// Relies on num's `BigUint::from_bytes_le`, `Add` and `to_bytes_le`: the sum.
#[verifier::external_body]
pub(crate) fn big_add(a: &Vec<u8>, b: &Vec<u8>) -> (r: Vec<u8>)
    ensures
        le_val(r@) == le_val(a@) + le_val(b@),
{
    (BigUint::from_bytes_le(a) + BigUint::from_bytes_le(b)).to_bytes_le()
}

/// Relies on num's `BigUint::from_bytes_le`, `Mul` and `to_bytes_le`: the product.
#[verifier::external_body]
pub(crate) fn big_mul(a: &Vec<u8>, b: &Vec<u8>) -> (r: Vec<u8>)
    ensures
        le_val(r@) == le_val(a@) * le_val(b@),
{
    (BigUint::from_bytes_le(a) * BigUint::from_bytes_le(b)).to_bytes_le()
}

/// Relies on num's `BigUint::from_bytes_le`, `Sub` and `to_bytes_le`: the difference,
/// which `Sub` panics on when it would be negative.
#[verifier::external_body]
pub(crate) fn big_sub(a: &Vec<u8>, b: &Vec<u8>) -> (r: Vec<u8>)
    requires
        le_val(a@) >= le_val(b@),
    ensures
        le_val(r@) == le_val(a@) - le_val(b@),
{
    (BigUint::from_bytes_le(a) - BigUint::from_bytes_le(b)).to_bytes_le()
}

/// Relies on num's `BigUint::from_bytes_le`, `Div` and `to_bytes_le`: the floor quotient,
/// which `Div` panics on for a zero divisor.
#[verifier::external_body]
pub(crate) fn big_div(a: &Vec<u8>, m: &Vec<u8>) -> (r: Vec<u8>)
    requires
        le_val(m@) > 0,
    ensures
        le_val(r@) == le_val(a@) / le_val(m@),
{
    (BigUint::from_bytes_le(a) / BigUint::from_bytes_le(m)).to_bytes_le()
}

/// Relies on num's `BigUint::from_bytes_le`, `Rem` and `to_bytes_le`: the remainder, which
/// `Rem` panics on for a zero divisor.
#[verifier::external_body]
pub(crate) fn big_rem(a: &Vec<u8>, m: &Vec<u8>) -> (r: Vec<u8>)
    requires
        le_val(m@) > 0,
    ensures
        le_val(r@) == le_val(a@) % le_val(m@),
{
    (BigUint::from_bytes_le(a) % BigUint::from_bytes_le(m)).to_bytes_le()
}

/// Relies on num's `BigUint::modinv`: the inverse of `a` modulo `m` in `[0, m)` when one
/// exists, `None` when none does; it panics on a zero modulus.
#[verifier::external_body]
pub(crate) fn big_modinv(a: &Vec<u8>, m: &Vec<u8>) -> (r: Option<Vec<u8>>)
    requires
        le_val(m@) > 0,
    ensures
        r matches Some(x) ==> le_val(x@) < le_val(m@) && (le_val(a@) * le_val(x@)) % le_val(m@)
            == 1nat % le_val(m@),
        r is None ==> forall|x: nat| #[trigger] (le_val(a@) * x) % le_val(m@) != 1nat % le_val(m@),
{
    BigUint::from_bytes_le(a).modinv(&BigUint::from_bytes_le(m)).map(|x| x.to_bytes_le())
}

/// Relies on num's `BigUint::from_bytes_le` and `PartialEq`: whether two limb strings hold
/// the same number.
#[verifier::external_body]
pub(crate) fn big_eq(a: &Vec<u8>, b: &Vec<u8>) -> (r: bool)
    ensures
        r == (le_val(a@) == le_val(b@)),
{
    BigUint::from_bytes_le(a) == BigUint::from_bytes_le(b)
}

} // verus!
