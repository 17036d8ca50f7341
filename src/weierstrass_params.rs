use vstd::prelude::*;
use crate::bigint::{le_val, lemma_le_val_bound, pow256};

verus! {

/// The curves whose point doubling the chip supports, each over its own prime field.
#[derive(Clone, Copy, Debug, PartialEq, Eq, Structural)]
pub enum CurveType {
    Secp256k1,
    Bn254,
    Bls12381,
}

/// The base-field modulus of the curve, in little-endian bytes.
pub open spec fn modulus_bytes(c: CurveType) -> Seq<u8> {
    match c {
        CurveType::Secp256k1 => seq![
            0x2fu8, 0xfc, 0xff, 0xff, 0xfe, 0xff, 0xff, 0xff, 0xff, 0xff, 0xff, 0xff, 0xff, 0xff,
            0xff, 0xff, 0xff, 0xff, 0xff, 0xff, 0xff, 0xff, 0xff, 0xff, 0xff, 0xff, 0xff, 0xff,
            0xff, 0xff, 0xff, 0xff,
        ],
        CurveType::Bn254 => seq![
            0x47u8, 0xfd, 0x7c, 0xd8, 0x16, 0x8c, 0x20, 0x3c, 0x8d, 0xca, 0x71, 0x68, 0x91, 0x6a,
            0x81, 0x97, 0x5d, 0x58, 0x81, 0x81, 0xb6, 0x45, 0x50, 0xb8, 0x29, 0xa0, 0x31, 0xe1,
            0x72, 0x4e, 0x64, 0x30,
        ],
        CurveType::Bls12381 => seq![
            0xabu8, 0xaa, 0xff, 0xff, 0xff, 0xff, 0xfe, 0xb9, 0xff, 0xff, 0x53, 0xb1, 0xfe, 0xff,
            0xab, 0x1e, 0x24, 0xf6, 0xb0, 0xf6, 0xa0, 0xd2, 0x30, 0x67, 0xbf, 0x12, 0x85, 0xf3,
            0x84, 0x4b, 0x77, 0x64, 0xd7, 0xac, 0x4b, 0x43, 0xb6, 0xa7, 0x1b, 0x4b, 0x9a, 0xe6,
            0x7f, 0x39, 0xea, 0x11, 0x01, 0x1a,
        ],
    }
}

/// The coefficient `a` of `y^2 = x^3 + a x + b`: zero on all three curves.
pub open spec fn a_bytes(c: CurveType) -> Seq<u8> {
    seq![0u8]
}

/// The coefficient `b` of `y^2 = x^3 + a x + b`.
pub open spec fn b_bytes(c: CurveType) -> Seq<u8> {
    match c {
        CurveType::Secp256k1 => seq![7u8],
        CurveType::Bn254 => seq![3u8],
        CurveType::Bls12381 => seq![4u8],
    }
}

impl CurveType {
    /// The prime of the base field.
    pub open spec fn p(self) -> nat {
        le_val(modulus_bytes(self))
    }

    pub open spec fn a(self) -> nat {
        le_val(a_bytes(self))
    }

    pub open spec fn b(self) -> nat {
        le_val(b_bytes(self))
    }

    /// Limbs of one coordinate.
    pub open spec fn nb_limbs(self) -> nat {
        match self {
            CurveType::Bls12381 => 48,
            _ => 32,
        }
    }

    /// Words of one point: two coordinates of four limbs per word.
    pub open spec fn words_per_point(self) -> nat {
        2 * self.nb_limbs() / 4
    }

    /// Words of one coordinate.
    pub open spec fn half_words(self) -> int {
        self.nb_limbs() as int / 4
    }

    pub open spec fn syscall_id_spec(self) -> u32 {
        match self {
            CurveType::Secp256k1 => 0x10b,
            CurveType::Bn254 => 0x10f,
            CurveType::Bls12381 => 0x11f,
        }
    }

    /// The syscall that asks for a doubling on this curve.
    pub fn syscall_id(&self) -> (r: u32)
        ensures
            r == self.syscall_id_spec(),
    {
        match self {
            CurveType::Secp256k1 => 0x10b,
            CurveType::Bn254 => 0x10f,
            CurveType::Bls12381 => 0x11f,
        }
    }

    /// Limbs of one coordinate.
    pub fn num_limbs(&self) -> (r: usize)
        ensures
            r == self.nb_limbs(),
    {
        match self {
            CurveType::Bls12381 => 48,
            _ => 32,
        }
    }

    /// Words of one point.
    pub fn num_words(&self) -> (r: usize)
        ensures
            r == self.words_per_point(),
            r * 2 == self.nb_limbs(),
    {
        match self {
            CurveType::Bls12381 => 24,
            _ => 16,
        }
    }

    /// The prime of the base field, in little-endian bytes.
    pub fn modulus(&self) -> (r: Vec<u8>)
        ensures
            r@ == modulus_bytes(*self),
    {
        let bytes: Vec<u8> = match self {
            CurveType::Secp256k1 => vec![
                0x2fu8, 0xfc, 0xff, 0xff, 0xfe, 0xff, 0xff, 0xff, 0xff, 0xff, 0xff, 0xff, 0xff, 0xff,
                0xff, 0xff, 0xff, 0xff, 0xff, 0xff, 0xff, 0xff, 0xff, 0xff, 0xff, 0xff, 0xff, 0xff,
                0xff, 0xff, 0xff, 0xff,
            ],
            CurveType::Bn254 => vec![
                0x47u8, 0xfd, 0x7c, 0xd8, 0x16, 0x8c, 0x20, 0x3c, 0x8d, 0xca, 0x71, 0x68, 0x91, 0x6a,
                0x81, 0x97, 0x5d, 0x58, 0x81, 0x81, 0xb6, 0x45, 0x50, 0xb8, 0x29, 0xa0, 0x31, 0xe1,
                0x72, 0x4e, 0x64, 0x30,
            ],
            CurveType::Bls12381 => vec![
                0xabu8, 0xaa, 0xff, 0xff, 0xff, 0xff, 0xfe, 0xb9, 0xff, 0xff, 0x53, 0xb1, 0xfe, 0xff,
                0xab, 0x1e, 0x24, 0xf6, 0xb0, 0xf6, 0xa0, 0xd2, 0x30, 0x67, 0xbf, 0x12, 0x85, 0xf3,
                0x84, 0x4b, 0x77, 0x64, 0xd7, 0xac, 0x4b, 0x43, 0xb6, 0xa7, 0x1b, 0x4b, 0x9a, 0xe6,
                0x7f, 0x39, 0xea, 0x11, 0x01, 0x1a,
            ],
        };
        assert(bytes@ =~= modulus_bytes(*self));
        bytes
    }

    /// The coefficient `a`, in little-endian bytes.
    pub fn a_int(&self) -> (r: Vec<u8>)
        ensures
            r@ == a_bytes(*self),
    {
        let mut r: Vec<u8> = Vec::new();
        r.push(0);
        assert(r@ =~= a_bytes(*self));
        r
    }

    /// The coefficient `b`, in little-endian bytes.
    pub fn b_int(&self) -> (r: Vec<u8>)
        ensures
            r@ == b_bytes(*self),
    {
        let mut r: Vec<u8> = Vec::new();
        match self {
            CurveType::Secp256k1 => r.push(7),
            CurveType::Bn254 => r.push(3),
            CurveType::Bls12381 => r.push(4),
        }
        assert(r@ =~= b_bytes(*self));
        r
    }
}

/// A number is at least its lowest limb.
pub proof fn lemma_le_val_ge_first(s: Seq<u8>)
    requires
        s.len() > 0,
    ensures
        le_val(s) >= s[0],
{
}

/// The value of a single limb.
pub proof fn lemma_le_val_single(b: u8)
    ensures
        le_val(seq![b]) == b,
{
    assert(seq![b].drop_first() =~= Seq::<u8>::empty());
    assert(le_val(Seq::<u8>::empty()) == 0);
    assert(seq![b][0] == b);
    assert(le_val(seq![b]) == seq![b][0] + 256 * le_val(seq![b].drop_first()));
}

/// Each modulus is above the small constants that doubling uses and fits its limbs.
pub proof fn lemma_curve_bounds(c: CurveType)
    ensures
        c.p() >= 47,
        c.p() < pow256(c.nb_limbs()),
        c.a() == 0,
        c.b() < 8,
        modulus_bytes(c).len() == c.nb_limbs(),
{
    lemma_le_val_ge_first(modulus_bytes(c));
    lemma_le_val_bound(modulus_bytes(c));
    lemma_le_val_single(0);
    lemma_le_val_single(b_bytes(c)[0]);
    assert(b_bytes(c) =~= seq![b_bytes(c)[0]]);
}

} // verus!
