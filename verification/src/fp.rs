//! The base prime field, consumed as a typed interface.
//!
//! An `Fp` value holds the six 64-bit little-endian limbs of a canonical
//! representative (an integer in `[0, p)`).  The arithmetic itself is not
//! reimplemented here: each operation is a trusted wrapper around the
//! corresponding `ark_bls12_381::Fq` field operation, stated as a congruence
//! modulo p over the integer view.
use vstd::prelude::*;
use ark_bls12_381::Fq;
use ark_ff::{BigInt, Field, PrimeField};
use crate::model::{cani, congi, lv6, p};
use crate::lemmas::lemma_p_pos;

verus! {

/// A canonical element of the base field: six little-endian 64-bit limbs.
#[derive(Clone, Copy, PartialEq, Eq, Structural, Debug)]
pub struct Fp {
    pub l0: u64,
    pub l1: u64,
    pub l2: u64,
    pub l3: u64,
    pub l4: u64,
    pub l5: u64,
}

impl View for Fp {
    type V = int;

    open spec fn view(&self) -> int {
        lv6(
            self.l0 as int,
            self.l1 as int,
            self.l2 as int,
            self.l3 as int,
            self.l4 as int,
            self.l5 as int,
        )
    }
}

impl Fp {
    /// A value is well formed when its limbs denote an integer in `[0, p)`.
    pub open spec fn wf(&self) -> bool {
        cani(self@)
    }

    /// The additive identity.
    pub fn zero() -> (r: Fp)
        ensures
            r.wf(),
            r@ == 0,
    {
        proof {
            lemma_p_pos();
        }
        Fp { l0: 0, l1: 0, l2: 0, l3: 0, l4: 0, l5: 0 }
    }

    /// The multiplicative identity.
    pub fn one() -> (r: Fp)
        ensures
            r.wf(),
            r@ == 1,
    {
        proof {
            lemma_p_pos();
        }
        Fp { l0: 1, l1: 0, l2: 0, l3: 0, l4: 0, l5: 0 }
    }

    /// The canonical limbs of this element, least significant first.
    pub fn limbs(&self) -> (r: (u64, u64, u64, u64, u64, u64))
        ensures
            r == (self.l0, self.l1, self.l2, self.l3, self.l4, self.l5),
            lv6(r.0 as int, r.1 as int, r.2 as int, r.3 as int, r.4 as int, r.5 as int)
                == self@,
    {
        (self.l0, self.l1, self.l2, self.l3, self.l4, self.l5)
    }

    /// Builds a canonical element from limbs; refuses a value at or above p.
    /// Relies on `ark_ff::PrimeField::from_bigint`, which returns `None`
    /// exactly when the integer is outside `[0, p)`, and on
    /// `PrimeField::into_bigint`, which returns the canonical representative.
    #[verifier::external_body]
    pub fn from_limbs(l0: u64, l1: u64, l2: u64, l3: u64, l4: u64, l5: u64) -> (r: Option<Fp>)
        ensures
            r is Some <==> cani(lv6(l0 as int, l1 as int, l2 as int, l3 as int, l4 as int,
                l5 as int)),
            r matches Some(v) ==> v == (Fp { l0, l1, l2, l3, l4, l5 }),
    {
        Fq::from_bigint(BigInt([l0, l1, l2, l3, l4, l5])).map(|_| Fp { l0, l1, l2, l3, l4, l5 })
    }

    /// Field addition.  Relies on `ark_bls12_381::Fq` addition: the canonical
    /// representative of the sum of two canonical representatives.
    #[verifier::external_body]
    pub(crate) fn add_fp(&self, rhs: &Fp) -> (r: Fp)
        requires
            self.wf(),
            rhs.wf(),
        ensures
            r.wf(),
            congi(r@, self@ + rhs@),
    {
        let f = |x: &Fp| Fq::from_bigint(BigInt([x.l0, x.l1, x.l2, x.l3, x.l4, x.l5])).unwrap();
        let v = (f(self) + f(rhs)).into_bigint().0;
        Fp { l0: v[0], l1: v[1], l2: v[2], l3: v[3], l4: v[4], l5: v[5] }
    }

    /// Field subtraction.  Relies on `ark_bls12_381::Fq` subtraction.
    #[verifier::external_body]
    pub(crate) fn sub_fp(&self, rhs: &Fp) -> (r: Fp)
        requires
            self.wf(),
            rhs.wf(),
        ensures
            r.wf(),
            congi(r@, self@ - rhs@),
    {
        let f = |x: &Fp| Fq::from_bigint(BigInt([x.l0, x.l1, x.l2, x.l3, x.l4, x.l5])).unwrap();
        let v = (f(self) - f(rhs)).into_bigint().0;
        Fp { l0: v[0], l1: v[1], l2: v[2], l3: v[3], l4: v[4], l5: v[5] }
    }

    /// Field negation.  Relies on `ark_bls12_381::Fq` negation.
    #[verifier::external_body]
    pub(crate) fn neg_fp(&self) -> (r: Fp)
        requires
            self.wf(),
        ensures
            r.wf(),
            congi(r@, -self@),
    {
        let f = |x: &Fp| Fq::from_bigint(BigInt([x.l0, x.l1, x.l2, x.l3, x.l4, x.l5])).unwrap();
        let v = (-f(self)).into_bigint().0;
        Fp { l0: v[0], l1: v[1], l2: v[2], l3: v[3], l4: v[4], l5: v[5] }
    }

    /// Field multiplication.  Relies on `ark_bls12_381::Fq` multiplication.
    #[verifier::external_body]
    pub(crate) fn mul_fp(&self, rhs: &Fp) -> (r: Fp)
        requires
            self.wf(),
            rhs.wf(),
        ensures
            r.wf(),
            congi(r@, self@ * rhs@),
    {
        let f = |x: &Fp| Fq::from_bigint(BigInt([x.l0, x.l1, x.l2, x.l3, x.l4, x.l5])).unwrap();
        let v = (f(self) * f(rhs)).into_bigint().0;
        Fp { l0: v[0], l1: v[1], l2: v[2], l3: v[3], l4: v[4], l5: v[5] }
    }

    /// Field inversion.  Relies on `ark_ff::Field::inverse`, which returns
    /// `None` exactly on zero and otherwise the multiplicative inverse.
    #[verifier::external_body]
    pub(crate) fn inv_fp(&self) -> (r: Option<Fp>)
        requires
            self.wf(),
        ensures
            r is Some <==> self@ != 0,
            r matches Some(v) ==> v.wf() && congi(self@ * v@, 1),
    {
        let f = |x: &Fp| Fq::from_bigint(BigInt([x.l0, x.l1, x.l2, x.l3, x.l4, x.l5])).unwrap();
        let g = |x: Fq| {
            let v = x.into_bigint().0;
            Fp { l0: v[0], l1: v[1], l2: v[2], l3: v[3], l4: v[4], l5: v[5] }
        };
        f(self).inverse().map(g)
    }

    /// Doubling, as field addition with itself.
    pub(crate) fn double_fp(&self) -> (r: Fp)
        requires
            self.wf(),
        ensures
            r.wf(),
            congi(r@, self@ + self@),
    {
        self.add_fp(self)
    }
}

/// Limb-for-limb equality of canonical values coincides with equality of the
/// integers they denote.
pub proof fn lemma_fp_eq_iff(a: Fp, b: Fp)
    ensures
        (a == b) <==> (a@ == b@),
{
    if a@ == b@ {
        crate::lemmas::lemma_lv6_inj(
            a.l0 as int, a.l1 as int, a.l2 as int, a.l3 as int, a.l4 as int, a.l5 as int,
            b.l0 as int, b.l1 as int, b.l2 as int, b.l3 as int, b.l4 as int, b.l5 as int,
        );
    }
}

} // verus!
