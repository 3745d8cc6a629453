//! The quadratic extension Fp2 = Fp[u]/(u^2 + 1), consumed as a typed
//! interface and built coordinate-wise over the base field.
use vstd::prelude::*;
use crate::fp::{lemma_fp_eq_iff, Fp};
use crate::lemmas::{
    lemma_cani_rep, lemma_congi_add, lemma_congi_mul, lemma_congi_sub, lemma_p_pos,
};
use crate::model::{
    can2, cong2, inv2able, one2, p, radd2, rfrob2, rmul2, rneg2, rnr2, rsub2, s2, zero2, Sp2,
};

verus! {

/// An element c0 + c1*u with canonical coordinates.
#[derive(Clone, Copy, PartialEq, Eq, Structural, Debug)]
pub struct Fp2 {
    pub c0: Fp,
    pub c1: Fp,
}

impl View for Fp2 {
    type V = Sp2;

    open spec fn view(&self) -> Sp2 {
        Sp2 { c0: self.c0@, c1: self.c1@ }
    }
}

/// Equality of well-formed values coincides with equality of their models.
pub proof fn lemma_fp2_eq_iff(a: Fp2, b: Fp2)
    ensures
        (a == b) <==> (a@ == b@),
{
    lemma_fp_eq_iff(a.c0, b.c0);
    lemma_fp_eq_iff(a.c1, b.c1);
}

impl Fp2 {
    pub open spec fn wf(&self) -> bool {
        can2(self@)
    }

    /// Constructs an element from its coordinates.
    pub fn new(c0: Fp, c1: Fp) -> (r: Fp2)
        ensures
            r@ == s2(c0@, c1@),
            c0.wf() && c1.wf() ==> r.wf(),
    {
        Fp2 { c0, c1 }
    }

    pub fn zero() -> (r: Fp2)
        ensures
            r.wf(),
            r@ == zero2(),
    {
        Fp2 { c0: Fp::zero(), c1: Fp::zero() }
    }

    pub fn one() -> (r: Fp2)
        ensures
            r.wf(),
            r@ == one2(),
    {
        Fp2 { c0: Fp::one(), c1: Fp::zero() }
    }

    pub fn is_zero(&self) -> (r: bool)
        requires
            self.wf(),
        ensures
            r == (self@ == zero2()),
    {
        let z = Fp::zero();
        proof {
            lemma_fp_eq_iff(self.c0, z);
            lemma_fp_eq_iff(self.c1, z);
            lemma_p_pos();
        }
        self.c0 == z && self.c1 == z
    }

    pub fn add(&self, rhs: &Fp2) -> (r: Fp2)
        requires
            self.wf(),
            rhs.wf(),
        ensures
            r.wf(),
            cong2(r@, radd2(self@, rhs@)),
    {
        Fp2 { c0: self.c0.add_fp(&rhs.c0), c1: self.c1.add_fp(&rhs.c1) }
    }

    pub fn sub(&self, rhs: &Fp2) -> (r: Fp2)
        requires
            self.wf(),
            rhs.wf(),
        ensures
            r.wf(),
            cong2(r@, rsub2(self@, rhs@)),
    {
        Fp2 { c0: self.c0.sub_fp(&rhs.c0), c1: self.c1.sub_fp(&rhs.c1) }
    }

    pub fn neg(&self) -> (r: Fp2)
        requires
            self.wf(),
        ensures
            r.wf(),
            cong2(r@, rneg2(self@)),
    {
        Fp2 { c0: self.c0.neg_fp(), c1: self.c1.neg_fp() }
    }

    pub fn double(&self) -> (r: Fp2)
        requires
            self.wf(),
        ensures
            r.wf(),
            cong2(r@, radd2(self@, self@)),
    {
        self.add(self)
    }

    /// Full Fp2 multiplication: (a0 + a1 u)(b0 + b1 u) with u^2 = -1.
    pub fn mul(&self, rhs: &Fp2) -> (r: Fp2)
        requires
            self.wf(),
            rhs.wf(),
        ensures
            r.wf(),
            cong2(r@, rmul2(self@, rhs@)),
    {
        let t0 = self.c0.mul_fp(&rhs.c0);
        let t1 = self.c1.mul_fp(&rhs.c1);
        let t2 = self.c0.mul_fp(&rhs.c1);
        let t3 = self.c1.mul_fp(&rhs.c0);
        let r0 = t0.sub_fp(&t1);
        let r1 = t2.add_fp(&t3);
        proof {
            lemma_congi_sub(t0@, t1@, self@.c0 * rhs@.c0, self@.c1 * rhs@.c1);
            lemma_congi_add(t2@, t3@, self@.c0 * rhs@.c1, self@.c1 * rhs@.c0);
        }
        Fp2 { c0: r0, c1: r1 }
    }

    /// Squaring, consistent with `mul` on equal arguments.
    pub fn square(&self) -> (r: Fp2)
        requires
            self.wf(),
        ensures
            r.wf(),
            cong2(r@, rmul2(self@, self@)),
    {
        self.mul(self)
    }

    /// Multiplication by the Fp6 non-residue u + 1.
    pub fn mul_by_nonresidue(&self) -> (r: Fp2)
        requires
            self.wf(),
        ensures
            r.wf(),
            cong2(r@, rnr2(self@)),
    {
        Fp2 { c0: self.c0.sub_fp(&self.c1), c1: self.c0.add_fp(&self.c1) }
    }

    /// The p^power Frobenius map: conjugation for odd powers.
    pub fn frobenius_map(&self, power: usize) -> (r: Fp2)
        requires
            self.wf(),
        ensures
            r.wf(),
            cong2(r@, rfrob2(self@, power as nat)),
    {
        if power % 2 == 0 {
            *self
        } else {
            Fp2 { c0: self.c0, c1: self.c1.neg_fp() }
        }
    }

    /// Inversion by the norm method: succeeds exactly when the norm
    /// c0^2 + c1^2 is nonzero modulo p, in particular on every nonzero
    /// element of the field.
    #[verifier::rlimit(60)]
    pub fn inverse(&self) -> (r: Option<Fp2>)
        requires
            self.wf(),
        ensures
            r is Some <==> inv2able(self@),
            r matches Some(b) ==> b.wf() && cong2(rmul2(self@, b@), one2()),
    {
        let a0 = self.c0;
        let a1 = self.c1;
        let t0 = a0.mul_fp(&a0);
        let t1 = a1.mul_fp(&a1);
        let n = t0.add_fp(&t1);
        proof {
            lemma_congi_add(t0@, t1@, a0@ * a0@, a1@ * a1@);
            lemma_cani_rep(a0@ * a0@ + a1@ * a1@, n@);
        }
        match n.inv_fp() {
            None => None,
            Some(m) => {
                let b0 = a0.mul_fp(&m);
                let na1 = a1.neg_fp();
                let b1 = na1.mul_fp(&m);
                proof {
                    lemma_congi_mul(na1@, m@, -a1@, m@);
                    lemma_congi_mul(a0@, b0@, a0@, a0@ * m@);
                    lemma_congi_mul(a1@, b1@, a1@, (-a1@) * m@);
                    lemma_congi_sub(
                        a0@ * b0@,
                        a1@ * b1@,
                        a0@ * (a0@ * m@),
                        a1@ * ((-a1@) * m@),
                    );
                    lemma_congi_mul(a0@, b1@, a0@, (-a1@) * m@);
                    lemma_congi_mul(a1@, b0@, a1@, a0@ * m@);
                    lemma_congi_add(
                        a0@ * b1@,
                        a1@ * b0@,
                        a0@ * ((-a1@) * m@),
                        a1@ * (a0@ * m@),
                    );
                    crate::lemmas::lemma_inv2_product(a0@, a1@, m@, n@);
                }
                Some(Fp2 { c0: b0, c1: b1 })
            },
        }
    }
}

} // verus!
