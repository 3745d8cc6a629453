//! The cubic extension Fp6 = Fp2[v]/(v^3 - (u+1)), consumed as a typed
//! interface and built coordinate-wise over Fp2.
use vstd::prelude::*;
use crate::fp2::{lemma_fp2_eq_iff, Fp2};
use crate::ring6::{lemma_fp6_adjugate, lemma_rscale6_mul};
use crate::lemmas::{
    lemma_cong2_add, lemma_cong2_mul, lemma_cong2_nr, lemma_cong2_sub, lemma_cong6_mul,
    lemma_inv2able_cong, lemma_zero_one_mod,
};
use crate::model::{
    adj6, can6, cong6, f6c1, f6c2, inv6able, inv_t6, one6, radd2, radd6, rfrob2, rfrob6, rmul2,
    rmul6, rneg6, rnr2, rnr6, rscale6, rsub6, zero6, Sp6,
};

verus! {

/// An element c0 + c1*v + c2*v^2 with canonical coordinates.
#[derive(Clone, Copy, PartialEq, Eq, Structural, Debug)]
pub struct Fp6 {
    pub c0: Fp2,
    pub c1: Fp2,
    pub c2: Fp2,
}

impl View for Fp6 {
    type V = Sp6;

    open spec fn view(&self) -> Sp6 {
        Sp6 { c0: self.c0@, c1: self.c1@, c2: self.c2@ }
    }
}

/// Equality of well-formed values coincides with equality of their models.
pub proof fn lemma_fp6_eq_iff(a: Fp6, b: Fp6)
    ensures
        (a == b) <==> (a@ == b@),
{
    lemma_fp2_eq_iff(a.c0, b.c0);
    lemma_fp2_eq_iff(a.c1, b.c1);
    lemma_fp2_eq_iff(a.c2, b.c2);
}

impl Fp6 {
    pub open spec fn wf(&self) -> bool {
        can6(self@)
    }

    /// Constructs an element from its coordinates.
    pub fn new(c0: Fp2, c1: Fp2, c2: Fp2) -> (r: Fp6)
        ensures
            r@ == (Sp6 { c0: c0@, c1: c1@, c2: c2@ }),
            c0.wf() && c1.wf() && c2.wf() ==> r.wf(),
    {
        Fp6 { c0, c1, c2 }
    }

    pub fn zero() -> (r: Fp6)
        ensures
            r.wf(),
            r@ == zero6(),
    {
        Fp6 { c0: Fp2::zero(), c1: Fp2::zero(), c2: Fp2::zero() }
    }

    pub fn one() -> (r: Fp6)
        ensures
            r.wf(),
            r@ == one6(),
    {
        Fp6 { c0: Fp2::one(), c1: Fp2::zero(), c2: Fp2::zero() }
    }

    pub fn is_zero(&self) -> (r: bool)
        requires
            self.wf(),
        ensures
            r == (self@ == zero6()),
    {
        self.c0.is_zero() && self.c1.is_zero() && self.c2.is_zero()
    }

    pub fn add(&self, rhs: &Fp6) -> (r: Fp6)
        requires
            self.wf(),
            rhs.wf(),
        ensures
            r.wf(),
            cong6(r@, radd6(self@, rhs@)),
    {
        Fp6 {
            c0: self.c0.add(&rhs.c0),
            c1: self.c1.add(&rhs.c1),
            c2: self.c2.add(&rhs.c2),
        }
    }

    pub fn sub(&self, rhs: &Fp6) -> (r: Fp6)
        requires
            self.wf(),
            rhs.wf(),
        ensures
            r.wf(),
            cong6(r@, rsub6(self@, rhs@)),
    {
        Fp6 {
            c0: self.c0.sub(&rhs.c0),
            c1: self.c1.sub(&rhs.c1),
            c2: self.c2.sub(&rhs.c2),
        }
    }

    pub fn neg(&self) -> (r: Fp6)
        requires
            self.wf(),
        ensures
            r.wf(),
            cong6(r@, rneg6(self@)),
    {
        Fp6 { c0: self.c0.neg(), c1: self.c1.neg(), c2: self.c2.neg() }
    }

    pub fn double(&self) -> (r: Fp6)
        requires
            self.wf(),
        ensures
            r.wf(),
            cong6(r@, radd6(self@, self@)),
    {
        self.add(self)
    }

    /// Full Fp6 multiplication with v^3 = u + 1.
    pub fn mul(&self, rhs: &Fp6) -> (r: Fp6)
        requires
            self.wf(),
            rhs.wf(),
        ensures
            r.wf(),
            cong6(r@, rmul6(self@, rhs@)),
    {
        let x0 = self.c0;
        let x1 = self.c1;
        let x2 = self.c2;
        let y0 = rhs.c0;
        let y1 = rhs.c1;
        let y2 = rhs.c2;
        let m00 = x0.mul(&y0);
        let m12 = x1.mul(&y2);
        let m21 = x2.mul(&y1);
        let s0 = m12.add(&m21);
        let n0 = s0.mul_by_nonresidue();
        let r0 = m00.add(&n0);
        let m01 = x0.mul(&y1);
        let m10 = x1.mul(&y0);
        let s1 = m01.add(&m10);
        let m22 = x2.mul(&y2);
        let n1 = m22.mul_by_nonresidue();
        let r1 = s1.add(&n1);
        let m02 = x0.mul(&y2);
        let m20 = x2.mul(&y0);
        let s2 = m02.add(&m20);
        let m11 = x1.mul(&y1);
        let r2 = s2.add(&m11);
        proof {
            lemma_cong2_add(m12@, m21@, rmul2(x1@, y2@), rmul2(x2@, y1@));
            lemma_cong2_nr(s0@, radd2(rmul2(x1@, y2@), rmul2(x2@, y1@)));
            lemma_cong2_add(
                m00@,
                n0@,
                rmul2(x0@, y0@),
                rnr2(radd2(rmul2(x1@, y2@), rmul2(x2@, y1@))),
            );
            lemma_cong2_add(m01@, m10@, rmul2(x0@, y1@), rmul2(x1@, y0@));
            lemma_cong2_nr(m22@, rmul2(x2@, y2@));
            lemma_cong2_add(
                s1@,
                n1@,
                radd2(rmul2(x0@, y1@), rmul2(x1@, y0@)),
                rnr2(rmul2(x2@, y2@)),
            );
            lemma_cong2_add(m02@, m20@, rmul2(x0@, y2@), rmul2(x2@, y0@));
            lemma_cong2_add(
                s2@,
                m11@,
                radd2(rmul2(x0@, y2@), rmul2(x2@, y0@)),
                rmul2(x1@, y1@),
            );
        }
        Fp6 { c0: r0, c1: r1, c2: r2 }
    }

    /// Squaring, consistent with `mul` on equal arguments.
    pub fn square(&self) -> (r: Fp6)
        requires
            self.wf(),
        ensures
            r.wf(),
            cong6(r@, rmul6(self@, self@)),
    {
        self.mul(self)
    }

    /// Multiplication by the Fp12 non-residue v: a cyclic shift of the
    /// coordinates with the top one scaled by u + 1.
    pub fn mul_by_nonresidue(&self) -> (r: Fp6)
        requires
            self.wf(),
        ensures
            r.wf(),
            cong6(r@, rnr6(self@)),
    {
        Fp6 { c0: self.c2.mul_by_nonresidue(), c1: self.c0, c2: self.c1 }
    }

    /// The p^power Frobenius map: coordinate-wise Fp2 Frobenius followed by
    /// multiplication with the precomputed coefficients.
    pub fn frobenius_map(&self, power: usize) -> (r: Fp6)
        requires
            self.wf(),
        ensures
            r.wf(),
            cong6(r@, rfrob6(self@, power as nat)),
    {
        let i = power % 6;
        let f0 = self.c0.frobenius_map(power);
        let g1 = self.c1.frobenius_map(power);
        let g2 = self.c2.frobenius_map(power);
        let e1 = Fp2::frob6_c1_entry(i);
        let e2 = Fp2::frob6_c2_entry(i);
        let f1 = g1.mul(&e1);
        let f2 = g2.mul(&e2);
        proof {
            lemma_cong2_mul(g1@, e1@, rfrob2(self@.c1, power as nat), f6c1(i as int));
            lemma_cong2_mul(g2@, e2@, rfrob2(self@.c2, power as nat), f6c2(i as int));
        }
        Fp6 { c0: f0, c1: f1, c2: f2 }
    }

    /// Inversion by the norm method: succeeds exactly when the Fp2 norm
    /// value `inv_t6` of the argument is invertible, which holds on every
    /// nonzero field element; a returned value multiplies with the argument
    /// to one, and zero has no inverse.
    pub fn inverse(&self) -> (r: Option<Fp6>)
        requires
            self.wf(),
        ensures
            r is Some <==> inv6able(self@),
            r matches Some(b) ==> b.wf() && cong6(rmul6(self@, b@), one6()),
            self@ == zero6() ==> r is None,
    {
        let x0 = self.c0;
        let x1 = self.c1;
        let x2 = self.c2;
        let s0 = x0.square();
        let p12 = x1.mul(&x2);
        let n12 = p12.mul_by_nonresidue();
        let va = s0.sub(&n12);
        let s2q = x2.square();
        let nn = s2q.mul_by_nonresidue();
        let p01 = x0.mul(&x1);
        let vb = nn.sub(&p01);
        let s1q = x1.square();
        let p02 = x0.mul(&x2);
        let vc = s1q.sub(&p02);
        let m0 = x0.mul(&va);
        let m2 = x2.mul(&vb);
        let m1 = x1.mul(&vc);
        let sm = m2.add(&m1);
        let nm = sm.mul_by_nonresidue();
        let t = m0.add(&nm);
        proof {
            let a = adj6(self@);
            lemma_cong2_nr(p12@, rmul2(x1@, x2@));
            lemma_cong2_sub(s0@, n12@, rmul2(x0@, x0@), rnr2(rmul2(x1@, x2@)));
            lemma_cong2_nr(s2q@, rmul2(x2@, x2@));
            lemma_cong2_sub(nn@, p01@, rnr2(rmul2(x2@, x2@)), rmul2(x0@, x1@));
            lemma_cong2_sub(s1q@, p02@, rmul2(x1@, x1@), rmul2(x0@, x2@));
            lemma_cong2_mul(x0@, va@, x0@, a.c0);
            lemma_cong2_mul(x2@, vb@, x2@, a.c1);
            lemma_cong2_mul(x1@, vc@, x1@, a.c2);
            lemma_cong2_add(m2@, m1@, rmul2(x2@, a.c1), rmul2(x1@, a.c2));
            lemma_cong2_nr(sm@, radd2(rmul2(x2@, a.c1), rmul2(x1@, a.c2)));
            lemma_cong2_add(
                m0@,
                nm@,
                rmul2(x0@, a.c0),
                rnr2(radd2(rmul2(x2@, a.c1), rmul2(x1@, a.c2))),
            );
            lemma_inv2able_cong(t@, inv_t6(self@));
            if self@ == zero6() {
                crate::lemmas::lemma_inv12able_zero();
            }
        }
        match t.inverse() {
            None => None,
            Some(m) => {
                let b0 = va.mul(&m);
                let b1 = vb.mul(&m);
                let b2 = vc.mul(&m);
                let cand = Fp6 { c0: b0, c1: b1, c2: b2 };
                proof {
                    let a = adj6(self@);
                    lemma_cong2_mul(va@, m@, a.c0, m@);
                    lemma_cong2_mul(vb@, m@, a.c1, m@);
                    lemma_cong2_mul(vc@, m@, a.c2, m@);
                    lemma_cong6_mul(self@, cand@, self@, rscale6(a, m@));
                    lemma_rscale6_mul(self@, a, m@);
                    lemma_fp6_adjugate(self@);
                    lemma_cong2_mul(inv_t6(self@), m@, t@, m@);
                    crate::lemmas::lemma_rmul2_zero(m@);
                    lemma_zero_one_mod();
                }
                Some(cand)
            },
        }
    }
}

} // verus!
