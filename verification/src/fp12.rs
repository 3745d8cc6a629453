//! Arithmetic over the quadratic extension Fp12 = Fp6[w]/(w^2 - v), the
//! cyclotomic subgroup test, and two compression schemes for cyclotomic
//! elements: coordinate-drop compression, which stores four of the six Fp2
//! sub-coordinates, and torus-based compression, which stores a single Fp6
//! value.
use vstd::prelude::*;
use crate::fp2::Fp2;
use crate::fp6::{lemma_fp6_eq_iff, Fp6};
use crate::lemmas::{
    lemma_back_g0_cong, lemma_can12_eq, lemma_cong12_mul, lemma_cong2_add, lemma_cong2_mul,
    lemma_cong2_nr, lemma_cong2_sub, lemma_cong6_add, lemma_cong6_mul, lemma_cong6_neg,
    lemma_cong6_nr, lemma_cong6_sub, lemma_inv2able_cong, lemma_inv6able_cong,
    lemma_inv12able_cong, lemma_p_pos, lemma_spec_is_cyc_cong, lemma_zero_one_mod,
};
use crate::model::{
    back_cycle, back_g0, back_g1_den, back_g1_num, can12, cong12, cong2, cong6, f12c1, inv12able,
    inv2able, inv6able, inv_d12, one12, one2, one6, radd12, radd2, radd6, rconj12, rfrob12,
    rfrob6, rmul12, rmul2, rmul6, rneg12, rneg6, rnr2, rnr6, rsub12, rsub2, rsub6, sinv12, sinv2,
    spec_is_cyc, torus_rec, zero12, Sp12,
};
use crate::ring6::{
    lemma_fp12_inv_product, lemma_karatsuba6, lemma_mul_inv_cancel6, lemma_sinv12_value,
    lemma_sinv2_value, lemma_square6,
};

verus! {

/// An element c0 + c1*w of Fp12 with canonical coordinates.
#[derive(Clone, Copy, PartialEq, Eq, Structural, Debug)]
pub struct Fp12 {
    pub c0: Fp6,
    pub c1: Fp6,
}

impl View for Fp12 {
    type V = Sp12;

    open spec fn view(&self) -> Sp12 {
        Sp12 { c0: self.c0@, c1: self.c1@ }
    }
}

/// Equality of well-formed values coincides with equality of their models.
pub proof fn lemma_fp12_eq_iff(a: Fp12, b: Fp12)
    ensures
        (a == b) <==> (a@ == b@),
{
    lemma_fp6_eq_iff(a.c0, b.c0);
    lemma_fp6_eq_iff(a.c1, b.c1);
}

impl Fp12 {
    pub open spec fn wf(&self) -> bool {
        can12(self@)
    }

    /// Constructs an element of Fp12 from its two Fp6 coordinates.
    pub fn new(c0: Fp6, c1: Fp6) -> (r: Fp12)
        ensures
            r@ == (Sp12 { c0: c0@, c1: c1@ }),
            c0.wf() && c1.wf() ==> r.wf(),
    {
        Fp12 { c0, c1 }
    }

    /// The first Fp6 coordinate.
    pub fn c0(&self) -> (r: Fp6)
        ensures
            r == self.c0,
            r@ == self@.c0,
    {
        self.c0
    }

    /// The second Fp6 coordinate.
    pub fn c1(&self) -> (r: Fp6)
        ensures
            r == self.c1,
            r@ == self@.c1,
    {
        self.c1
    }

    pub fn zero() -> (r: Fp12)
        ensures
            r.wf(),
            r@ == zero12(),
    {
        Fp12 { c0: Fp6::zero(), c1: Fp6::zero() }
    }

    pub fn one() -> (r: Fp12)
        ensures
            r.wf(),
            r@ == one12(),
    {
        Fp12 { c0: Fp6::one(), c1: Fp6::zero() }
    }

    pub fn is_zero(&self) -> (r: bool)
        requires
            self.wf(),
        ensures
            r == (self@ == zero12()),
    {
        self.c0.is_zero() && self.c1.is_zero()
    }

    /// Coordinate-wise addition.
    pub fn add(&self, rhs: &Fp12) -> (r: Fp12)
        requires
            self.wf(),
            rhs.wf(),
        ensures
            r.wf(),
            cong12(r@, radd12(self@, rhs@)),
    {
        Fp12 { c0: self.c0.add(&rhs.c0), c1: self.c1.add(&rhs.c1) }
    }

    /// Coordinate-wise subtraction.
    pub fn sub(&self, rhs: &Fp12) -> (r: Fp12)
        requires
            self.wf(),
            rhs.wf(),
        ensures
            r.wf(),
            cong12(r@, rsub12(self@, rhs@)),
    {
        Fp12 { c0: self.c0.sub(&rhs.c0), c1: self.c1.sub(&rhs.c1) }
    }

    /// Coordinate-wise negation.
    pub fn neg(&self) -> (r: Fp12)
        requires
            self.wf(),
        ensures
            r.wf(),
            cong12(r@, rneg12(self@)),
    {
        Fp12 { c0: self.c0.neg(), c1: self.c1.neg() }
    }

    /// Doubling.
    pub fn double(&mut self)
        requires
            old(self).wf(),
        ensures
            final(self).wf(),
            cong12(final(self)@, radd12(old(self)@, old(self)@)),
    {
        *self = self.add(self);
    }

    /// In-place negation.
    pub fn negate(&mut self)
        requires
            old(self).wf(),
        ensures
            final(self).wf(),
            cong12(final(self)@, rneg12(old(self)@)),
    {
        *self = self.neg();
    }

    /// In-place addition.
    pub fn add_assign(&mut self, other: &Fp12)
        requires
            old(self).wf(),
            other.wf(),
        ensures
            final(self).wf(),
            cong12(final(self)@, radd12(old(self)@, other@)),
    {
        *self = self.add(other);
    }

    /// In-place subtraction.
    pub fn sub_assign(&mut self, other: &Fp12)
        requires
            old(self).wf(),
            other.wf(),
        ensures
            final(self).wf(),
            cong12(final(self)@, rsub12(old(self)@, other@)),
    {
        *self = self.sub(other);
    }

    /// In-place multiplication.
    pub fn mul_assign(&mut self, other: &Fp12)
        requires
            old(self).wf(),
            other.wf(),
        ensures
            final(self).wf(),
            cong12(final(self)@, rmul12(old(self)@, other@)),
    {
        *self = self.mul(other);
    }

    /// Full degree-2 extension multiplication with w^2 = v, using the
    /// Karatsuba recombination: three Fp6 multiplications.
    pub fn mul(&self, rhs: &Fp12) -> (r: Fp12)
        requires
            self.wf(),
            rhs.wf(),
        ensures
            r.wf(),
            cong12(r@, rmul12(self@, rhs@)),
    {
        let a = self.c0;
        let b = self.c1;
        let c = rhs.c0;
        let d = rhs.c1;
        let aa = a.mul(&c);
        let bb = b.mul(&d);
        let sx = a.add(&b);
        let sy = c.add(&d);
        let m = sx.mul(&sy);
        let md = m.sub(&aa);
        let r1 = md.sub(&bb);
        let nb = bb.mul_by_nonresidue();
        let r0 = aa.add(&nb);
        proof {
            lemma_cong6_nr(bb@, rmul6(b@, d@));
            lemma_cong6_add(aa@, nb@, rmul6(a@, c@), rnr6(rmul6(b@, d@)));
            lemma_cong6_add(a@, b@, a@, b@);
            lemma_cong6_mul(sx@, sy@, radd6(a@, b@), radd6(c@, d@));
            lemma_cong6_sub(m@, aa@, rmul6(radd6(a@, b@), radd6(c@, d@)), rmul6(a@, c@));
            lemma_cong6_sub(
                md@,
                bb@,
                rsub6(rmul6(radd6(a@, b@), radd6(c@, d@)), rmul6(a@, c@)),
                rmul6(b@, d@),
            );
            lemma_karatsuba6(a@, b@, c@, d@);
        }
        Fp12 { c0: r0, c1: r1 }
    }

    /// Dedicated squaring, consistent with `mul` on equal arguments.
    pub fn square(&mut self)
        requires
            old(self).wf(),
        ensures
            final(self).wf(),
            cong12(final(self)@, rmul12(old(self)@, old(self)@)),
    {
        let a = self.c0;
        let b = self.c1;
        let t = a.mul(&b);
        let sa = a.add(&b);
        let nb = b.mul_by_nonresidue();
        let sb = a.add(&nb);
        let m = sa.mul(&sb);
        let nt = t.mul_by_nonresidue();
        let mt = m.sub(&t);
        let c0n = mt.sub(&nt);
        let c1n = t.add(&t);
        proof {
            lemma_cong6_add(a@, nb@, a@, rnr6(b@));
            lemma_cong6_mul(sa@, sb@, radd6(a@, b@), radd6(a@, rnr6(b@)));
            lemma_cong6_sub(m@, t@, rmul6(radd6(a@, b@), radd6(a@, rnr6(b@))), rmul6(a@, b@));
            lemma_cong6_nr(t@, rmul6(a@, b@));
            lemma_cong6_sub(
                mt@,
                nt@,
                rsub6(rmul6(radd6(a@, b@), radd6(a@, rnr6(b@))), rmul6(a@, b@)),
                rnr6(rmul6(a@, b@)),
            );
            lemma_cong6_add(t@, t@, rmul6(a@, b@), rmul6(a@, b@));
            lemma_square6(a@, b@);
        }
        *self = Fp12 { c0: c0n, c1: c1n };
    }

    /// The conjugate: negates the c1 coordinate in place.
    pub fn conjugate(&mut self)
        requires
            old(self).wf(),
        ensures
            final(self).wf(),
            cong12(final(self)@, rconj12(old(self)@)),
    {
        let n = self.c1.neg();
        *self = Fp12 { c0: self.c0, c1: n };
    }

    /// The p^power Frobenius endomorphism: the sub-field Frobenius map on
    /// both coordinates, with every Fp2 sub-coordinate of c1 multiplied by
    /// the table entry for power mod 12.
    pub fn frobenius_map(&mut self, power: usize)
        requires
            old(self).wf(),
        ensures
            final(self).wf(),
            cong12(final(self)@, rfrob12(old(self)@, power as nat)),
    {
        let f0 = self.c0.frobenius_map(power);
        let f1 = self.c1.frobenius_map(power);
        let e = Fp2::frob12_c1_entry(power % 12);
        let g0 = f1.c0.mul(&e);
        let g1 = f1.c1.mul(&e);
        let g2 = f1.c2.mul(&e);
        proof {
            let k = power as nat;
            let fr = rfrob6(old(self)@.c1, k);
            lemma_cong2_mul(f1@.c0, e@, fr.c0, f12c1((k % 12) as int));
            lemma_cong2_mul(f1@.c1, e@, fr.c1, f12c1((k % 12) as int));
            lemma_cong2_mul(f1@.c2, e@, fr.c2, f12c1((k % 12) as int));
        }
        *self = Fp12 { c0: f0, c1: Fp6 { c0: g0, c1: g1, c2: g2 } };
    }

    /// Inversion by the norm method: succeeds exactly when the Fp6 norm
    /// value c0^2 - v c1^2 is invertible, which holds on every nonzero
    /// field element; a returned value multiplies with the argument to one,
    /// and zero has no inverse.
    pub fn inverse(&self) -> (r: Option<Fp12>)
        requires
            self.wf(),
        ensures
            r is Some <==> inv12able(self@),
            r matches Some(b) ==> b.wf() && cong12(rmul12(self@, b@), one12()),
            self@ == zero12() ==> r is None,
    {
        if self.is_zero() {
            proof {
                crate::lemmas::lemma_inv12able_zero();
            }
            return None;
        }
        let a = self.c0;
        let b = self.c1;
        let q0 = a.square();
        let q1 = b.square();
        let nq1 = q1.mul_by_nonresidue();
        let d = q0.sub(&nq1);
        proof {
            lemma_cong6_nr(q1@, rmul6(b@, b@));
            lemma_cong6_sub(q0@, nq1@, rmul6(a@, a@), rnr6(rmul6(b@, b@)));
            lemma_inv6able_cong(d@, inv_d12(self@));
        }
        match d.inverse() {
            None => None,
            Some(t) => {
                let u0 = a.mul(&t);
                let w1 = b.mul(&t);
                let u1 = w1.neg();
                let cand = Fp12 { c0: u0, c1: u1 };
                proof {
                    lemma_cong6_neg(w1@, rmul6(b@, t@));
                    lemma_cong12_mul(
                        self@,
                        cand@,
                        self@,
                        Sp12 { c0: rmul6(a@, t@), c1: rneg6(rmul6(b@, t@)) },
                    );
                    lemma_fp12_inv_product(self@, t@);
                    lemma_cong6_mul(inv_d12(self@), t@, d@, t@);
                    lemma_zero_one_mod();
                }
                Some(cand)
            },
        }
    }

    /// Membership in the cyclotomic subgroup: a^(p^4 - p^2 + 1) == 1.
    /// Zero is refused; on nonzero elements the power condition is decided
    /// through the equivalent identity frobenius^4(a) * a == frobenius^2(a),
    /// avoiding an exponentiation.
    pub fn is_cyc(&self) -> (r: bool)
        requires
            self.wf(),
        ensures
            r == spec_is_cyc(self@),
    {
        if self.is_zero() {
            return false;
        }
        proof {
            lemma_p_pos();
            if cong12(self@, zero12()) {
                lemma_can12_eq(self@, zero12());
            }
        }
        let mut t0 = *self;
        t0.frobenius_map(4);
        let lhs = t0.mul(self);
        let mut t1 = *self;
        t1.frobenius_map(2);
        proof {
            lemma_cong12_mul(t0@, self@, rfrob12(self@, 4), self@);
            lemma_fp12_eq_iff(lhs, t1);
            if cong12(rmul12(rfrob12(self@, 4), self@), rfrob12(self@, 2)) {
                lemma_can12_eq(lhs@, t1@);
            }
        }
        lhs == t1
    }

    /// Coordinate-drop compression: keeps the four Fp2 sub-coordinates
    /// g4 = c0.c1, g3 = c0.c2, g2 = c1.c0, g5 = c1.c2 of a cyclotomic
    /// element and drops the recoverable g0 = c0.c0 and g1 = c1.c1.
    /// Refuses an element outside the cyclotomic subgroup.
    pub fn compress(&self) -> (r: Option<Fp12Compressed>)
        requires
            self.wf(),
        ensures
            r is Some <==> spec_is_cyc(self@),
            r matches Some(c) ==> c == (Fp12Compressed {
                g4: self.c0.c1,
                g3: self.c0.c2,
                g2: self.c1.c0,
                g5: self.c1.c2,
            }),
    {
        if !self.is_cyc() {
            return None;
        }
        Some(
            Fp12Compressed {
                g4: self.c0.c1,
                g3: self.c0.c2,
                g2: self.c1.c0,
                g5: self.c1.c2,
            },
        )
    }

    /// Torus-based compression: represents a cyclotomic element by the
    /// single Fp6 value (c0 + 1) / c1, where 1 is added only to the
    /// base-field real part.  Refuses an element outside the cyclotomic
    /// subgroup, or one whose c1 coordinate the norm method cannot invert.
    pub fn compress2(&self) -> (r: Option<Fp12Compressed2>)
        requires
            self.wf(),
        ensures
            r is Some <==> spec_is_cyc(self@) && inv6able(self@.c1),
            r matches Some(c) ==> c.b.wf() && cong6(
                rmul6(c.b@, self@.c1),
                radd6(self@.c0, one6()),
            ),
    {
        if !self.is_cyc() {
            return None;
        }
        match self.c1.inverse() {
            None => None,
            Some(i) => {
                let one = Fp2::one();
                let cp = Fp6 { c0: self.c0.c0.add(&one), c1: self.c0.c1, c2: self.c0.c2 };
                let b = cp.mul(&i);
                proof {
                    lemma_cong2_add(self@.c0.c0, one2(), self@.c0.c0, one2());
                    lemma_cong6_mul(b@, self@.c1, rmul6(cp@, i@), self@.c1);
                    lemma_mul_inv_cancel6(cp@, i@, self@.c1);
                }
                Some(Fp12Compressed2 { b })
            },
        }
    }
}


impl Default for Fp12 {
    /// The zero element.
    fn default() -> (r: Fp12)
        ensures
            r.wf(),
            r@ == zero12(),
    {
        Fp12::zero()
    }
}

/// The coordinate-drop compressed form: the four kept Fp2 sub-coordinates.
#[derive(Clone, Copy, PartialEq, Eq, Structural, Debug)]
pub struct Fp12Compressed {
    pub g4: Fp2,
    pub g3: Fp2,
    pub g2: Fp2,
    pub g5: Fp2,
}

impl Fp12Compressed {
    pub open spec fn wf(&self) -> bool {
        self.g4.wf() && self.g3.wf() && self.g2.wf() && self.g5.wf()
    }

    /// Back-cycle reconstruction: places the four kept coordinates in their
    /// slots, recovers g1 = (3 g4^2 - 2 g3 + (u+1) g5^2) / (4 g2) and
    /// g0 = (u+1)(2 g1^2 - 3 g3 g4 + g2 g5) + 1, and validates that the
    /// rebuilt element lies in the cyclotomic subgroup.  Refuses a form
    /// whose 4 g2 denominator the norm method cannot invert, and one whose
    /// reconstruction is not cyclotomic.
    #[verifier::rlimit(100)]
    #[verifier::spinoff_prover]
    pub fn uncompress(self) -> (r: Option<Fp12>)
        requires
            self.wf(),
        ensures
            r is Some <==> inv2able(back_g1_den(self.g2@)) && spec_is_cyc(back_cycle(
                self.g2@,
                self.g3@,
                self.g4@,
                self.g5@,
            )),
            r matches Some(b) ==> {
                &&& cong12(b@, back_cycle(self.g2@, self.g3@, self.g4@, self.g5@))
                &&& b.wf()
                &&& spec_is_cyc(b@)
                &&& b.c0.c1 == self.g4
                &&& b.c0.c2 == self.g3
                &&& b.c1.c0 == self.g2
                &&& b.c1.c2 == self.g5
                &&& cong2(
                    rmul2(b@.c1.c1, back_g1_den(self.g2@)),
                    back_g1_num(self.g3@, self.g4@, self.g5@),
                )
                &&& cong2(b@.c0.c0, back_g0(b@.c1.c1, self.g2@, self.g3@, self.g4@, self.g5@))
            },
    {
        let g2 = self.g2;
        let g3 = self.g3;
        let g4 = self.g4;
        let g5 = self.g5;
        let t0 = g4.square();
        let s1 = t0.sub(&g3);
        let s2 = s1.double();
        let t1 = s2.add(&t0);
        let t2 = g5.square();
        let n2 = t2.mul_by_nonresidue();
        let num = n2.add(&t1);
        let d1 = g2.double();
        let den = d1.double();
        proof {
            lemma_cong2_sub(t0@, g3@, rmul2(g4@, g4@), g3@);
            lemma_cong2_add(s1@, s1@, rsub2(rmul2(g4@, g4@), g3@), rsub2(rmul2(g4@, g4@), g3@));
            lemma_cong2_add(
                s2@,
                t0@,
                radd2(rsub2(rmul2(g4@, g4@), g3@), rsub2(rmul2(g4@, g4@), g3@)),
                rmul2(g4@, g4@),
            );
            lemma_cong2_nr(t2@, rmul2(g5@, g5@));
            lemma_cong2_add(
                n2@,
                t1@,
                rnr2(rmul2(g5@, g5@)),
                radd2(
                    radd2(rsub2(rmul2(g4@, g4@), g3@), rsub2(rmul2(g4@, g4@), g3@)),
                    rmul2(g4@, g4@),
                ),
            );
            lemma_cong2_add(d1@, d1@, radd2(g2@, g2@), radd2(g2@, g2@));
            lemma_inv2able_cong(den@, back_g1_den(self.g2@));
        }
        match den.inverse() {
            None => None,
            Some(inv) => {
                let g1 = num.mul(&inv);
                let ta = g3.mul(&g4);
                let sq = g1.square();
                let u1 = sq.sub(&ta);
                let u2 = u1.double();
                let u3 = u2.sub(&ta);
                let tc = g2.mul(&g5);
                let u4 = u3.add(&tc);
                let u5 = u4.mul_by_nonresidue();
                let one = Fp2::one();
                let g0 = u5.add(&one);
                let cand = Fp12 {
                    c0: Fp6 { c0: g0, c1: g4, c2: g3 },
                    c1: Fp6 { c0: g2, c1: g1, c2: g5 },
                };
                proof {
                    let nu = back_g1_num(self.g3@, self.g4@, self.g5@);
                    let de = back_g1_den(self.g2@);
                    crate::lemmas::lemma_div_mul_cancel(g1@, num@, inv@, den@, nu, de);
                    let x1 = rsub2(rmul2(g1@, g1@), rmul2(g3@, g4@));
                    lemma_cong2_sub(sq@, ta@, rmul2(g1@, g1@), rmul2(g3@, g4@));
                    lemma_cong2_add(u1@, u1@, x1, x1);
                    lemma_cong2_sub(u2@, ta@, radd2(x1, x1), rmul2(g3@, g4@));
                    lemma_cong2_add(u3@, tc@, rsub2(radd2(x1, x1), rmul2(g3@, g4@)), rmul2(
                        g2@,
                        g5@,
                    ));
                    lemma_cong2_nr(u4@, radd2(rsub2(radd2(x1, x1), rmul2(g3@, g4@)), rmul2(
                        g2@,
                        g5@,
                    )));
                    lemma_cong2_add(u5@, one2(), rnr2(radd2(rsub2(radd2(x1, x1), rmul2(
                        g3@,
                        g4@,
                    )), rmul2(g2@, g5@))), one2());
                    lemma_cong2_mul(de, inv@, den@, inv@);
                    lemma_sinv2_value(de, inv@);
                    let g1s = rmul2(nu, sinv2(de));
                    lemma_cong2_mul(num@, inv@, nu, sinv2(de));
                    lemma_back_g0_cong(g1@, g1s, self.g2@, self.g3@, self.g4@, self.g5@);
                    assert(cong12(cand@, back_cycle(self.g2@, self.g3@, self.g4@, self.g5@)));
                    lemma_spec_is_cyc_cong(
                        cand@,
                        back_cycle(self.g2@, self.g3@, self.g4@, self.g5@),
                    );
                }
                if cand.is_cyc() {
                    proof {
                        assert(cand.wf());
                        assert(spec_is_cyc(cand@));
                        assert(cand.c0.c1 == self.g4);
                        assert(cand.c0.c2 == self.g3);
                        assert(cand.c1.c0 == self.g2);
                        assert(cand.c1.c2 == self.g5);
                        assert(cong2(
                            rmul2(cand@.c1.c1, back_g1_den(self.g2@)),
                            back_g1_num(self.g3@, self.g4@, self.g5@),
                        ));
                        assert(cong2(
                            cand@.c0.c0,
                            back_g0(cand@.c1.c1, self.g2@, self.g3@, self.g4@, self.g5@),
                        ));
                    }
                    Some(cand)
                } else {
                    None
                }
            },
        }
    }
}

/// The torus-based compressed form: a single Fp6 value.
#[derive(Clone, Copy, PartialEq, Eq, Structural, Debug)]
pub struct Fp12Compressed2 {
    pub b: Fp6,
}

impl Fp12Compressed2 {
    pub open spec fn wf(&self) -> bool {
        self.b.wf()
    }

    /// Torus decompression: computes (b + w) / (b - w) and validates that
    /// the result lies in the cyclotomic subgroup.  Refuses a form for
    /// which the norm method cannot invert b - w, and one whose
    /// reconstruction is not cyclotomic.
    pub fn uncompress(self) -> (r: Option<Fp12>)
        requires
            self.wf(),
        ensures
            r is Some <==> inv12able((Sp12 { c0: self.b@, c1: rneg6(one6()) }))
                && spec_is_cyc(torus_rec(self.b@)),
            r matches Some(c) ==> {
                &&& c.wf()
                &&& spec_is_cyc(c@)
                &&& cong12(c@, torus_rec(self.b@))
            },
    {
        let o = Fp6::one();
        let negone = o.neg();
        let d = Fp12 { c0: self.b, c1: negone };
        proof {
            lemma_inv12able_cong(d@, Sp12 { c0: self.b@, c1: rneg6(one6()) });
        }
        match d.inverse() {
            None => None,
            Some(t) => {
                let nume = Fp12 { c0: self.b, c1: o };
                let c = nume.mul(&t);
                proof {
                    let dv = Sp12 { c0: self.b@, c1: rneg6(one6()) };
                    lemma_cong12_mul(dv, t@, d@, t@);
                    lemma_sinv12_value(dv, t@);
                    lemma_cong12_mul(
                        Sp12 { c0: self.b@, c1: one6() },
                        t@,
                        Sp12 { c0: self.b@, c1: one6() },
                        sinv12(dv),
                    );
                    assert(cong12(c@, torus_rec(self.b@)));
                    lemma_spec_is_cyc_cong(c@, torus_rec(self.b@));
                }
                if c.is_cyc() {
                    Some(c)
                } else {
                    None
                }
            },
        }
    }
}

} // verus!
