//! Field laws of the Fp12 model, stated over the raw operations that the
//! executable contracts use.
use vstd::prelude::*;
use crate::model::{
    back_cycle, back_g0, back_g1_den, back_g1_num, cong12, cong2, cong6, congi, f12c1, f6c1, f6c2,
    one12, one2, one6, p, radd12, radd6, rconj12, rfrob12, rfrob6, rmul12, rmul2, rmul6, rneg12,
    rneg6, rnr6, rscale6, s2, sinv2, spec_is_cyc, zero12, zero6, Sp12, Sp2, Sp6,
};
use crate::lemmas::{
    lemma_back_g0_cong, lemma_cong12_mul, lemma_cong2_mul, lemma_cong6_add, lemma_cong6_mul,
    lemma_rmul2_assoc, lemma_rmul6_one,
};
use crate::ring6::lemma_sinv2_value;
use crate::ring6::{
    lemma_cancel6, lemma_rmul12_assoc, lemma_rmul12_comm, lemma_rmul6_assoc, lemma_rmul6_comm,
    lemma_rmul6_distrib, lemma_rmul6_neg, lemma_rnr6_mul,
};

verus! {

/// Adding zero changes nothing: a + 0 == a.
pub proof fn lemma_add_zero(x: Sp12)
    ensures
        radd12(x, zero12()) == x,
{
}

/// Every element has an additive inverse: a + (-a) == 0.
pub proof fn lemma_add_neg(x: Sp12)
    ensures
        radd12(x, rneg12(x)) == zero12(),
{
}

/// One is the multiplicative identity: a * 1 == a.
pub proof fn lemma_mul_one(x: Sp12)
    ensures
        rmul12(x, one12()) == x,
{
    lemma_rmul6_one(x.c0);
    lemma_rmul6_one(x.c1);
    assert(rmul6(x.c0, zero6()) == zero6());
    assert(rmul6(x.c1, zero6()) == zero6());
}

/// Multiplication is commutative: a * b == b * a.
pub proof fn lemma_mul_comm(x: Sp12, y: Sp12)
    ensures
        rmul12(x, y) == rmul12(y, x),
{
    lemma_rmul12_comm(x, y);
}

/// Multiplication is associative: (a * b) * c == a * (b * c).
pub proof fn lemma_mul_assoc(x: Sp12, y: Sp12, z: Sp12)
    ensures
        rmul12(rmul12(x, y), z) == rmul12(x, rmul12(y, z)),
{
    lemma_rmul12_assoc(x, y, z);
}

/// The Frobenius endomorphism has order 12 over this tower:
/// frobenius^12 is the identity map.
pub proof fn lemma_frobenius_order(x: Sp12)
    ensures
        rfrob12(x, 12) == x,
{
    assert(f6c1(0) == one2());
    assert(f6c2(0) == one2());
    assert(f12c1(0) == one2());
    assert(forall|c: Sp2| #[trigger] rmul2(c, one2()) == c);
    assert(rfrob6(x.c0, 12) == x.c0);
    assert(rfrob6(x.c1, 12) == x.c1);
    assert(rscale6(x.c1, one2()) == x.c1);
}

/// A congruence step for the p^6 power: multiplying by p - 1 negates.
proof fn lemma_mul_p_minus_one(c: int)
    ensures
        congi(c * (p() - 1), -c),
{
    vstd::arithmetic::mul::lemma_mul_is_distributive_sub(c, p(), 1);
    vstd::arithmetic::mul::lemma_mul_is_commutative(c, p());
    crate::lemmas::lemma_p_pos();
    vstd::arithmetic::div_mod::lemma_mod_multiples_vanish(c, -c, p());
}

/// The p^6 Frobenius power is the conjugation: it fixes c0 and negates c1.
pub proof fn lemma_frobenius6_is_conjugate(x: Sp12)
    ensures
        cong12(rfrob12(x, 6), rconj12(x)),
{
    assert(forall|c: Sp2| #[trigger] rmul2(c, one2()) == c);
    assert(rfrob6(x.c0, 6) == x.c0);
    assert(rfrob6(x.c1, 6) == x.c1);
    assert(f12c1(6) == s2(p() - 1, 0));
    lemma_mul_p_minus_one(x.c1.c0.c0);
    lemma_mul_p_minus_one(x.c1.c0.c1);
    lemma_mul_p_minus_one(x.c1.c1.c0);
    lemma_mul_p_minus_one(x.c1.c1.c1);
    lemma_mul_p_minus_one(x.c1.c2.c0);
    lemma_mul_p_minus_one(x.c1.c2.c1);
}

/// The multiplicative identity lies in the cyclotomic subgroup.
pub proof fn lemma_one_is_cyc()
    ensures
        spec_is_cyc(one12()),
{
    crate::lemmas::lemma_zero_one_mod();
    assert(!cong12(one12(), zero12()));
    assert(rfrob12(one12(), 4) == one12());
    assert(rfrob12(one12(), 2) == one12());
    assert(rmul12(one12(), one12()) == one12());
}

/// The multiplicative inverse is unique: two inverses of one element are
/// congruent.
pub proof fn lemma_inverse_unique(a: Sp12, b: Sp12, c: Sp12)
    requires
        cong12(rmul12(a, b), one12()),
        cong12(rmul12(a, c), one12()),
    ensures
        cong12(b, c),
{
    lemma_mul_one(b);
    lemma_cong12_mul(b, rmul12(a, c), b, one12());
    lemma_rmul12_assoc(b, a, c);
    lemma_rmul12_comm(b, a);
    lemma_cong12_mul(rmul12(a, b), c, one12(), c);
    lemma_rmul12_comm(one12(), c);
    lemma_mul_one(c);
}

/// Back-cycle reconstruction recovers every element whose dropped
/// coordinates satisfy the reconstruction relations: if w inverts the 4*g2
/// denominator, the stored g1 solves g1 * (4*g2) == 3*g4^2 - 2*g3 + (u+1)*g5^2,
/// and the stored g0 equals the derived formula, then rebuilding from the
/// four kept coordinates gives the element back.  Genuine cyclotomic
/// elements satisfy these relations; that fact is the subgroup identity
/// behind the scheme and is not derived here.
pub proof fn lemma_back_cycle_recovers(a: Sp12, w: Sp2)
    requires
        cong2(rmul2(back_g1_den(a.c1.c0), w), one2()),
        cong2(
            rmul2(a.c1.c1, back_g1_den(a.c1.c0)),
            back_g1_num(a.c0.c2, a.c0.c1, a.c1.c2),
        ),
        cong2(a.c0.c0, back_g0(a.c1.c1, a.c1.c0, a.c0.c2, a.c0.c1, a.c1.c2)),
    ensures
        cong12(back_cycle(a.c1.c0, a.c0.c2, a.c0.c1, a.c1.c2), a),
{
    let g1 = a.c1.c1;
    let de = back_g1_den(a.c1.c0);
    let nu = back_g1_num(a.c0.c2, a.c0.c1, a.c1.c2);
    lemma_sinv2_value(de, w);
    lemma_cong2_mul(nu, w, rmul2(g1, de), w);
    lemma_rmul2_assoc(g1, de, w);
    lemma_cong2_mul(g1, rmul2(de, w), g1, one2());
    assert(rmul2(g1, one2()) == g1);
    lemma_cong2_mul(nu, sinv2(de), nu, w);
    let g1s = rmul2(nu, sinv2(de));
    lemma_back_g0_cong(g1s, g1, a.c1.c0, a.c0.c2, a.c0.c1, a.c1.c2);
}

/// Torus decompression inverts torus compression on every unitary element
/// with an invertible c1 coordinate: if b * a.c1 is congruent to a.c0 + 1
/// (the compressed form of a), a * conj(a) is congruent to one (every
/// cyclotomic element is such, since conj is the p^6 Frobenius), j inverts
/// a.c1, and t inverts b - w, then (b + w) * t recovers a.
#[verifier::rlimit(100)]
#[verifier::spinoff_prover]
pub proof fn lemma_torus_round_trip(a: Sp12, b: Sp6, t: Sp12, j: Sp6)
    requires
        cong6(rmul6(b, a.c1), radd6(a.c0, one6())),
        cong12(rmul12(a, rconj12(a)), one12()),
        cong6(rmul6(a.c1, j), one6()),
        cong12(rmul12((Sp12 { c0: b, c1: rneg6(one6()) }), t), one12()),
    ensures
        cong12(rmul12((Sp12 { c0: b, c1: one6() }), t), a),
{
    let negone = rneg6(one6());
    let d = Sp12 { c0: b, c1: negone };
    let n = Sp12 { c0: b, c1: one6() };
    let a0 = a.c0;
    let a1 = a.c1;
    lemma_rmul6_neg(a0, one6());
    lemma_rmul6_neg(a1, one6());
    lemma_rmul6_neg(a1, a1);
    lemma_rmul6_one(a0);
    lemma_rmul6_one(a1);
    lemma_rmul6_comm(a1, b);
    lemma_cong6_add(rneg6(a0), rmul6(b, a1), rneg6(a0), radd6(a0, one6()));
    assert(radd6(rneg6(a0), radd6(a0, one6())) == one6());
    assert(cong6(rmul12(a, d).c1, one6()));
    let c0ad = radd6(rmul6(a0, b), rnr6(rneg6(a1)));
    assert(rmul12(a, d).c0 == c0ad);
    lemma_rmul6_distrib(a1, rmul6(a0, b), rnr6(rneg6(a1)));
    lemma_rmul6_assoc(a0, b, a1);
    lemma_cong6_mul(a0, rmul6(b, a1), a0, radd6(a0, one6()));
    lemma_rmul6_distrib(a0, a0, one6());
    lemma_rnr6_mul(a1, rneg6(a1));
    assert(rmul6(c0ad, a1) == radd6(rmul6(a0, rmul6(b, a1)), rnr6(rneg6(rmul6(a1, a1)))));
    lemma_cong6_add(
        rmul6(a0, rmul6(b, a1)),
        rnr6(rneg6(rmul6(a1, a1))),
        rmul6(a0, radd6(a0, one6())),
        rnr6(rneg6(rmul6(a1, a1))),
    );
    assert(cong6(rmul12(a, rconj12(a)).c0, one6()));
    assert(rmul12(a, rconj12(a)).c0 == radd6(rmul6(a0, a0), rnr6(rneg6(rmul6(a1, a1)))));
    lemma_cong6_add(radd6(rmul6(a0, a0), rnr6(rneg6(rmul6(a1, a1)))), a0, one6(), a0);
    assert(rmul6(a0, radd6(a0, one6())) == radd6(rmul6(a0, a0), a0));
    assert(cong6(rmul6(c0ad, a1), rmul6(b, a1)));
    lemma_cancel6(c0ad, b, a1, j);
    assert(cong12(rmul12(a, d), n));
    lemma_cong12_mul(n, t, rmul12(a, d), t);
    lemma_rmul12_assoc(a, d, t);
    lemma_cong12_mul(a, rmul12(d, t), a, one12());
    lemma_mul_one(a);
}

} // verus!
