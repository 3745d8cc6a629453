//! Congruence and ring lemmas for the tower model.
//!
//! The first group shows that congruence modulo p is preserved by every raw
//! operation, so an executable result that is congruent to a raw formula can
//! be substituted for it inside any larger raw formula.  The second group
//! holds ring identities of the raw operations themselves; these are exact
//! integer identities, free of any modular reduction.
use vstd::prelude::*;
use crate::model::{
    adj6, b64, back_g0, can12, can2, can6, cani, cong12, cong2, cong6, congi, f12c1, f6c1, f6c2,
    inv2able, inv6able, inv12able, inv_d12, inv_t6, lv6, one2, one6, p, radd2, radd6, rfrob12,
    rfrob2, rfrob6, rmul12, rmul2, rmul6, rneg2, rneg6, rnr2, rnr6, rsub2, rsub6, spec_is_cyc, zero12, zero2, zero6, Sp12, Sp2,
    Sp6,
};

verus! {

pub proof fn lemma_p_pos()
    ensures
        p() > 1,
{
    broadcast use vstd::arithmetic::mul::lemma_mul_strictly_positive;

}

pub proof fn lemma_congi_add(a: int, b: int, a2: int, b2: int)
    requires
        congi(a, a2),
        congi(b, b2),
    ensures
        congi(a + b, a2 + b2),
{
    lemma_p_pos();
    vstd::arithmetic::div_mod::lemma_add_mod_noop(a, b, p());
    vstd::arithmetic::div_mod::lemma_add_mod_noop(a2, b2, p());
}

pub proof fn lemma_congi_sub(a: int, b: int, a2: int, b2: int)
    requires
        congi(a, a2),
        congi(b, b2),
    ensures
        congi(a - b, a2 - b2),
{
    lemma_p_pos();
    vstd::arithmetic::div_mod::lemma_sub_mod_noop(a, b, p());
    vstd::arithmetic::div_mod::lemma_sub_mod_noop(a2, b2, p());
}

pub proof fn lemma_congi_mul(a: int, b: int, a2: int, b2: int)
    requires
        congi(a, a2),
        congi(b, b2),
    ensures
        congi(a * b, a2 * b2),
{
    lemma_p_pos();
    vstd::arithmetic::div_mod::lemma_mul_mod_noop_general(a, b, p());
    vstd::arithmetic::div_mod::lemma_mul_mod_noop_general(a2, b2, p());
}

/// Two canonical representatives of the same residue class are equal.
pub proof fn lemma_cani_eq(a: int, b: int)
    requires
        cani(a),
        cani(b),
        congi(a, b),
    ensures
        a == b,
{
    lemma_p_pos();
    vstd::arithmetic::div_mod::lemma_small_mod(a as nat, p() as nat);
    vstd::arithmetic::div_mod::lemma_small_mod(b as nat, p() as nat);
}

pub proof fn lemma_can2_eq(a: Sp2, b: Sp2)
    requires
        can2(a),
        can2(b),
        cong2(a, b),
    ensures
        a == b,
{
    lemma_cani_eq(a.c0, b.c0);
    lemma_cani_eq(a.c1, b.c1);
}

pub proof fn lemma_can6_eq(a: Sp6, b: Sp6)
    requires
        can6(a),
        can6(b),
        cong6(a, b),
    ensures
        a == b,
{
    lemma_can2_eq(a.c0, b.c0);
    lemma_can2_eq(a.c1, b.c1);
    lemma_can2_eq(a.c2, b.c2);
}

pub proof fn lemma_can12_eq(a: Sp12, b: Sp12)
    requires
        can12(a),
        can12(b),
        cong12(a, b),
    ensures
        a == b,
{
    lemma_can6_eq(a.c0, b.c0);
    lemma_can6_eq(a.c1, b.c1);
}

pub proof fn lemma_cong2_add(x: Sp2, y: Sp2, x2: Sp2, y2: Sp2)
    requires
        cong2(x, x2),
        cong2(y, y2),
    ensures
        cong2(radd2(x, y), radd2(x2, y2)),
{
    lemma_congi_add(x.c0, y.c0, x2.c0, y2.c0);
    lemma_congi_add(x.c1, y.c1, x2.c1, y2.c1);
}

pub proof fn lemma_cong2_sub(x: Sp2, y: Sp2, x2: Sp2, y2: Sp2)
    requires
        cong2(x, x2),
        cong2(y, y2),
    ensures
        cong2(rsub2(x, y), rsub2(x2, y2)),
{
    lemma_congi_sub(x.c0, y.c0, x2.c0, y2.c0);
    lemma_congi_sub(x.c1, y.c1, x2.c1, y2.c1);
}

pub proof fn lemma_cong2_neg(x: Sp2, x2: Sp2)
    requires
        cong2(x, x2),
    ensures
        cong2(rneg2(x), rneg2(x2)),
{
    lemma_congi_sub(0, x.c0, 0, x2.c0);
    lemma_congi_sub(0, x.c1, 0, x2.c1);
}

pub proof fn lemma_cong2_mul(x: Sp2, y: Sp2, x2: Sp2, y2: Sp2)
    requires
        cong2(x, x2),
        cong2(y, y2),
    ensures
        cong2(rmul2(x, y), rmul2(x2, y2)),
{
    lemma_congi_mul(x.c0, y.c0, x2.c0, y2.c0);
    lemma_congi_mul(x.c1, y.c1, x2.c1, y2.c1);
    lemma_congi_mul(x.c0, y.c1, x2.c0, y2.c1);
    lemma_congi_mul(x.c1, y.c0, x2.c1, y2.c0);
    lemma_congi_sub(x.c0 * y.c0, x.c1 * y.c1, x2.c0 * y2.c0, x2.c1 * y2.c1);
    lemma_congi_add(x.c0 * y.c1, x.c1 * y.c0, x2.c0 * y2.c1, x2.c1 * y2.c0);
}

pub proof fn lemma_cong2_nr(x: Sp2, x2: Sp2)
    requires
        cong2(x, x2),
    ensures
        cong2(rnr2(x), rnr2(x2)),
{
    lemma_congi_sub(x.c0, x.c1, x2.c0, x2.c1);
    lemma_congi_add(x.c0, x.c1, x2.c0, x2.c1);
}

pub proof fn lemma_cong6_add(x: Sp6, y: Sp6, x2: Sp6, y2: Sp6)
    requires
        cong6(x, x2),
        cong6(y, y2),
    ensures
        cong6(radd6(x, y), radd6(x2, y2)),
{
    lemma_cong2_add(x.c0, y.c0, x2.c0, y2.c0);
    lemma_cong2_add(x.c1, y.c1, x2.c1, y2.c1);
    lemma_cong2_add(x.c2, y.c2, x2.c2, y2.c2);
}

pub proof fn lemma_cong6_sub(x: Sp6, y: Sp6, x2: Sp6, y2: Sp6)
    requires
        cong6(x, x2),
        cong6(y, y2),
    ensures
        cong6(rsub6(x, y), rsub6(x2, y2)),
{
    lemma_cong2_sub(x.c0, y.c0, x2.c0, y2.c0);
    lemma_cong2_sub(x.c1, y.c1, x2.c1, y2.c1);
    lemma_cong2_sub(x.c2, y.c2, x2.c2, y2.c2);
}

pub proof fn lemma_cong6_mul(x: Sp6, y: Sp6, x2: Sp6, y2: Sp6)
    requires
        cong6(x, x2),
        cong6(y, y2),
    ensures
        cong6(rmul6(x, y), rmul6(x2, y2)),
{
    lemma_cong2_mul(x.c0, y.c0, x2.c0, y2.c0);
    lemma_cong2_mul(x.c1, y.c2, x2.c1, y2.c2);
    lemma_cong2_mul(x.c2, y.c1, x2.c2, y2.c1);
    lemma_cong2_add(rmul2(x.c1, y.c2), rmul2(x.c2, y.c1), rmul2(x2.c1, y2.c2), rmul2(x2.c2, y2.c1));
    lemma_cong2_nr(
        radd2(rmul2(x.c1, y.c2), rmul2(x.c2, y.c1)),
        radd2(rmul2(x2.c1, y2.c2), rmul2(x2.c2, y2.c1)),
    );
    lemma_cong2_add(
        rmul2(x.c0, y.c0),
        rnr2(radd2(rmul2(x.c1, y.c2), rmul2(x.c2, y.c1))),
        rmul2(x2.c0, y2.c0),
        rnr2(radd2(rmul2(x2.c1, y2.c2), rmul2(x2.c2, y2.c1))),
    );
    lemma_cong2_mul(x.c0, y.c1, x2.c0, y2.c1);
    lemma_cong2_mul(x.c1, y.c0, x2.c1, y2.c0);
    lemma_cong2_mul(x.c2, y.c2, x2.c2, y2.c2);
    lemma_cong2_add(rmul2(x.c0, y.c1), rmul2(x.c1, y.c0), rmul2(x2.c0, y2.c1), rmul2(x2.c1, y2.c0));
    lemma_cong2_nr(rmul2(x.c2, y.c2), rmul2(x2.c2, y2.c2));
    lemma_cong2_add(
        radd2(rmul2(x.c0, y.c1), rmul2(x.c1, y.c0)),
        rnr2(rmul2(x.c2, y.c2)),
        radd2(rmul2(x2.c0, y2.c1), rmul2(x2.c1, y2.c0)),
        rnr2(rmul2(x2.c2, y2.c2)),
    );
    lemma_cong2_mul(x.c0, y.c2, x2.c0, y2.c2);
    lemma_cong2_mul(x.c2, y.c0, x2.c2, y2.c0);
    lemma_cong2_mul(x.c1, y.c1, x2.c1, y2.c1);
    lemma_cong2_add(rmul2(x.c0, y.c2), rmul2(x.c2, y.c0), rmul2(x2.c0, y2.c2), rmul2(x2.c2, y2.c0));
    lemma_cong2_add(
        radd2(rmul2(x.c0, y.c2), rmul2(x.c2, y.c0)),
        rmul2(x.c1, y.c1),
        radd2(rmul2(x2.c0, y2.c2), rmul2(x2.c2, y2.c0)),
        rmul2(x2.c1, y2.c1),
    );
}

pub proof fn lemma_cong6_nr(x: Sp6, x2: Sp6)
    requires
        cong6(x, x2),
    ensures
        cong6(rnr6(x), rnr6(x2)),
{
    lemma_cong2_nr(x.c2, x2.c2);
}

pub proof fn lemma_cong12_mul(x: Sp12, y: Sp12, x2: Sp12, y2: Sp12)
    requires
        cong12(x, x2),
        cong12(y, y2),
    ensures
        cong12(rmul12(x, y), rmul12(x2, y2)),
{
    lemma_cong6_mul(x.c0, y.c0, x2.c0, y2.c0);
    lemma_cong6_mul(x.c1, y.c1, x2.c1, y2.c1);
    lemma_cong6_nr(rmul6(x.c1, y.c1), rmul6(x2.c1, y2.c1));
    lemma_cong6_add(
        rmul6(x.c0, y.c0),
        rnr6(rmul6(x.c1, y.c1)),
        rmul6(x2.c0, y2.c0),
        rnr6(rmul6(x2.c1, y2.c1)),
    );
    lemma_cong6_mul(x.c0, y.c1, x2.c0, y2.c1);
    lemma_cong6_mul(x.c1, y.c0, x2.c1, y2.c0);
    lemma_cong6_add(
        rmul6(x.c0, y.c1),
        rmul6(x.c1, y.c0),
        rmul6(x2.c0, y2.c1),
        rmul6(x2.c1, y2.c0),
    );
}

pub proof fn lemma_rmul2_comm(x: Sp2, y: Sp2)
    ensures
        rmul2(x, y) == rmul2(y, x),
{
    broadcast use vstd::arithmetic::mul::lemma_mul_is_commutative;

}

pub proof fn lemma_rmul2_distrib(x: Sp2, y: Sp2, z: Sp2)
    ensures
        rmul2(x, radd2(y, z)) == radd2(rmul2(x, y), rmul2(x, z)),
        rmul2(radd2(y, z), x) == radd2(rmul2(y, x), rmul2(z, x)),
    {
    broadcast use vstd::arithmetic::mul::lemma_mul_is_distributive_add,
        vstd::arithmetic::mul::lemma_mul_is_distributive_add_other_way;

}

pub proof fn lemma_rnr2_mul(x: Sp2, y: Sp2)
    ensures
        rmul2(rnr2(x), y) == rnr2(rmul2(x, y)),
        rmul2(x, rnr2(y)) == rnr2(rmul2(x, y)),
{
    broadcast use vstd::arithmetic::mul::lemma_mul_is_commutative,
        vstd::arithmetic::mul::lemma_mul_is_distributive_add,
        vstd::arithmetic::mul::lemma_mul_is_distributive_add_other_way,
        vstd::arithmetic::mul::lemma_mul_is_distributive_sub,
        vstd::arithmetic::mul::lemma_mul_is_distributive_sub_other_way;

}

/// Multiplication by one at each level of the tower.
pub proof fn lemma_rmul6_one(x: Sp6)
    ensures
        rmul6(x, one6()) == x,
{
}

pub proof fn lemma_rnr6_add(x: Sp6, y: Sp6)
    ensures
        rnr6(radd6(x, y)) == radd6(rnr6(x), rnr6(y)),
{
}


pub proof fn lemma_rmul2_assoc(x: Sp2, y: Sp2, z: Sp2)
    ensures
        rmul2(rmul2(x, y), z) == rmul2(x, rmul2(y, z)),
{
    let (a, b) = (x.c0, x.c1);
    let (c, d) = (y.c0, y.c1);
    let (e, f) = (z.c0, z.c1);
    vstd::arithmetic::mul::lemma_mul_is_distributive_sub_other_way(e, a * c, b * d);
    vstd::arithmetic::mul::lemma_mul_is_distributive_add_other_way(f, a * d, b * c);
    vstd::arithmetic::mul::lemma_mul_is_distributive_sub_other_way(f, a * c, b * d);
    vstd::arithmetic::mul::lemma_mul_is_distributive_add_other_way(e, a * d, b * c);
    vstd::arithmetic::mul::lemma_mul_is_distributive_sub(a, c * e, d * f);
    vstd::arithmetic::mul::lemma_mul_is_distributive_add(b, c * f, d * e);
    vstd::arithmetic::mul::lemma_mul_is_distributive_add(a, c * f, d * e);
    vstd::arithmetic::mul::lemma_mul_is_distributive_sub(b, c * e, d * f);
    vstd::arithmetic::mul::lemma_mul_is_associative(a, c, e);
    vstd::arithmetic::mul::lemma_mul_is_associative(a, c, f);
    vstd::arithmetic::mul::lemma_mul_is_associative(a, d, e);
    vstd::arithmetic::mul::lemma_mul_is_associative(a, d, f);
    vstd::arithmetic::mul::lemma_mul_is_associative(b, c, e);
    vstd::arithmetic::mul::lemma_mul_is_associative(b, c, f);
    vstd::arithmetic::mul::lemma_mul_is_associative(b, d, e);
    vstd::arithmetic::mul::lemma_mul_is_associative(b, d, f);
}

/// Six bounded limbs denote each integer in at most one way.
pub proof fn lemma_lv6_inj(
    a0: int, a1: int, a2: int, a3: int, a4: int, a5: int,
    b0: int, b1: int, b2: int, b3: int, b4: int, b5: int,
)
    requires
        0 <= a0 < b64(), 0 <= a1 < b64(), 0 <= a2 < b64(),
        0 <= a3 < b64(), 0 <= a4 < b64(), 0 <= a5 < b64(),
        0 <= b0 < b64(), 0 <= b1 < b64(), 0 <= b2 < b64(),
        0 <= b3 < b64(), 0 <= b4 < b64(), 0 <= b5 < b64(),
        lv6(a0, a1, a2, a3, a4, a5) == lv6(b0, b1, b2, b3, b4, b5),
    ensures
        a0 == b0 && a1 == b1 && a2 == b2 && a3 == b3 && a4 == b4 && a5 == b5,
{
    let x = lv6(a0, a1, a2, a3, a4, a5);
    let qa1 = (((a5 * b64() + a4) * b64() + a3) * b64() + a2) * b64() + a1;
    let qb1 = (((b5 * b64() + b4) * b64() + b3) * b64() + b2) * b64() + b1;
    vstd::arithmetic::div_mod::lemma_fundamental_div_mod_converse(x, b64(), qa1, a0);
    vstd::arithmetic::div_mod::lemma_fundamental_div_mod_converse(x, b64(), qb1, b0);
    let qa2 = ((a5 * b64() + a4) * b64() + a3) * b64() + a2;
    let qb2 = ((b5 * b64() + b4) * b64() + b3) * b64() + b2;
    vstd::arithmetic::div_mod::lemma_fundamental_div_mod_converse(qa1, b64(), qa2, a1);
    vstd::arithmetic::div_mod::lemma_fundamental_div_mod_converse(qb1, b64(), qb2, b1);
    let qa3 = (a5 * b64() + a4) * b64() + a3;
    let qb3 = (b5 * b64() + b4) * b64() + b3;
    vstd::arithmetic::div_mod::lemma_fundamental_div_mod_converse(qa2, b64(), qa3, a2);
    vstd::arithmetic::div_mod::lemma_fundamental_div_mod_converse(qb2, b64(), qb3, b2);
    let qa4 = a5 * b64() + a4;
    let qb4 = b5 * b64() + b4;
    vstd::arithmetic::div_mod::lemma_fundamental_div_mod_converse(qa3, b64(), qa4, a3);
    vstd::arithmetic::div_mod::lemma_fundamental_div_mod_converse(qb3, b64(), qb4, b3);
    vstd::arithmetic::div_mod::lemma_fundamental_div_mod_converse(qa4, b64(), a5, a4);
    vstd::arithmetic::div_mod::lemma_fundamental_div_mod_converse(qb4, b64(), b5, b4);
}

/// A canonical value congruent to x is x % p.
pub proof fn lemma_cani_rep(x: int, r: int)
    requires
        cani(r),
        congi(r, x),
    ensures
        r == x % p(),
{
    lemma_p_pos();
    vstd::arithmetic::div_mod::lemma_small_mod(r as nat, p() as nat);
}

/// The norm-method inverse of an Fp2 value multiplies back to one.
pub proof fn lemma_inv2_product(a0: int, a1: int, m: int, n: int)
    requires
        congi(n, a0 * a0 + a1 * a1),
        congi(n * m, 1),
    ensures
        congi(a0 * (a0 * m) - a1 * ((-a1) * m), 1),
        congi(a0 * ((-a1) * m) + a1 * (a0 * m), 0),
{
    broadcast use vstd::arithmetic::mul::lemma_mul_is_associative,
        vstd::arithmetic::mul::lemma_mul_is_commutative,
        vstd::arithmetic::mul::lemma_mul_is_distributive_add_other_way,
        vstd::arithmetic::mul::lemma_mul_unary_negation;

    assert(a0 * (a0 * m) - a1 * ((-a1) * m) == (a0 * a0 + a1 * a1) * m);
    assert(a0 * ((-a1) * m) + a1 * (a0 * m) == 0);
    lemma_congi_mul(a0 * a0 + a1 * a1, m, n, m);
}

/// One positional step: appending a less-significant limb keeps the order.
proof fn lemma_lv_step(ha: int, hb: int, la: int, lb: int)
    requires
        0 <= la < b64(),
        0 <= lb < b64(),
        ha < hb || (ha == hb && la < lb),
    ensures
        ha * b64() + la < hb * b64() + lb,
{
    broadcast use vstd::arithmetic::mul::lemma_mul_is_distributive_add_other_way;

    if ha < hb {
        vstd::arithmetic::mul::lemma_mul_inequality(ha + 1, hb, b64());
    }
}

/// Limbs that are lexicographically smaller denote a smaller integer.
pub proof fn lemma_lv6_lt(
    a0: int, a1: int, a2: int, a3: int, a4: int, a5: int,
    b0: int, b1: int, b2: int, b3: int, b4: int, b5: int,
)
    requires
        0 <= a0 < b64(), 0 <= a1 < b64(), 0 <= a2 < b64(),
        0 <= a3 < b64(), 0 <= a4 < b64(), 0 <= a5 < b64(),
        0 <= b0 < b64(), 0 <= b1 < b64(), 0 <= b2 < b64(),
        0 <= b3 < b64(), 0 <= b4 < b64(), 0 <= b5 < b64(),
        a5 < b5 || (a5 == b5 && (a4 < b4 || (a4 == b4 && (a3 < b3 || (a3 == b3 && (a2 < b2 || (
        a2 == b2 && (a1 < b1 || (a1 == b1 && a0 < b0))))))))),
    ensures
        lv6(a0, a1, a2, a3, a4, a5) < lv6(b0, b1, b2, b3, b4, b5),
{
    let p4a = a5 * b64() + a4;
    let p4b = b5 * b64() + b4;
    if a5 < b5 {
        lemma_lv_step(a5, b5, a4, b4);
    }
    let p3a = p4a * b64() + a3;
    let p3b = p4b * b64() + b3;
    if p4a < p4b {
        lemma_lv_step(p4a, p4b, a3, b3);
    }
    let p2a = p3a * b64() + a2;
    let p2b = p3b * b64() + b2;
    if p3a < p3b {
        lemma_lv_step(p3a, p3b, a2, b2);
    }
    let p1a = p2a * b64() + a1;
    let p1b = p2b * b64() + b1;
    if p2a < p2b {
        lemma_lv_step(p2a, p2b, a1, b1);
    }
    if p1a < p1b {
        lemma_lv_step(p1a, p1b, a0, b0);
    }
}

/// Bounded limbs denote a non-negative integer.
pub proof fn lemma_lv6_nonneg(a0: int, a1: int, a2: int, a3: int, a4: int, a5: int)
    requires
        0 <= a0 < b64(), 0 <= a1 < b64(), 0 <= a2 < b64(),
        0 <= a3 < b64(), 0 <= a4 < b64(), 0 <= a5 < b64(),
    ensures
        lv6(a0, a1, a2, a3, a4, a5) >= 0,
{
    broadcast use vstd::arithmetic::mul::lemma_mul_nonnegative;

}

/// Invertibility only depends on the residue class.
pub proof fn lemma_inv2able_cong(x: Sp2, y: Sp2)
    requires
        cong2(x, y),
    ensures
        inv2able(x) == inv2able(y),
{
    lemma_congi_mul(x.c0, x.c0, y.c0, y.c0);
    lemma_congi_mul(x.c1, x.c1, y.c1, y.c1);
    lemma_congi_add(x.c0 * x.c0, x.c1 * x.c1, y.c0 * y.c0, y.c1 * y.c1);
}

/// A value congruent to num/den, multiplied by den, is congruent to num.
pub proof fn lemma_div_mul_cancel(g: Sp2, numv: Sp2, invv: Sp2, denv: Sp2, nu: Sp2, de: Sp2)
    requires
        cong2(g, rmul2(numv, invv)),
        cong2(numv, nu),
        cong2(denv, de),
        cong2(rmul2(denv, invv), one2()),
    ensures
        cong2(rmul2(g, de), nu),
{
    lemma_cong2_mul(g, de, rmul2(numv, invv), de);
    lemma_cong2_mul(numv, invv, nu, invv);
    lemma_cong2_mul(rmul2(numv, invv), de, rmul2(nu, invv), de);
    lemma_rmul2_assoc(nu, invv, de);
    lemma_rmul2_comm(invv, de);
    lemma_cong2_mul(de, invv, denv, invv);
    lemma_cong2_mul(nu, rmul2(de, invv), nu, one2());
    assert(rmul2(nu, one2()) == nu);
}

/// Negation moves through multiplication.
pub proof fn lemma_rmul2_neg(x: Sp2, y: Sp2)
    ensures
        rmul2(rneg2(x), y) == rneg2(rmul2(x, y)),
        rmul2(x, rneg2(y)) == rneg2(rmul2(x, y)),
{
    broadcast use vstd::arithmetic::mul::lemma_mul_is_commutative,
        vstd::arithmetic::mul::lemma_mul_unary_negation;

}

/// Distribution over subtraction.
pub proof fn lemma_rmul2_distrib_sub(x: Sp2, y: Sp2, z: Sp2)
    ensures
        rmul2(x, rsub2(y, z)) == rsub2(rmul2(x, y), rmul2(x, z)),
        rmul2(rsub2(y, z), x) == rsub2(rmul2(y, x), rmul2(z, x)),
{
    broadcast use vstd::arithmetic::mul::lemma_mul_is_distributive_sub,
        vstd::arithmetic::mul::lemma_mul_is_distributive_sub_other_way;

}

/// The first factor of a right-nested triple product may be exchanged with
/// the second.
pub proof fn lemma_rmul2_swap(x: Sp2, y: Sp2, z: Sp2)
    ensures
        rmul2(x, rmul2(y, z)) == rmul2(y, rmul2(x, z)),
{
    lemma_rmul2_assoc(x, y, z);
    lemma_rmul2_comm(x, y);
    lemma_rmul2_assoc(y, x, z);
}

/// Congruence is preserved by the Fp2 Frobenius map.
pub proof fn lemma_cong2_frob2(x: Sp2, x2: Sp2, k: nat)
    requires
        cong2(x, x2),
    ensures
        cong2(rfrob2(x, k), rfrob2(x2, k)),
{
    if k % 2 != 0 {
        lemma_congi_sub(0, x.c1, 0, x2.c1);
    }
}

/// Congruence is preserved by the Fp6 Frobenius map.
pub proof fn lemma_cong6_frob(x: Sp6, x2: Sp6, k: nat)
    requires
        cong6(x, x2),
    ensures
        cong6(rfrob6(x, k), rfrob6(x2, k)),
{
    lemma_cong2_frob2(x.c0, x2.c0, k);
    lemma_cong2_frob2(x.c1, x2.c1, k);
    lemma_cong2_frob2(x.c2, x2.c2, k);
    lemma_cong2_mul(rfrob2(x.c1, k), f6c1((k % 6) as int), rfrob2(x2.c1, k), f6c1((k % 6) as int));
    lemma_cong2_mul(rfrob2(x.c2, k), f6c2((k % 6) as int), rfrob2(x2.c2, k), f6c2((k % 6) as int));
}

/// Congruence is preserved by the Fp12 Frobenius map.
pub proof fn lemma_cong12_frob(x: Sp12, x2: Sp12, k: nat)
    requires
        cong12(x, x2),
    ensures
        cong12(rfrob12(x, k), rfrob12(x2, k)),
{
    lemma_cong6_frob(x.c0, x2.c0, k);
    lemma_cong6_frob(x.c1, x2.c1, k);
    let e = f12c1((k % 12) as int);
    lemma_cong2_mul(rfrob6(x.c1, k).c0, e, rfrob6(x2.c1, k).c0, e);
    lemma_cong2_mul(rfrob6(x.c1, k).c1, e, rfrob6(x2.c1, k).c1, e);
    lemma_cong2_mul(rfrob6(x.c1, k).c2, e, rfrob6(x2.c1, k).c2, e);
}

/// Membership in the cyclotomic subgroup only depends on the residue class.
pub proof fn lemma_spec_is_cyc_cong(x: Sp12, x2: Sp12)
    requires
        cong12(x, x2),
    ensures
        spec_is_cyc(x) == spec_is_cyc(x2),
{
    lemma_cong12_frob(x, x2, 4);
    lemma_cong12_frob(x, x2, 2);
    lemma_cong12_mul(rfrob12(x, 4), x, rfrob12(x2, 4), x2);
}

/// The recovered g0 formula respects congruence in its g1 argument.
pub proof fn lemma_back_g0_cong(u: Sp2, v: Sp2, g2: Sp2, g3: Sp2, g4: Sp2, g5: Sp2)
    requires
        cong2(u, v),
    ensures
        cong2(back_g0(u, g2, g3, g4, g5), back_g0(v, g2, g3, g4, g5)),
{
    lemma_cong2_mul(u, u, v, v);
    let gg = rmul2(g3, g4);
    lemma_cong2_sub(rmul2(u, u), gg, rmul2(v, v), gg);
    let su = rsub2(rmul2(u, u), gg);
    let sv = rsub2(rmul2(v, v), gg);
    lemma_cong2_add(su, su, sv, sv);
    lemma_cong2_sub(radd2(su, su), gg, radd2(sv, sv), gg);
    lemma_cong2_add(rsub2(radd2(su, su), gg), rmul2(g2, g5), rsub2(radd2(sv, sv), gg), rmul2(
        g2,
        g5,
    ));
    lemma_cong2_nr(
        radd2(rsub2(radd2(su, su), gg), rmul2(g2, g5)),
        radd2(rsub2(radd2(sv, sv), gg), rmul2(g2, g5)),
    );
    lemma_cong2_add(
        rnr2(radd2(rsub2(radd2(su, su), gg), rmul2(g2, g5))),
        one2(),
        rnr2(radd2(rsub2(radd2(sv, sv), gg), rmul2(g2, g5))),
        one2(),
    );
}

/// The Fp6 inversion condition only depends on the residue class.
pub proof fn lemma_inv6able_cong(x: Sp6, x2: Sp6)
    requires
        cong6(x, x2),
    ensures
        inv6able(x) == inv6able(x2),
{
    lemma_cong2_mul(x.c0, x.c0, x2.c0, x2.c0);
    lemma_cong2_mul(x.c1, x.c2, x2.c1, x2.c2);
    lemma_cong2_mul(x.c2, x.c2, x2.c2, x2.c2);
    lemma_cong2_mul(x.c0, x.c1, x2.c0, x2.c1);
    lemma_cong2_mul(x.c1, x.c1, x2.c1, x2.c1);
    lemma_cong2_mul(x.c0, x.c2, x2.c0, x2.c2);
    lemma_cong2_nr(rmul2(x.c1, x.c2), rmul2(x2.c1, x2.c2));
    lemma_cong2_nr(rmul2(x.c2, x.c2), rmul2(x2.c2, x2.c2));
    lemma_cong2_sub(
        rmul2(x.c0, x.c0),
        rnr2(rmul2(x.c1, x.c2)),
        rmul2(x2.c0, x2.c0),
        rnr2(rmul2(x2.c1, x2.c2)),
    );
    lemma_cong2_sub(
        rnr2(rmul2(x.c2, x.c2)),
        rmul2(x.c0, x.c1),
        rnr2(rmul2(x2.c2, x2.c2)),
        rmul2(x2.c0, x2.c1),
    );
    lemma_cong2_sub(
        rmul2(x.c1, x.c1),
        rmul2(x.c0, x.c2),
        rmul2(x2.c1, x2.c1),
        rmul2(x2.c0, x2.c2),
    );
    lemma_cong2_mul(x.c0, adj6(x).c0, x2.c0, adj6(x2).c0);
    lemma_cong2_mul(x.c2, adj6(x).c1, x2.c2, adj6(x2).c1);
    lemma_cong2_mul(x.c1, adj6(x).c2, x2.c1, adj6(x2).c2);
    lemma_cong2_add(
        rmul2(x.c2, adj6(x).c1),
        rmul2(x.c1, adj6(x).c2),
        rmul2(x2.c2, adj6(x2).c1),
        rmul2(x2.c1, adj6(x2).c2),
    );
    lemma_cong2_nr(
        radd2(rmul2(x.c2, adj6(x).c1), rmul2(x.c1, adj6(x).c2)),
        radd2(rmul2(x2.c2, adj6(x2).c1), rmul2(x2.c1, adj6(x2).c2)),
    );
    lemma_cong2_add(
        rmul2(x.c0, adj6(x).c0),
        rnr2(radd2(rmul2(x.c2, adj6(x).c1), rmul2(x.c1, adj6(x).c2))),
        rmul2(x2.c0, adj6(x2).c0),
        rnr2(radd2(rmul2(x2.c2, adj6(x2).c1), rmul2(x2.c1, adj6(x2).c2))),
    );
    lemma_inv2able_cong(inv_t6(x), inv_t6(x2));
}

/// The Fp12 inversion condition only depends on the residue class.
pub proof fn lemma_inv12able_cong(x: Sp12, x2: Sp12)
    requires
        cong12(x, x2),
    ensures
        inv12able(x) == inv12able(x2),
{
    lemma_cong6_mul(x.c0, x.c0, x2.c0, x2.c0);
    lemma_cong6_mul(x.c1, x.c1, x2.c1, x2.c1);
    lemma_cong6_nr(rmul6(x.c1, x.c1), rmul6(x2.c1, x2.c1));
    lemma_cong6_sub(
        rmul6(x.c0, x.c0),
        rnr6(rmul6(x.c1, x.c1)),
        rmul6(x2.c0, x2.c0),
        rnr6(rmul6(x2.c1, x2.c1)),
    );
    lemma_inv6able_cong(inv_d12(x), inv_d12(x2));
}

pub proof fn lemma_cong6_neg(x: Sp6, x2: Sp6)
    requires
        cong6(x, x2),
    ensures
        cong6(rneg6(x), rneg6(x2)),
{
    lemma_cong2_neg(x.c0, x2.c0);
    lemma_cong2_neg(x.c1, x2.c1);
    lemma_cong2_neg(x.c2, x2.c2);
}

/// Zero and one are their own remainders modulo p.
pub proof fn lemma_zero_one_mod()
    ensures
        0int % p() == 0,
        1int % p() == 1,
{
    lemma_p_pos();
    vstd::arithmetic::div_mod::lemma_small_mod(0nat, p() as nat);
    vstd::arithmetic::div_mod::lemma_small_mod(1nat, p() as nat);
}

/// Zero is not invertible.
pub proof fn lemma_inv12able_zero()
    ensures
        !inv12able(zero12()),
        !inv6able(zero6()),
{
    lemma_zero_one_mod();
    assert(rmul2(zero2(), zero2()) == zero2());
    assert(rmul6(zero6(), zero6()) == zero6());
    assert(rnr6(zero6()) == zero6());
    assert(inv_d12(zero12()) == zero6());
    assert(adj6(zero6()) == zero6());
    assert(inv_t6(zero6()) == zero2());
    assert(!inv2able(zero2()));
}

/// Multiplication by zero gives zero.
pub proof fn lemma_rmul2_zero(x: Sp2)
    ensures
        rmul2(zero2(), x) == zero2(),
        rmul2(x, zero2()) == zero2(),
{
}

} // verus!
