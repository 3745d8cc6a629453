use vstd::prelude::*;
use crate::lemmas::{
    lemma_cong12_mul, lemma_cong2_mul, lemma_cong6_mul, lemma_rmul2_assoc, lemma_rmul2_comm,
    lemma_rmul2_distrib, lemma_rmul2_distrib_sub, lemma_rmul2_neg, lemma_rmul2_swap,
    lemma_rmul6_one, lemma_rnr2_mul, lemma_rnr6_add,
};
use crate::model::{
    adj6, cong12, cong2, cong6, inv_d12, inv_t6, one12, one2, one6, radd2, radd6, rmul12, rmul2,
    rmul6, rneg6, rnr2, rnr6, rscale6, rsub6, sinv12, sinv2, zero2, zero6, Sp12, Sp2, Sp6,
};

verus! {

pub proof fn lemma_rmul6_comm(x: Sp6, y: Sp6)
    ensures
        rmul6(x, y) == rmul6(y, x),
{
    broadcast use vstd::arithmetic::mul::lemma_mul_is_commutative;

}

pub proof fn lemma_rmul6_distrib(x: Sp6, y: Sp6, z: Sp6)
    ensures
        rmul6(x, radd6(y, z)) == radd6(rmul6(x, y), rmul6(x, z)),
        rmul6(radd6(y, z), x) == radd6(rmul6(y, x), rmul6(z, x)),
{
    broadcast use vstd::arithmetic::mul::lemma_mul_is_distributive_add,
        vstd::arithmetic::mul::lemma_mul_is_distributive_add_other_way;

}

pub proof fn lemma_rnr6_mul(x: Sp6, y: Sp6)
    ensures
        rmul6(x, rnr6(y)) == rnr6(rmul6(x, y)),
        rmul6(rnr6(y), x) == rnr6(rmul6(y, x)),
{
    broadcast use vstd::arithmetic::mul::lemma_mul_is_commutative,
        vstd::arithmetic::mul::lemma_mul_is_distributive_add,
        vstd::arithmetic::mul::lemma_mul_is_distributive_add_other_way,
        vstd::arithmetic::mul::lemma_mul_is_distributive_sub,
        vstd::arithmetic::mul::lemma_mul_is_distributive_sub_other_way;

}



pub proof fn lemma_rmul12_comm(x: Sp12, y: Sp12)
    ensures
        rmul12(x, y) == rmul12(y, x),
{
    lemma_rmul6_comm(x.c0, y.c0);
    lemma_rmul6_comm(x.c1, y.c1);
    lemma_rmul6_comm(x.c0, y.c1);
    lemma_rmul6_comm(x.c1, y.c0);
}


/// The Karatsuba recombination: (a+b)(c+d) - ac - bd == ad + bc.
pub proof fn lemma_karatsuba6(a: Sp6, b: Sp6, c: Sp6, d: Sp6)
    ensures
        rsub6(rsub6(rmul6(radd6(a, b), radd6(c, d)), rmul6(a, c)), rmul6(b, d)) == radd6(
            rmul6(a, d),
            rmul6(b, c),
        ),
{
    lemma_rmul6_distrib(radd6(c, d), a, b);
    lemma_rmul6_distrib(a, c, d);
    lemma_rmul6_distrib(b, c, d);
}

/// The complex-squaring recombination over Fp6 with w^2 = v.
pub proof fn lemma_square6(a: Sp6, b: Sp6)
    ensures
        rsub6(rsub6(rmul6(radd6(a, b), radd6(a, rnr6(b))), rmul6(a, b)), rnr6(rmul6(a, b)))
            == radd6(rmul6(a, a), rnr6(rmul6(b, b))),
        radd6(rmul6(a, b), rmul6(a, b)) == radd6(rmul6(a, b), rmul6(b, a)),
{
    lemma_rmul6_distrib(radd6(a, rnr6(b)), a, b);
    lemma_rmul6_distrib(a, a, rnr6(b));
    lemma_rmul6_distrib(b, a, rnr6(b));
    lemma_rnr6_mul(a, b);
    lemma_rnr6_mul(b, b);
    lemma_rmul6_comm(a, b);
}

/// Multiplication in Fp6 is associative.
#[verifier::rlimit(100)]
#[verifier::spinoff_prover]
pub proof fn lemma_rmul6_assoc(x: Sp6, y: Sp6, z: Sp6)
    ensures
        rmul6(rmul6(x, y), z) == rmul6(x, rmul6(y, z)),
{
    lemma_rmul2_distrib(z.c0, rmul2(x.c0, y.c0), rnr2(radd2(rmul2(x.c1, y.c2), rmul2(x.c2, y.c1))));
    lemma_rmul2_assoc(x.c0, y.c0, z.c0);
    lemma_rnr2_mul(radd2(rmul2(x.c1, y.c2), rmul2(x.c2, y.c1)), z.c0);
    lemma_rmul2_distrib(z.c0, rmul2(x.c1, y.c2), rmul2(x.c2, y.c1));
    lemma_rmul2_assoc(x.c1, y.c2, z.c0);
    lemma_rmul2_assoc(x.c2, y.c1, z.c0);
    lemma_rmul2_distrib(z.c2, radd2(rmul2(x.c0, y.c1), rmul2(x.c1, y.c0)), rnr2(rmul2(x.c2, y.c2)));
    lemma_rmul2_distrib(z.c2, rmul2(x.c0, y.c1), rmul2(x.c1, y.c0));
    lemma_rmul2_assoc(x.c0, y.c1, z.c2);
    lemma_rmul2_assoc(x.c1, y.c0, z.c2);
    lemma_rnr2_mul(rmul2(x.c2, y.c2), z.c2);
    lemma_rmul2_assoc(x.c2, y.c2, z.c2);
    lemma_rmul2_distrib(z.c1, radd2(rmul2(x.c0, y.c2), rmul2(x.c2, y.c0)), rmul2(x.c1, y.c1));
    lemma_rmul2_distrib(z.c1, rmul2(x.c0, y.c2), rmul2(x.c2, y.c0));
    lemma_rmul2_assoc(x.c0, y.c2, z.c1);
    lemma_rmul2_assoc(x.c2, y.c0, z.c1);
    lemma_rmul2_assoc(x.c1, y.c1, z.c1);
    lemma_rmul2_distrib(x.c0, rmul2(y.c0, z.c0), rnr2(radd2(rmul2(y.c1, z.c2), rmul2(y.c2, z.c1))));
    lemma_rnr2_mul(x.c0, radd2(rmul2(y.c1, z.c2), rmul2(y.c2, z.c1)));
    lemma_rmul2_distrib(x.c0, rmul2(y.c1, z.c2), rmul2(y.c2, z.c1));
    lemma_rmul2_distrib(x.c1, radd2(rmul2(y.c0, z.c2), rmul2(y.c2, z.c0)), rmul2(y.c1, z.c1));
    lemma_rmul2_distrib(x.c1, rmul2(y.c0, z.c2), rmul2(y.c2, z.c0));
    lemma_rmul2_distrib(x.c2, radd2(rmul2(y.c0, z.c1), rmul2(y.c1, z.c0)), rnr2(rmul2(y.c2, z.c2)));
    lemma_rmul2_distrib(x.c2, rmul2(y.c0, z.c1), rmul2(y.c1, z.c0));
    lemma_rnr2_mul(x.c2, rmul2(y.c2, z.c2));
    lemma_rmul2_distrib(z.c1, rmul2(x.c0, y.c0), rnr2(radd2(rmul2(x.c1, y.c2), rmul2(x.c2, y.c1))));
    lemma_rmul2_assoc(x.c0, y.c0, z.c1);
    lemma_rnr2_mul(radd2(rmul2(x.c1, y.c2), rmul2(x.c2, y.c1)), z.c1);
    lemma_rmul2_distrib(z.c1, rmul2(x.c1, y.c2), rmul2(x.c2, y.c1));
    lemma_rmul2_assoc(x.c1, y.c2, z.c1);
    lemma_rmul2_assoc(x.c2, y.c1, z.c1);
    lemma_rmul2_distrib(z.c0, radd2(rmul2(x.c0, y.c1), rmul2(x.c1, y.c0)), rnr2(rmul2(x.c2, y.c2)));
    lemma_rmul2_distrib(z.c0, rmul2(x.c0, y.c1), rmul2(x.c1, y.c0));
    lemma_rmul2_assoc(x.c0, y.c1, z.c0);
    lemma_rmul2_assoc(x.c1, y.c0, z.c0);
    lemma_rnr2_mul(rmul2(x.c2, y.c2), z.c0);
    lemma_rmul2_assoc(x.c2, y.c2, z.c0);
    lemma_rmul2_distrib(z.c2, radd2(rmul2(x.c0, y.c2), rmul2(x.c2, y.c0)), rmul2(x.c1, y.c1));
    lemma_rmul2_distrib(z.c2, rmul2(x.c0, y.c2), rmul2(x.c2, y.c0));
    lemma_rmul2_assoc(x.c0, y.c2, z.c2);
    lemma_rmul2_assoc(x.c2, y.c0, z.c2);
    lemma_rmul2_assoc(x.c1, y.c1, z.c2);
    lemma_rmul2_distrib(x.c0, radd2(rmul2(y.c0, z.c1), rmul2(y.c1, z.c0)), rnr2(rmul2(y.c2, z.c2)));
    lemma_rmul2_distrib(x.c0, rmul2(y.c0, z.c1), rmul2(y.c1, z.c0));
    lemma_rnr2_mul(x.c0, rmul2(y.c2, z.c2));
    lemma_rmul2_distrib(x.c1, rmul2(y.c0, z.c0), rnr2(radd2(rmul2(y.c1, z.c2), rmul2(y.c2, z.c1))));
    lemma_rnr2_mul(x.c1, radd2(rmul2(y.c1, z.c2), rmul2(y.c2, z.c1)));
    lemma_rmul2_distrib(x.c1, rmul2(y.c1, z.c2), rmul2(y.c2, z.c1));
    lemma_rmul2_distrib(x.c2, radd2(rmul2(y.c0, z.c2), rmul2(y.c2, z.c0)), rmul2(y.c1, z.c1));
    lemma_rmul2_distrib(x.c2, rmul2(y.c0, z.c2), rmul2(y.c2, z.c0));
    lemma_rmul2_distrib(z.c2, rmul2(x.c0, y.c0), rnr2(radd2(rmul2(x.c1, y.c2), rmul2(x.c2, y.c1))));
    lemma_rmul2_assoc(x.c0, y.c0, z.c2);
    lemma_rnr2_mul(radd2(rmul2(x.c1, y.c2), rmul2(x.c2, y.c1)), z.c2);
    lemma_rmul2_distrib(z.c2, rmul2(x.c1, y.c2), rmul2(x.c2, y.c1));
    lemma_rmul2_assoc(x.c1, y.c2, z.c2);
    lemma_rmul2_assoc(x.c2, y.c1, z.c2);
    lemma_rmul2_distrib(z.c0, radd2(rmul2(x.c0, y.c2), rmul2(x.c2, y.c0)), rmul2(x.c1, y.c1));
    lemma_rmul2_distrib(z.c0, rmul2(x.c0, y.c2), rmul2(x.c2, y.c0));
    lemma_rmul2_assoc(x.c0, y.c2, z.c0);
    lemma_rmul2_assoc(x.c2, y.c0, z.c0);
    lemma_rmul2_assoc(x.c1, y.c1, z.c0);
    lemma_rmul2_distrib(z.c1, radd2(rmul2(x.c0, y.c1), rmul2(x.c1, y.c0)), rnr2(rmul2(x.c2, y.c2)));
    lemma_rmul2_distrib(z.c1, rmul2(x.c0, y.c1), rmul2(x.c1, y.c0));
    lemma_rmul2_assoc(x.c0, y.c1, z.c1);
    lemma_rmul2_assoc(x.c1, y.c0, z.c1);
    lemma_rnr2_mul(rmul2(x.c2, y.c2), z.c1);
    lemma_rmul2_assoc(x.c2, y.c2, z.c1);
    lemma_rmul2_distrib(x.c0, radd2(rmul2(y.c0, z.c2), rmul2(y.c2, z.c0)), rmul2(y.c1, z.c1));
    lemma_rmul2_distrib(x.c0, rmul2(y.c0, z.c2), rmul2(y.c2, z.c0));
    lemma_rmul2_distrib(x.c2, rmul2(y.c0, z.c0), rnr2(radd2(rmul2(y.c1, z.c2), rmul2(y.c2, z.c1))));
    lemma_rnr2_mul(x.c2, radd2(rmul2(y.c1, z.c2), rmul2(y.c2, z.c1)));
    lemma_rmul2_distrib(x.c2, rmul2(y.c1, z.c2), rmul2(y.c2, z.c1));
    lemma_rmul2_distrib(x.c1, radd2(rmul2(y.c0, z.c1), rmul2(y.c1, z.c0)), rnr2(rmul2(y.c2, z.c2)));
    lemma_rmul2_distrib(x.c1, rmul2(y.c0, z.c1), rmul2(y.c1, z.c0));
    lemma_rnr2_mul(x.c1, rmul2(y.c2, z.c2));
}

/// Multiplication in Fp12 is associative.
#[verifier::rlimit(100)]
#[verifier::spinoff_prover]
pub proof fn lemma_rmul12_assoc(x: Sp12, y: Sp12, z: Sp12)
    ensures
        rmul12(rmul12(x, y), z) == rmul12(x, rmul12(y, z)),
{
    let (a, b) = (x.c0, x.c1);
    let (c, d) = (y.c0, y.c1);
    let (e, f) = (z.c0, z.c1);
    lemma_rmul6_distrib(e, rmul6(a, c), rnr6(rmul6(b, d)));
    lemma_rmul6_distrib(f, rmul6(a, c), rnr6(rmul6(b, d)));
    lemma_rmul6_distrib(e, rmul6(a, d), rmul6(b, c));
    lemma_rmul6_distrib(f, rmul6(a, d), rmul6(b, c));
    lemma_rmul6_distrib(a, rmul6(c, e), rnr6(rmul6(d, f)));
    lemma_rmul6_distrib(b, rmul6(c, e), rnr6(rmul6(d, f)));
    lemma_rmul6_distrib(a, rmul6(c, f), rmul6(d, e));
    lemma_rmul6_distrib(b, rmul6(c, f), rmul6(d, e));
    lemma_rnr6_mul(e, rmul6(b, d));
    lemma_rnr6_mul(f, rmul6(b, d));
    lemma_rnr6_mul(a, rmul6(d, f));
    lemma_rnr6_mul(b, rmul6(d, f));
    lemma_rmul6_assoc(a, c, e);
    lemma_rmul6_assoc(a, c, f);
    lemma_rmul6_assoc(a, d, e);
    lemma_rmul6_assoc(a, d, f);
    lemma_rmul6_assoc(b, c, e);
    lemma_rmul6_assoc(b, c, f);
    lemma_rmul6_assoc(b, d, e);
    lemma_rmul6_assoc(b, d, f);
    lemma_rmul6_comm(rmul6(b, d), e);
    lemma_rmul6_comm(rmul6(b, d), f);
    lemma_rnr6_add(rmul6(rmul6(b, d), e), rmul6(rmul6(b, d), f));
}

/// Negation moves through Fp6 multiplication.
pub proof fn lemma_rmul6_neg(x: Sp6, y: Sp6)
    ensures
        rmul6(rneg6(x), y) == rneg6(rmul6(x, y)),
        rmul6(x, rneg6(y)) == rneg6(rmul6(x, y)),
{
    lemma_rmul2_neg(x.c0, y.c0);
    lemma_rmul2_neg(x.c0, y.c1);
    lemma_rmul2_neg(x.c0, y.c2);
    lemma_rmul2_neg(x.c1, y.c0);
    lemma_rmul2_neg(x.c1, y.c1);
    lemma_rmul2_neg(x.c1, y.c2);
    lemma_rmul2_neg(x.c2, y.c0);
    lemma_rmul2_neg(x.c2, y.c1);
    lemma_rmul2_neg(x.c2, y.c2);
}

/// Cancellation by an invertible factor.
pub proof fn lemma_cancel6(u: Sp6, v: Sp6, w: Sp6, j: Sp6)
    requires
        cong6(rmul6(u, w), rmul6(v, w)),
        cong6(rmul6(w, j), one6()),
    ensures
        cong6(u, v),
{
    lemma_rmul6_one(u);
    lemma_rmul6_one(v);
    lemma_cong6_mul(u, rmul6(w, j), u, one6());
    lemma_cong6_mul(v, rmul6(w, j), v, one6());
    lemma_rmul6_assoc(u, w, j);
    lemma_rmul6_assoc(v, w, j);
    lemma_cong6_mul(rmul6(u, w), j, rmul6(v, w), j);
}

/// Distribution over subtraction at the Fp6 level.
pub proof fn lemma_rmul6_distrib_sub(x: Sp6, y: Sp6, z: Sp6)
    ensures
        rmul6(x, rsub6(y, z)) == rsub6(rmul6(x, y), rmul6(x, z)),
        rmul6(rsub6(y, z), x) == rsub6(rmul6(y, x), rmul6(z, x)),
{
    broadcast use vstd::arithmetic::mul::lemma_mul_is_distributive_sub,
        vstd::arithmetic::mul::lemma_mul_is_distributive_sub_other_way;

}

/// The adjugate identity behind Fp6 inversion: an element times its
/// adjugate is the scalar inv_t6, with zero in the v and v^2 coordinates.
pub proof fn lemma_fp6_adjugate(x: Sp6)
    ensures
        rmul6(x, adj6(x)) == (Sp6 { c0: inv_t6(x), c1: zero2(), c2: zero2() }),
{
    let x0 = x.c0;
    let x1 = x.c1;
    let x2 = x.c2;
    lemma_rmul2_distrib_sub(x0, rnr2(rmul2(x2, x2)), rmul2(x0, x1));
    lemma_rnr2_mul(x0, rmul2(x2, x2));
    lemma_rmul2_distrib_sub(x1, rmul2(x0, x0), rnr2(rmul2(x1, x2)));
    lemma_rnr2_mul(x1, rmul2(x1, x2));
    lemma_rmul2_distrib_sub(x2, rmul2(x1, x1), rmul2(x0, x2));
    lemma_rmul2_swap(x2, x0, x2);
    lemma_rmul2_swap(x1, x0, x0);
    lemma_rmul2_comm(x1, x0);
    lemma_rmul2_swap(x2, x1, x1);
    lemma_rmul2_comm(x2, x1);
    lemma_rmul2_distrib_sub(x0, rmul2(x1, x1), rmul2(x0, x2));
    lemma_rmul2_distrib_sub(x2, rmul2(x0, x0), rnr2(rmul2(x1, x2)));
    lemma_rnr2_mul(x2, rmul2(x1, x2));
    lemma_rmul2_distrib_sub(x1, rnr2(rmul2(x2, x2)), rmul2(x0, x1));
    lemma_rnr2_mul(x1, rmul2(x2, x2));
    lemma_rmul2_swap(x1, x0, x1);
    lemma_rmul2_swap(x2, x0, x0);
    lemma_rmul2_comm(x2, x0);
    lemma_rmul2_swap(x1, x2, x2);
}

/// The product identity behind Fp12 inversion: an element times its
/// norm-method candidate is the norm inv_d12 times the Fp6 factor m.
pub proof fn lemma_fp12_inv_product(a: Sp12, m: Sp6)
    ensures
        rmul12(a, (Sp12 { c0: rmul6(a.c0, m), c1: rneg6(rmul6(a.c1, m)) })) == (Sp12 {
            c0: rmul6(inv_d12(a), m),
            c1: zero6(),
        }),
{
    let a0 = a.c0;
    let a1 = a.c1;
    lemma_rmul6_neg(a1, rmul6(a1, m));
    lemma_rmul6_assoc(a0, a0, m);
    lemma_rmul6_assoc(a1, a1, m);
    lemma_rmul6_assoc(a0, a1, m);
    lemma_rmul6_assoc(a1, a0, m);
    lemma_rmul6_comm(a0, a1);
    lemma_rmul6_distrib_sub(m, rmul6(a0, a0), rnr6(rmul6(a1, a1)));
    lemma_rnr6_mul(m, rmul6(a1, a1));
    lemma_rmul6_neg(a0, rmul6(a1, m));
}

/// The chosen Fp2 inverse is congruent to any witness inverse.
pub proof fn lemma_sinv2_value(x: Sp2, w: Sp2)
    requires
        cong2(rmul2(x, w), one2()),
    ensures
        cong2(rmul2(x, sinv2(x)), one2()),
        cong2(sinv2(x), w),
{
    assert(exists|b: Sp2| cong2(rmul2(x, b), one2())) by {
        assert(cong2(rmul2(x, w), one2()));
    }
    let c = sinv2(x);
    assert(cong2(rmul2(x, c), one2()));
    lemma_cong2_mul(w, rmul2(x, c), w, one2());
    lemma_rmul2_assoc(w, x, c);
    lemma_rmul2_comm(w, x);
    lemma_cong2_mul(rmul2(x, w), c, one2(), c);
    assert(rmul2(w, one2()) == w);
    assert(rmul2(one2(), c) == c);
}

/// The chosen Fp12 inverse is congruent to any witness inverse.
pub proof fn lemma_sinv12_value(x: Sp12, w: Sp12)
    requires
        cong12(rmul12(x, w), one12()),
    ensures
        cong12(rmul12(x, sinv12(x)), one12()),
        cong12(sinv12(x), w),
{
    assert(exists|b: Sp12| cong12(rmul12(x, b), one12())) by {
        assert(cong12(rmul12(x, w), one12()));
    }
    let c = sinv12(x);
    assert(cong12(rmul12(x, c), one12()));
    lemma_cong12_mul(w, rmul12(x, c), w, one12());
    lemma_rmul12_assoc(w, x, c);
    lemma_rmul12_comm(w, x);
    lemma_cong12_mul(rmul12(x, w), c, one12(), c);
    lemma_rmul6_one(w.c0);
    lemma_rmul6_one(w.c1);
    assert(rmul6(w.c0, zero6()) == zero6());
    assert(rmul6(w.c1, zero6()) == zero6());
    lemma_rmul12_comm(one12(), c);
    lemma_rmul6_one(c.c0);
    lemma_rmul6_one(c.c1);
    assert(rmul6(c.c0, zero6()) == zero6());
    assert(rmul6(c.c1, zero6()) == zero6());
}

/// Multiplying by a value and then by its inverse cancels.
pub proof fn lemma_mul_inv_cancel6(x: Sp6, m: Sp6, y: Sp6)
    requires
        cong6(rmul6(y, m), one6()),
    ensures
        cong6(rmul6(rmul6(x, m), y), x),
{
    lemma_rmul6_assoc(x, m, y);
    lemma_rmul6_comm(m, y);
    lemma_cong6_mul(x, rmul6(y, m), x, one6());
    lemma_rmul6_one(x);
}

/// A scalar Fp2 factor on the second operand pulls out of an Fp6 product.
pub proof fn lemma_rscale6_mul(x: Sp6, y: Sp6, k: Sp2)
    ensures
        rmul6(x, rscale6(y, k)) == rscale6(rmul6(x, y), k),
{
    lemma_rmul2_assoc(x.c0, y.c0, k);
    lemma_rmul2_assoc(x.c0, y.c1, k);
    lemma_rmul2_assoc(x.c0, y.c2, k);
    lemma_rmul2_assoc(x.c1, y.c0, k);
    lemma_rmul2_assoc(x.c1, y.c1, k);
    lemma_rmul2_assoc(x.c1, y.c2, k);
    lemma_rmul2_assoc(x.c2, y.c0, k);
    lemma_rmul2_assoc(x.c2, y.c1, k);
    lemma_rmul2_assoc(x.c2, y.c2, k);
    lemma_rmul2_swap(x.c0, y.c0, k);
    lemma_rmul2_swap(x.c0, y.c1, k);
    lemma_rmul2_swap(x.c0, y.c2, k);
    lemma_rmul2_swap(x.c1, y.c0, k);
    lemma_rmul2_swap(x.c1, y.c1, k);
    lemma_rmul2_swap(x.c1, y.c2, k);
    lemma_rmul2_swap(x.c2, y.c0, k);
    lemma_rmul2_swap(x.c2, y.c1, k);
    lemma_rmul2_swap(x.c2, y.c2, k);
    lemma_rmul2_distrib(k, rmul2(x.c1, y.c2), rmul2(x.c2, y.c1));
    lemma_rnr2_mul(radd2(rmul2(x.c1, y.c2), rmul2(x.c2, y.c1)), k);
    lemma_rmul2_distrib(k, rmul2(x.c0, y.c0), rnr2(radd2(rmul2(x.c1, y.c2), rmul2(x.c2, y.c1))));
    lemma_rmul2_distrib(k, rmul2(x.c0, y.c1), rmul2(x.c1, y.c0));
    lemma_rnr2_mul(rmul2(x.c2, y.c2), k);
    lemma_rmul2_distrib(
        k,
        radd2(rmul2(x.c0, y.c1), rmul2(x.c1, y.c0)),
        rnr2(rmul2(x.c2, y.c2)),
    );
    lemma_rmul2_distrib(k, rmul2(x.c0, y.c2), rmul2(x.c2, y.c0));
    lemma_rmul2_distrib(
        k,
        radd2(rmul2(x.c0, y.c2), rmul2(x.c2, y.c0)),
        rmul2(x.c1, y.c1),
    );
}

} // verus!
