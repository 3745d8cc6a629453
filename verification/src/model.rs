//! Mathematical model of the Fp12 tower.
//!
//! Elements of the base field are modelled as integers; an element of an
//! extension field is a tuple of integers, one per base-field coordinate.
//! The `r*` operations below are the *raw* tower operations: they compute the
//! coordinate polynomials over unbounded integers, with no modular reduction.
//! Two raw values represent the same field element exactly when they are
//! congruent modulo the prime, coordinate by coordinate (`cong2`, `cong6`,
//! `cong12`); an executable value is canonical when every coordinate lies in
//! `[0, p)`.  The tower is
//! `Fp2 = Fp[u]/(u^2+1)`, `Fp6 = Fp2[v]/(v^3-(u+1))`, `Fp12 = Fp6[w]/(w^2-v)`.
use vstd::prelude::*;

verus! {

/// 2^64, the base in which limbs are interpreted.
pub open spec fn b64() -> int {
    0x10000000000000000
}

/// The integer denoted by six 64-bit limbs, little-endian, in Horner form.
pub open spec fn lv6(l0: int, l1: int, l2: int, l3: int, l4: int, l5: int) -> int {
    ((((l5 * b64() + l4) * b64() + l3) * b64() + l2) * b64() + l1) * b64() + l0
}

/// The 381-bit prime modulus of the BLS12-381 base field,
/// 0x1a0111ea397fe69a4b1ba7b6434bacd764774b84f38512bf6730d2a0f6b0f6241eabfffeb153ffffb9feffffffffaaab,
/// given by its 64-bit limbs.
pub open spec fn p() -> int {
    lv6(
        0xb9feffffffffaaab,
        0x1eabfffeb153ffff,
        0x6730d2a0f6b0f624,
        0x64774b84f38512bf,
        0x4b1ba7b6434bacd7,
        0x1a0111ea397fe69a,
    )
}

/// Model of an Fp2 element: c0 + c1*u.
pub ghost struct Sp2 {
    pub c0: int,
    pub c1: int,
}

/// Model of an Fp6 element: c0 + c1*v + c2*v^2, coordinates in Fp2.
pub ghost struct Sp6 {
    pub c0: Sp2,
    pub c1: Sp2,
    pub c2: Sp2,
}

/// Model of an Fp12 element: c0 + c1*w, coordinates in Fp6.
pub ghost struct Sp12 {
    pub c0: Sp6,
    pub c1: Sp6,
}

pub open spec fn s2(c0: int, c1: int) -> Sp2 {
    Sp2 { c0: c0, c1: c1 }
}

pub open spec fn zero2() -> Sp2 {
    s2(0, 0)
}

pub open spec fn one2() -> Sp2 {
    s2(1, 0)
}

pub open spec fn zero6() -> Sp6 {
    Sp6 { c0: zero2(), c1: zero2(), c2: zero2() }
}

pub open spec fn one6() -> Sp6 {
    Sp6 { c0: one2(), c1: zero2(), c2: zero2() }
}

pub open spec fn zero12() -> Sp12 {
    Sp12 { c0: zero6(), c1: zero6() }
}

pub open spec fn one12() -> Sp12 {
    Sp12 { c0: one6(), c1: zero6() }
}

// ---------------------------------------------------------------------------
// Raw Fp2 operations: arithmetic in Z[u]/(u^2+1).
// ---------------------------------------------------------------------------

pub open spec fn radd2(x: Sp2, y: Sp2) -> Sp2 {
    s2(x.c0 + y.c0, x.c1 + y.c1)
}

pub open spec fn rsub2(x: Sp2, y: Sp2) -> Sp2 {
    s2(x.c0 - y.c0, x.c1 - y.c1)
}

pub open spec fn rneg2(x: Sp2) -> Sp2 {
    s2(-x.c0, -x.c1)
}

pub open spec fn rmul2(x: Sp2, y: Sp2) -> Sp2 {
    s2(x.c0 * y.c0 - x.c1 * y.c1, x.c0 * y.c1 + x.c1 * y.c0)
}

/// Multiplication by the Fp6 non-residue u + 1.
pub open spec fn rnr2(x: Sp2) -> Sp2 {
    s2(x.c0 - x.c1, x.c0 + x.c1)
}

// ---------------------------------------------------------------------------
// Raw Fp6 operations: arithmetic in Fp2[v]/(v^3 - (u+1)).
// ---------------------------------------------------------------------------

pub open spec fn radd6(x: Sp6, y: Sp6) -> Sp6 {
    Sp6 { c0: radd2(x.c0, y.c0), c1: radd2(x.c1, y.c1), c2: radd2(x.c2, y.c2) }
}

pub open spec fn rsub6(x: Sp6, y: Sp6) -> Sp6 {
    Sp6 { c0: rsub2(x.c0, y.c0), c1: rsub2(x.c1, y.c1), c2: rsub2(x.c2, y.c2) }
}

pub open spec fn rneg6(x: Sp6) -> Sp6 {
    Sp6 { c0: rneg2(x.c0), c1: rneg2(x.c1), c2: rneg2(x.c2) }
}

pub open spec fn rmul6(x: Sp6, y: Sp6) -> Sp6 {
    Sp6 {
        c0: radd2(rmul2(x.c0, y.c0), rnr2(radd2(rmul2(x.c1, y.c2), rmul2(x.c2, y.c1)))),
        c1: radd2(radd2(rmul2(x.c0, y.c1), rmul2(x.c1, y.c0)), rnr2(rmul2(x.c2, y.c2))),
        c2: radd2(radd2(rmul2(x.c0, y.c2), rmul2(x.c2, y.c0)), rmul2(x.c1, y.c1)),
    }
}

/// Multiplication of an Fp6 element by the Fp12 non-residue v.
pub open spec fn rnr6(x: Sp6) -> Sp6 {
    Sp6 { c0: rnr2(x.c2), c1: x.c0, c2: x.c1 }
}

/// Multiplication of each Fp2 coordinate of an Fp6 element by a fixed Fp2 value.
pub open spec fn rscale6(x: Sp6, k: Sp2) -> Sp6 {
    Sp6 { c0: rmul2(x.c0, k), c1: rmul2(x.c1, k), c2: rmul2(x.c2, k) }
}

// ---------------------------------------------------------------------------
// Raw Fp12 operations: arithmetic in Fp6[w]/(w^2 - v).
// ---------------------------------------------------------------------------

pub open spec fn radd12(x: Sp12, y: Sp12) -> Sp12 {
    Sp12 { c0: radd6(x.c0, y.c0), c1: radd6(x.c1, y.c1) }
}

pub open spec fn rsub12(x: Sp12, y: Sp12) -> Sp12 {
    Sp12 { c0: rsub6(x.c0, y.c0), c1: rsub6(x.c1, y.c1) }
}

pub open spec fn rneg12(x: Sp12) -> Sp12 {
    Sp12 { c0: rneg6(x.c0), c1: rneg6(x.c1) }
}

pub open spec fn rmul12(x: Sp12, y: Sp12) -> Sp12 {
    Sp12 {
        c0: radd6(rmul6(x.c0, y.c0), rnr6(rmul6(x.c1, y.c1))),
        c1: radd6(rmul6(x.c0, y.c1), rmul6(x.c1, y.c0)),
    }
}

/// The conjugate: the order-2 automorphism of Fp12 over Fp6, negating c1.
pub open spec fn rconj12(x: Sp12) -> Sp12 {
    Sp12 { c0: x.c0, c1: rneg6(x.c1) }
}

// ---------------------------------------------------------------------------
// Congruence modulo p and canonicity.
// ---------------------------------------------------------------------------

pub open spec fn congi(x: int, y: int) -> bool {
    x % p() == y % p()
}

pub open spec fn cong2(x: Sp2, y: Sp2) -> bool {
    congi(x.c0, y.c0) && congi(x.c1, y.c1)
}

pub open spec fn cong6(x: Sp6, y: Sp6) -> bool {
    cong2(x.c0, y.c0) && cong2(x.c1, y.c1) && cong2(x.c2, y.c2)
}

pub open spec fn cong12(x: Sp12, y: Sp12) -> bool {
    cong6(x.c0, y.c0) && cong6(x.c1, y.c1)
}

pub open spec fn cani(x: int) -> bool {
    0 <= x < p()
}

pub open spec fn can2(x: Sp2) -> bool {
    cani(x.c0) && cani(x.c1)
}

pub open spec fn can6(x: Sp6) -> bool {
    can2(x.c0) && can2(x.c1) && can2(x.c2)
}

pub open spec fn can12(x: Sp12) -> bool {
    can6(x.c0) && can6(x.c1)
}

// ---------------------------------------------------------------------------
// Frobenius endomorphism.
// ---------------------------------------------------------------------------

/// Frobenius on Fp2: the p-power map is conjugation, so an even power is the
/// identity and an odd power negates the u-coordinate.
pub open spec fn rfrob2(x: Sp2, k: nat) -> Sp2 {
    if k % 2 == 0 {
        x
    } else {
        s2(x.c0, -x.c1)
    }
}

/// Frobenius coefficients on the v-coordinate of Fp6:
/// (u+1)^((p^i - 1)/3) for i = 0..5.
pub open spec fn f6c1(i: int) -> Sp2 {
    if i == 0 {
        s2(1, 0)
    } else if i == 1 {
        s2(0, lv6(0x8bfd00000000aaac, 0x409427eb4f49fffd, 0x897d29650fb85f9b,
            0xaa0d857d89759ad4, 0xec02408663d4de85, 0x1a0111ea397fe699))
    } else if i == 2 {
        s2(lv6(0x2e01fffffffefffe, 0xde17d813620a0002, 0xddb3a93be6f89688,
            0xba69c6076a0f77ea, 0x5f19672fdf76ce51, 0x0), 0)
    } else if i == 3 {
        s2(0, 1)
    } else if i == 4 {
        s2(lv6(0x8bfd00000000aaac, 0x409427eb4f49fffd, 0x897d29650fb85f9b,
            0xaa0d857d89759ad4, 0xec02408663d4de85, 0x1a0111ea397fe699), 0)
    } else {
        s2(0, lv6(0x2e01fffffffefffe, 0xde17d813620a0002, 0xddb3a93be6f89688,
            0xba69c6076a0f77ea, 0x5f19672fdf76ce51, 0x0))
    }
}

/// Frobenius coefficients on the v^2-coordinate of Fp6:
/// (u+1)^((2p^i - 2)/3) for i = 0..5.
pub open spec fn f6c2(i: int) -> Sp2 {
    if i == 0 {
        s2(1, 0)
    } else if i == 1 {
        s2(lv6(0x8bfd00000000aaad, 0x409427eb4f49fffd, 0x897d29650fb85f9b,
            0xaa0d857d89759ad4, 0xec02408663d4de85, 0x1a0111ea397fe699), 0)
    } else if i == 2 {
        s2(lv6(0x8bfd00000000aaac, 0x409427eb4f49fffd, 0x897d29650fb85f9b,
            0xaa0d857d89759ad4, 0xec02408663d4de85, 0x1a0111ea397fe699), 0)
    } else if i == 3 {
        s2(lv6(0xb9feffffffffaaaa, 0x1eabfffeb153ffff, 0x6730d2a0f6b0f624,
            0x64774b84f38512bf, 0x4b1ba7b6434bacd7, 0x1a0111ea397fe69a), 0)
    } else if i == 4 {
        s2(lv6(0x2e01fffffffefffe, 0xde17d813620a0002, 0xddb3a93be6f89688,
            0xba69c6076a0f77ea, 0x5f19672fdf76ce51, 0x0), 0)
    } else {
        s2(lv6(0x2e01fffffffeffff, 0xde17d813620a0002, 0xddb3a93be6f89688,
            0xba69c6076a0f77ea, 0x5f19672fdf76ce51, 0x0), 0)
    }
}

/// Frobenius coefficients on the w-coordinate of Fp12:
/// (u+1)^((p^i - 1)/6) for i = 0..11.
pub open spec fn f12c1(i: int) -> Sp2 {
    if i == 0 {
        s2(1, 0)
    } else if i == 1 {
        s2(lv6(0x8d0775ed92235fb8, 0xf67ea53d63e7813d, 0x7b2443d784bab9c4,
            0xfd603fd3cbd5f4f, 0xc231beb4202c0d1f, 0x1904d3bf02bb0667),
            lv6(0x2cf78a126ddc4af3, 0x282d5ac14d6c7ec2, 0xec0c8ec971f63c5f,
            0x54a14787b6c7b36f, 0x88e9e902231f9fb8, 0xfc3e2b36c4e032))
    } else if i == 2 {
        s2(lv6(0x2e01fffffffeffff, 0xde17d813620a0002, 0xddb3a93be6f89688,
            0xba69c6076a0f77ea, 0x5f19672fdf76ce51, 0x0), 0)
    } else if i == 3 {
        s2(lv6(0xf1ee7b04121bdea2, 0x304466cf3e67fa0a, 0xef396489f61eb45e,
            0x1c3dedd930b1cf60, 0xe2e9c448d77a2cd9, 0x135203e60180a68e),
            lv6(0xc81084fbede3cc09, 0xee67992f72ec05f4, 0x77f76e17009241c5,
            0x48395dabc2d3435e, 0x6831e36d6bd17ffe, 0x6af0e0437ff400b))
    } else if i == 4 {
        s2(lv6(0x2e01fffffffefffe, 0xde17d813620a0002, 0xddb3a93be6f89688,
            0xba69c6076a0f77ea, 0x5f19672fdf76ce51, 0x0), 0)
    } else if i == 5 {
        s2(lv6(0x1ee605167ff82995, 0x5871c1908bd478cd, 0xdb45f3536814f0bd,
            0x70df3560e77982d0, 0x6bd3ad4afa99cc91, 0x144e4211384586c1),
            lv6(0x9b18fae980078116, 0xc63a3e6e257f8732, 0x8beadf4d8e9c0566,
            0xf39816240c0b8fee, 0xdf47fa6b48b1e045, 0x5b2cfd9013a5fd8))
    } else if i == 6 {
        s2(lv6(0xb9feffffffffaaaa, 0x1eabfffeb153ffff, 0x6730d2a0f6b0f624,
            0x64774b84f38512bf, 0x4b1ba7b6434bacd7, 0x1a0111ea397fe69a), 0)
    } else if i == 7 {
        s2(lv6(0x2cf78a126ddc4af3, 0x282d5ac14d6c7ec2, 0xec0c8ec971f63c5f,
            0x54a14787b6c7b36f, 0x88e9e902231f9fb8, 0xfc3e2b36c4e032),
            lv6(0x8d0775ed92235fb8, 0xf67ea53d63e7813d, 0x7b2443d784bab9c4,
            0xfd603fd3cbd5f4f, 0xc231beb4202c0d1f, 0x1904d3bf02bb0667))
    } else if i == 8 {
        s2(lv6(0x8bfd00000000aaac, 0x409427eb4f49fffd, 0x897d29650fb85f9b,
            0xaa0d857d89759ad4, 0xec02408663d4de85, 0x1a0111ea397fe699), 0)
    } else if i == 9 {
        s2(lv6(0xc81084fbede3cc09, 0xee67992f72ec05f4, 0x77f76e17009241c5,
            0x48395dabc2d3435e, 0x6831e36d6bd17ffe, 0x6af0e0437ff400b),
            lv6(0xf1ee7b04121bdea2, 0x304466cf3e67fa0a, 0xef396489f61eb45e,
            0x1c3dedd930b1cf60, 0xe2e9c448d77a2cd9, 0x135203e60180a68e))
    } else if i == 10 {
        s2(lv6(0x8bfd00000000aaad, 0x409427eb4f49fffd, 0x897d29650fb85f9b,
            0xaa0d857d89759ad4, 0xec02408663d4de85, 0x1a0111ea397fe699), 0)
    } else {
        s2(lv6(0x9b18fae980078116, 0xc63a3e6e257f8732, 0x8beadf4d8e9c0566,
            0xf39816240c0b8fee, 0xdf47fa6b48b1e045, 0x5b2cfd9013a5fd8),
            lv6(0x1ee605167ff82995, 0x5871c1908bd478cd, 0xdb45f3536814f0bd,
            0x70df3560e77982d0, 0x6bd3ad4afa99cc91, 0x144e4211384586c1))
    }
}

/// Frobenius on Fp6: coordinate-wise Fp2 Frobenius, with the v and v^2
/// coordinates scaled by the matching table entries.
pub open spec fn rfrob6(x: Sp6, k: nat) -> Sp6 {
    Sp6 {
        c0: rfrob2(x.c0, k),
        c1: rmul2(rfrob2(x.c1, k), f6c1((k % 6) as int)),
        c2: rmul2(rfrob2(x.c2, k), f6c2((k % 6) as int)),
    }
}

/// Frobenius on Fp12: coordinate-wise Fp6 Frobenius, with every Fp2
/// sub-coordinate of c1 scaled by the matching table entry.
pub open spec fn rfrob12(x: Sp12, k: nat) -> Sp12 {
    Sp12 {
        c0: rfrob6(x.c0, k),
        c1: rscale6(rfrob6(x.c1, k), f12c1((k % 12) as int)),
    }
}

// ---------------------------------------------------------------------------
// Derived predicates.
// ---------------------------------------------------------------------------

/// Membership in the cyclotomic subgroup: a^(p^4 - p^2 + 1) == 1.  Zero
/// fails the power condition, and on nonzero elements the condition is
/// equivalent to the Frobenius identity frob^4(a) * a == frob^2(a), which is
/// how membership is decided without an exponentiation.
pub open spec fn spec_is_cyc(x: Sp12) -> bool {
    !cong12(x, zero12()) && cong12(rmul12(rfrob12(x, 4), x), rfrob12(x, 2))
}

/// Whether an Fp2 value is invertible: its norm is not divisible by p.
pub open spec fn inv2able(x: Sp2) -> bool {
    (x.c0 * x.c0 + x.c1 * x.c1) % p() != 0
}

/// Numerator of the recovered g1 coordinate in the coordinate-drop scheme:
/// 3*g4^2 - 2*g3 + (u+1)*g5^2, assembled as the reconstruction computes it.
pub open spec fn back_g1_num(g3: Sp2, g4: Sp2, g5: Sp2) -> Sp2 {
    radd2(
        rnr2(rmul2(g5, g5)),
        radd2(
            radd2(rsub2(rmul2(g4, g4), g3), rsub2(rmul2(g4, g4), g3)),
            rmul2(g4, g4),
        ),
    )
}

/// Denominator of the recovered g1 coordinate: 4*g2.
pub open spec fn back_g1_den(g2: Sp2) -> Sp2 {
    radd2(radd2(g2, g2), radd2(g2, g2))
}

/// The recovered g0 coordinate: (u+1)*(2*g1^2 - 3*g3*g4 + g2*g5) + 1,
/// assembled as the reconstruction computes it.
pub open spec fn back_g0(g1: Sp2, g2: Sp2, g3: Sp2, g4: Sp2, g5: Sp2) -> Sp2 {
    radd2(
        rnr2(radd2(
            rsub2(
                radd2(
                    rsub2(rmul2(g1, g1), rmul2(g3, g4)),
                    rsub2(rmul2(g1, g1), rmul2(g3, g4)),
                ),
                rmul2(g3, g4),
            ),
            rmul2(g2, g5),
        )),
        one2(),
    )
}

/// The adjugate coordinates used by Fp6 inversion:
/// (c0^2 - (u+1) c1 c2, (u+1) c2^2 - c0 c1, c1^2 - c0 c2).
pub open spec fn adj6(x: Sp6) -> Sp6 {
    Sp6 {
        c0: rsub2(rmul2(x.c0, x.c0), rnr2(rmul2(x.c1, x.c2))),
        c1: rsub2(rnr2(rmul2(x.c2, x.c2)), rmul2(x.c0, x.c1)),
        c2: rsub2(rmul2(x.c1, x.c1), rmul2(x.c0, x.c2)),
    }
}

/// The Fp2 value inverted during Fp6 inversion:
/// c0 * adj.c0 + (u+1)(c2 * adj.c1 + c1 * adj.c2).
pub open spec fn inv_t6(x: Sp6) -> Sp2 {
    radd2(
        rmul2(x.c0, adj6(x).c0),
        rnr2(radd2(rmul2(x.c2, adj6(x).c1), rmul2(x.c1, adj6(x).c2))),
    )
}

/// Whether the norm method can invert an Fp6 value.  On every nonzero field
/// element this holds; the verifier is not told that, so it is tracked as an
/// explicit condition.
pub open spec fn inv6able(x: Sp6) -> bool {
    inv2able(inv_t6(x))
}

/// The Fp6 value inverted during Fp12 inversion: c0^2 - v c1^2.
pub open spec fn inv_d12(x: Sp12) -> Sp6 {
    rsub6(rmul6(x.c0, x.c0), rnr6(rmul6(x.c1, x.c1)))
}

/// Whether the norm method can invert an Fp12 value.
pub open spec fn inv12able(x: Sp12) -> bool {
    inv6able(inv_d12(x))
}

/// Some inverse of an Fp2 value: meaningful when the value is invertible,
/// and then unique up to congruence.
pub open spec fn sinv2(x: Sp2) -> Sp2 {
    choose|b: Sp2| cong2(rmul2(x, b), one2())
}

/// Some inverse of an Fp12 value, unique up to congruence when it exists.
pub open spec fn sinv12(x: Sp12) -> Sp12 {
    choose|b: Sp12| cong12(rmul12(x, b), one12())
}

/// The element that back-cycle reconstruction rebuilds from the four kept
/// coordinates: g4, g3 in the c0 slots, g2, g5 in the c1 slots, the
/// recovered g1 = back_g1_num / back_g1_den and g0 derived from it.
pub open spec fn back_cycle(g2: Sp2, g3: Sp2, g4: Sp2, g5: Sp2) -> Sp12 {
    let g1 = rmul2(back_g1_num(g3, g4, g5), sinv2(back_g1_den(g2)));
    Sp12 {
        c0: Sp6 { c0: back_g0(g1, g2, g3, g4, g5), c1: g4, c2: g3 },
        c1: Sp6 { c0: g2, c1: g1, c2: g5 },
    }
}

/// The element that torus decompression rebuilds: (b + w) / (b - w).
pub open spec fn torus_rec(b: Sp6) -> Sp12 {
    rmul12(Sp12 { c0: b, c1: one6() }, sinv12(Sp12 { c0: b, c1: rneg6(one6()) }))
}

} // verus!
