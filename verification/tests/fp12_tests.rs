use ark_bls12_381::{Bls12_381, Fq, Fq12, G1Projective, G2Projective};
use ark_ec::pairing::Pairing;
use ark_ec::CurveGroup;
use ark_ff::{BigInt, Field, PrimeField, UniformRand};
use rand_core::SeedableRng;
use rand_xorshift::XorShiftRng;

use fp12_tower::fp::Fp;
use fp12_tower::fp12::{Fp12, Fp12Compressed, Fp12Compressed2};
use fp12_tower::fp2::Fp2;
use fp12_tower::fp6::Fp6;

const SEED: [u8; 16] = [
    0x59, 0x62, 0xbe, 0x5d, 0x76, 0x3d, 0x31, 0x8d, 0x17, 0xdb, 0x37, 0x32, 0x54, 0x06, 0xbc,
    0xe5,
];

fn fq_to_fp(x: Fq) -> Fp {
    let l = x.into_bigint().0;
    Fp::from_limbs(l[0], l[1], l[2], l[3], l[4], l[5]).unwrap()
}

fn fp_to_fq(x: &Fp) -> Fq {
    let l = x.limbs();
    Fq::from_bigint(BigInt([l.0, l.1, l.2, l.3, l.4, l.5])).unwrap()
}

fn fq12_to_fp12(x: &Fq12) -> Fp12 {
    let f2 = |y: ark_bls12_381::Fq2| Fp2::new(fq_to_fp(y.c0), fq_to_fp(y.c1));
    let f6 = |y: ark_bls12_381::Fq6| Fp6::new(f2(y.c0), f2(y.c1), f2(y.c2));
    Fp12::new(f6(x.c0), f6(x.c1))
}

fn fp12_to_fq12(x: &Fp12) -> Fq12 {
    let f2 = |y: &Fp2| ark_bls12_381::Fq2::new(fp_to_fq(&y.c0), fp_to_fq(&y.c1));
    let f6 =
        |y: &Fp6| ark_bls12_381::Fq6::new(f2(&y.c0), f2(&y.c1), f2(&y.c2));
    Fq12::new(f6(&x.c0()), f6(&x.c1()))
}

fn random_fp12(rng: &mut XorShiftRng) -> Fp12 {
    fq12_to_fp12(&Fq12::rand(rng))
}

fn pairing_fp12(rng: &mut XorShiftRng) -> Fp12 {
    let p = G1Projective::rand(rng).into_affine();
    let q = G2Projective::rand(rng).into_affine();
    let a = Bls12_381::pairing(p, q);
    fq12_to_fp12(&a.0)
}

#[test]
fn test_fp12_eq() {
    assert_eq!(Fp12::one(), Fp12::one());
    assert_eq!(Fp12::zero(), Fp12::zero());
    assert_ne!(Fp12::zero(), Fp12::one());
}

#[test]
fn fp12_random_frobenius_tests() {
    let mut rng = XorShiftRng::from_seed(SEED);
    for _ in 0..20 {
        let x = Fq12::rand(&mut rng);
        let a = fq12_to_fp12(&x);
        for i in 0..13 {
            let mut ours = a;
            ours.frobenius_map(i);
            let theirs = x.frobenius_map(i);
            assert_eq!(ours, fq12_to_fp12(&theirs));
        }
    }
}

#[test]
fn fp12_random_field_tests() {
    let mut rng = XorShiftRng::from_seed(SEED);
    let zero = Fp12::zero();
    let one = Fp12::one();
    assert!(zero.is_zero());
    assert!(!one.is_zero());
    assert_eq!(zero.inverse(), None);
    assert_eq!(one.inverse(), Some(one));
    for _ in 0..10 {
        let a = random_fp12(&mut rng);
        let b = random_fp12(&mut rng);
        let c = random_fp12(&mut rng);
        // addition laws
        assert_eq!(a.add(&b), b.add(&a));
        assert_eq!(a.add(&b).add(&c), a.add(&b.add(&c)));
        assert_eq!(a.add(&zero), a);
        assert_eq!(a.add(&a.neg()), zero);
        assert_eq!(a.sub(&b), a.add(&b.neg()));
        // multiplication laws
        assert_eq!(a.mul(&b), b.mul(&a));
        assert_eq!(a.mul(&b).mul(&c), a.mul(&b.mul(&c)));
        assert_eq!(a.mul(&b.add(&c)), a.mul(&b).add(&a.mul(&c)));
        assert_eq!(a.mul(&one), a);
        assert_eq!(a.mul(&zero), zero);
        // doubling and squaring
        let mut d = a;
        d.double();
        assert_eq!(d, a.add(&a));
        let mut s = a;
        s.square();
        assert_eq!(s, a.mul(&a));
        // inversion
        let inv = a.inverse().expect("a random element is invertible");
        assert_eq!(a.mul(&inv), one);
        // in-place forms agree with the value forms
        let mut t = a;
        t.add_assign(&b);
        assert_eq!(t, a.add(&b));
        let mut t = a;
        t.sub_assign(&b);
        assert_eq!(t, a.sub(&b));
        let mut t = a;
        t.mul_assign(&b);
        assert_eq!(t, a.mul(&b));
        let mut t = a;
        t.negate();
        assert_eq!(t, a.neg());
    }
}

#[test]
fn fp12_compression() {
    let mut rng = XorShiftRng::from_seed(SEED);
    for i in 0..100 {
        let a = random_fp12(&mut rng);
        // usually not cyclotomic, so not compressable
        if let Some(b) = a.compress() {
            let c = b.uncompress().unwrap();
            assert_eq!(a, c, "{}", i);
        } else {
            println!("skipping {}", i);
        }

        // pairing result, should be compressable
        if i % 10 == 0 {
            let a = pairing_fp12(&mut rng);
            assert!(a.is_cyc());

            let b = a.compress().unwrap();
            let c = b.uncompress().unwrap();
            assert_eq!(a, c, "{}", i);
        }
    }
}

#[test]
fn fp12_compression2() {
    let mut rng = XorShiftRng::from_seed(SEED);
    for i in 0..100 {
        let a = random_fp12(&mut rng);
        // usually not cyclotomic, so not compressable
        if let Some(b) = a.compress2() {
            let c = b.uncompress().unwrap();
            assert_eq!(a, c, "{}", i);
        } else {
            println!("skipping {}", i);
        }

        // pairing result, should be compressable
        if i % 10 == 0 {
            let a = pairing_fp12(&mut rng);
            assert!(a.is_cyc());

            let b = a.compress2().unwrap();
            let c = b.uncompress().unwrap();
            assert_eq!(a, c, "{}", i);
        }
    }
}

#[test]
fn fp12_one_is_cyclotomic() {
    let one = Fp12::one();
    assert!(one.is_cyc());
    // The identity compresses under the coordinate-drop scheme, but its g2
    // coordinate is zero, so the reconstruction's 4*g2 inversion refuses it.
    let c = one.compress().unwrap();
    assert_eq!(c.uncompress(), None);
    // Its c1 coordinate is zero, so the torus scheme refuses it outright.
    assert!(one.compress2().is_none());
}

#[test]
fn fp12_zero_is_not_cyclotomic() {
    // zero^(p^4 - p^2 + 1) is zero, not one, so zero is outside the
    // subgroup and neither scheme accepts it.
    let zero = Fp12::zero();
    assert!(!zero.is_cyc());
    assert_eq!(zero.compress(), None);
    assert!(zero.compress2().is_none());
    assert_eq!(zero.inverse(), None);
}

#[test]
fn fp12_noncyclotomic_is_refused() {
    let mut rng = XorShiftRng::from_seed(SEED);
    let mut refused = 0;
    for _ in 0..20 {
        let a = random_fp12(&mut rng);
        if !a.is_cyc() {
            assert_eq!(a.compress(), None);
            assert!(a.compress2().is_none());
            refused += 1;
        }
    }
    assert!(refused > 0);
}

#[test]
fn fp12_malformed_compressed_is_refused() {
    // All-zero coordinates make the 4*g2 denominator non-invertible.
    let z = Fp2::zero();
    let bad = Fp12Compressed { g4: z, g3: z, g2: z, g5: z };
    assert_eq!(bad.uncompress(), None);
    // The all-zero torus form decompresses to -1, which is not cyclotomic.
    let bad2 = Fp12Compressed2 { b: Fp6::zero() };
    assert_eq!(bad2.uncompress(), None);
}

#[test]
fn fp12_frobenius_composition_samples() {
    let mut rng = XorShiftRng::from_seed(SEED);
    for _ in 0..5 {
        let a = random_fp12(&mut rng);
        let mut t = a;
        t.frobenius_map(12);
        assert_eq!(t, a);
        for i in 0..4 {
            for j in 0..4 {
                let mut x = a;
                x.frobenius_map(i);
                x.frobenius_map(j);
                let mut y = a;
                y.frobenius_map((i + j) % 12);
                assert_eq!(x, y);
            }
        }
    }
}

#[test]
fn fp2_base_arithmetic_vectors() {
    // 2 * 3 == 6 in the base field, through the Fp2 layer.
    let fp = |v: u64| Fp::from_limbs(v, 0, 0, 0, 0, 0).unwrap();
    let two = Fp2::new(fp(2), Fp::zero());
    let three = Fp2::new(fp(3), Fp::zero());
    assert_eq!(two.mul(&three), Fp2::new(fp(6), Fp::zero()));
    // u * u == -1: the real part is p - 1.
    let u = Fp2::new(Fp::zero(), fp(1));
    let p_minus_one = Fp::from_limbs(
        0xb9feffffffffaaaa,
        0x1eabfffeb153ffff,
        0x6730d2a0f6b0f624,
        0x64774b84f38512bf,
        0x4b1ba7b6434bacd7,
        0x1a0111ea397fe69a,
    )
    .unwrap();
    assert_eq!(u.mul(&u), Fp2::new(p_minus_one, Fp::zero()));
    // The modulus itself is not a canonical element.
    assert!(Fp::from_limbs(
        0xb9feffffffffaaab,
        0x1eabfffeb153ffff,
        0x6730d2a0f6b0f624,
        0x64774b84f38512bf,
        0x4b1ba7b6434bacd7,
        0x1a0111ea397fe69a,
    )
    .is_none());
}
