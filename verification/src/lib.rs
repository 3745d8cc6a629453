//! The degree-12 extension field used by pairings over BLS12-381, with two
//! compression schemes for its cyclotomic subgroup.
//!
//! The tower is Fp2 = Fp[u]/(u^2+1), Fp6 = Fp2[v]/(v^3-(u+1)),
//! Fp12 = Fp6[w]/(w^2-v).  `model` holds the integer model that every
//! contract is stated against; `lemmas` and `ring6` prove its congruence and
//! ring laws; `fp` consumes the base prime field as a trusted interface;
//! `fp2`, `fp6`, `tables` and `fp12` build the verified tower on top of it;
//! `laws` states the field laws of the model.
pub mod fp;
pub mod fp2;
pub mod fp6;
pub mod fp12;
pub mod laws;
pub mod lemmas;
pub mod model;
pub mod ring6;
pub mod tables;
