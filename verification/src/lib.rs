//! BLS signatures over BLS12-381 with proofs of possession that are bound to
//! the position of a key in a registry, and the rogue key that breaks them.
//!
//! The arithmetic of the curve is that of the arkworks crates. This crate
//! holds points and scalars as plain bytes and limbs, states what each
//! operation of the curve does to the exponents of the points, and proves from
//! that what the scheme accepts: honest proofs and signatures, and also the
//! key, the proof and the signature of a newcomer who holds no secret of the
//! key it registers.
pub mod algebra;
pub mod number_theory;
pub mod certificate;
pub mod error;
pub mod scalar;
pub mod g1;
pub mod g2;
pub mod pairing;
pub mod hash;
pub mod keys;
pub mod pok;
pub mod bls;
pub mod registry;
pub mod attack;
