//! Obfuscated 32-bit identifiers.
//!
//! An [`Id32`] is derived from a sequential seed by a reversible mixing step
//! — add a constant, multiply by an odd constant, flip a mask of bits — so
//! that consecutive seeds yield scattered identifier values. The two multiply
//! constants are multiplicative inverses modulo 2^32, which makes the mapping
//! a bijection: [`Id32::get_seed`] recovers the seed exactly.

use vstd::prelude::*;

verus! {

pub const ID_MASK: u32 = 0b10100110_01101010_01001010_10101010;

pub const ID_ADD: u32 = 2740160927;

// These two numbers are multiplicative inverses mod 2^32.
pub const ID_MUL_TO: u32 = 0x01000193;

pub const ID_MUL_FROM: u32 = 0x359c449b;

/// An obfuscated identifier carrying a 32-bit seed.
#[derive(Debug, Clone, Copy, PartialEq, Eq, Structural)]
pub struct Id32(pub u32);

/// The mixing step: what identifier value a seed maps to.
pub open spec fn from_seed_spec(seed: u32) -> u32 {
    seed.wrapping_add(ID_ADD).wrapping_mul(ID_MUL_FROM) ^ ID_MASK
}

/// The unmixing step: what seed an identifier value maps back to.
pub open spec fn get_seed_spec(id: u32) -> u32 {
    (id ^ ID_MASK).wrapping_mul(ID_MUL_TO).wrapping_sub(ID_ADD)
}

impl Id32 {
    /// Derive the identifier for a seed.
    pub fn from_seed(seed: u32) -> (r: Id32)
        ensures
            r.0 == from_seed_spec(seed),
    {
        let s3 = seed.wrapping_add(ID_ADD);
        let s2 = s3.wrapping_mul(ID_MUL_FROM);
        let s1 = s2 ^ ID_MASK;
        Id32(s1)
    }

    /// Recover the seed an identifier was derived from.
    pub fn get_seed(self) -> (r: u32)
        ensures
            r == get_seed_spec(self.0),
    {
        let s1 = self.0 ^ ID_MASK;
        let s2 = s1.wrapping_mul(ID_MUL_TO);
        let s3 = s2.wrapping_sub(ID_ADD);
        s3
    }
}

/// The mixing step is reversible: recovering the seed of a derived
/// identifier gives back the seed, for every seed.
pub proof fn lemma_id32_round_trip(seed: u32)
    ensures
        get_seed_spec(from_seed_spec(seed)) == seed,
{
    assert(get_seed_spec(from_seed_spec(seed)) == seed) by (bit_vector);
}

/// The unmixing step is reversible too: deriving an identifier from a
/// recovered seed gives back the identifier value, for every value.
pub proof fn lemma_id32_round_trip_back(id: u32)
    ensures
        from_seed_spec(get_seed_spec(id)) == id,
{
    assert(from_seed_spec(get_seed_spec(id)) == id) by (bit_vector);
}

} // verus!
