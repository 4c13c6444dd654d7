//! The message shapes exchanged over the four protocol rounds.
//!
//! `M1`, `M2` and `M3` travel from the master to the peer; `S1`, `S2` and
//! `S3` travel from the peer to the master.  Every field of an outbound
//! message is either the session's public encryption key or a Paillier
//! ciphertext under it — the round contracts in [`crate::master`] state this
//! — and never a coordinate or intermediate value in the clear.

use vstd::prelude::*;
use curv::BigInt;
use kzen_paillier::EncryptionKey;

verus! {

/// Round-1 outbound message.
pub struct M1 {
    /// Master's encryption key, shared so the peer can operate homomorphically.
    pub enc_key: EncryptionKey,
    /// Ciphertext of the master's x-coordinate.
    pub e_x_q: BigInt,
    /// Ciphertext of the additive inverse of the x-coordinate, modulo p.
    pub e_neg_x_q: BigInt,
    /// Ciphertext of the square of the y-coordinate, modulo p.
    pub e_y_q_pow_2: BigInt,
    /// Ciphertext of twice the additive inverse of the y-coordinate, modulo p.
    pub e_neg_2_y_q: BigInt,
}

/// Round-2 outbound message.
pub struct M2 {
    /// Ciphertext of the inverse-of-square result.
    pub e_t_mod_pow: BigInt,
}

/// Round-3 outbound message.
pub struct M3 {
    /// Ciphertext of the combined product.
    pub e_ab_masked: BigInt,
}

/// Round-2 inbound message.
pub struct S1 {
    /// Ciphertext of the peer-blinded value "A".
    pub e_a_masked: BigInt,
    /// Plaintext correction scalar for "A".
    pub n_a_mod_p: BigInt,
    /// Ciphertext of the peer-blinded value "T".
    pub e_t_masked: BigInt,
    /// Plaintext correction scalar for "T".
    pub n_t_mod_p: BigInt,
}

/// Round-3 inbound message.
pub struct S2 {
    /// Ciphertext of the peer-blinded value "B".
    pub e_b_masked: BigInt,
    /// Plaintext correction scalar for "B".
    pub n_b_mod_p: BigInt,
}

/// Round-4 inbound message.
pub struct S3 {
    /// Ciphertext of the final combined value.
    pub e_pms_masked: BigInt,
}

} // verus!
