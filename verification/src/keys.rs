//! The homomorphic cryptosystem, as provided by the `kzen-paillier` crate.
//!
//! A session owns one freshly generated Paillier keypair.  The keys are
//! opaque: the spec function [`ek_modulus`] names the public modulus `n` of an
//! encryption key, [`dec_value`] names what a ciphertext value decrypts to
//! under a decryption key, and [`paired`] names the relation between the two
//! keys of one generated pair.  Encryption is randomized, so no spec function
//! names a ciphertext; the encryption wrapper instead states what holds of
//! every outcome: the ciphertext lies in the ciphertext space and decrypts,
//! under any key paired with the encryption key, to the plaintext.

use vstd::prelude::*;
use vstd::arithmetic::power::pow;
use curv::BigInt;
use kzen_paillier::{Paillier, EncryptionKey, DecryptionKey, RawPlaintext, RawCiphertext};
use kzen_paillier::{KeyGeneration, Encrypt, Decrypt};
use crate::arith::{big_value, big_from_u64, big_mul, big_lt};
use crate::master::p256_prime;

verus! {

#[verifier::external_type_specification]
#[verifier::external_body]
pub struct ExEncryptionKey(EncryptionKey);

#[verifier::external_type_specification]
#[verifier::external_body]
pub struct ExDecryptionKey(DecryptionKey);

/// The public modulus `n` of a Paillier encryption key.
pub uninterp spec fn ek_modulus(ek: EncryptionKey) -> int;

/// The plaintext that the ciphertext value `c` decrypts to under `dk`.
pub uninterp spec fn dec_value(dk: DecryptionKey, c: int) -> int;

/// The two keys were produced by one keypair generation, so decryption under
/// `dk` inverts encryption under `ek`.
pub uninterp spec fn paired(ek: EncryptionKey, dk: DecryptionKey) -> bool;

/// `c` lies in the Paillier ciphertext space of a key with modulus `n`:
/// the multiplicative group modulo `n^2`, excluding zero.
pub open spec fn in_ciphertext_space(c: int, n: int) -> bool {
    0 < c < n * n
}

/// Relies on `Paillier::keypair` (`kzen-paillier`), which samples two fresh
/// 1024-bit primes, each with its top bit set, so the modulus `n = p * q`
/// exceeds `2^2046` — far above both the P-256 field prime (below `2^256`)
/// and `256^32 = 2^256`, the bounds needed of every plaintext this protocol
/// encrypts.  `keys` derives the encryption and decryption key of the pair.
#[verifier::external_body]
pub(crate) fn generate_keypair() -> (r: (EncryptionKey, DecryptionKey))
    ensures
        paired(r.0, r.1),
        ek_modulus(r.0) > p256_prime(),
        ek_modulus(r.0) > pow(256, 32),
{
    Paillier::keypair().keys()
}

/// Relies on `Clone` for `kzen-paillier`'s `EncryptionKey`: a field copy.
#[verifier::external_body]
pub(crate) fn clone_encryption_key(ek: &EncryptionKey) -> (r: EncryptionKey)
    ensures
        r == *ek,
{
    ek.clone()
}

/// Relies on `kzen-paillier`'s `EncryptionKey`: its public field `n` is the
/// key's modulus.
#[verifier::external_body]
pub(crate) fn modulus_of(ek: &EncryptionKey) -> (r: BigInt)
    ensures
        big_value(r) == ek_modulus(*ek),
{
    ek.n.clone()
}

/// Relies on `Paillier::encrypt` (`kzen-paillier`): the ciphertext is
/// `g^m * r^n mod n^2` for a freshly sampled randomness `r`, which lies in
/// the ciphertext space and decrypts to `m` under the paired decryption key.
/// (Correctness of decryption assumes the sampled randomness is a unit
/// modulo `n`, which holds of all but a negligible fraction of draws.)
#[verifier::external_body]
pub(crate) fn encrypt(ek: &EncryptionKey, m: &BigInt) -> (c: BigInt)
    requires
        0 <= big_value(*m) < ek_modulus(*ek),
    ensures
        in_ciphertext_space(big_value(c), ek_modulus(*ek)),
        forall|dk: DecryptionKey|
            paired(*ek, dk) ==> #[trigger] dec_value(dk, big_value(c)) == big_value(*m),
{
    Paillier::encrypt(ek, RawPlaintext::from(m)).into()
}

/// Relies on `Paillier::decrypt` (`kzen-paillier`), which reduces the
/// ciphertext modulo `p^2` and `q^2`, exponentiates, and recombines by the
/// Chinese remainder theorem: for the distinct-prime key of a generated
/// pair it is total on non-negative inputs and returns a non-negative
/// plaintext.  (On a malformed key, decryption's internal modular inverses
/// need not exist; the `requires` admits only keys from a generated pair.)
#[verifier::external_body]
pub(crate) fn decrypt_raw(dk: &DecryptionKey, c: &BigInt) -> (m: BigInt)
    requires
        exists|ek: EncryptionKey| #[trigger] paired(ek, *dk),
        big_value(*c) >= 0,
    ensures
        big_value(m) == dec_value(*dk, big_value(*c)),
        big_value(m) >= 0,
{
    Paillier::decrypt(dk, RawCiphertext::from(c)).into()
}

/// Decrypts a ciphertext received from the peer, first checking that it lies
/// in the ciphertext space of this session's key.  A value outside that space
/// was not produced by a valid encryption under the session's key and is
/// rejected rather than decrypted.
pub(crate) fn checked_decrypt(ek: &EncryptionKey, dk: &DecryptionKey, c: &BigInt) -> (r: Option<
    BigInt,
>)
    requires
        paired(*ek, *dk),
    ensures
        r is Some <==> in_ciphertext_space(big_value(*c), ek_modulus(*ek)),
        r matches Some(m) ==> big_value(m) == dec_value(*dk, big_value(*c)) && big_value(m) >= 0,
{
    let zero = big_from_u64(0);
    let n = modulus_of(ek);
    let nn = big_mul(&n, &n);
    if big_lt(&zero, c) && big_lt(c, &nn) {
        Some(decrypt_raw(dk, c))
    } else {
        None
    }
}

} // verus!
