//! The master party's protocol state machine.
//!
//! A session is constructed from the master's elliptic-curve point and then
//! advanced one round at a time.  Each round consumes the session value of
//! the previous state and produces the next one, so each round can happen
//! only once and only in order — skipping or repeating a round is a
//! compile-time impossibility, not a runtime check.  The terminal state
//! yields the shared secret, a value in `[0, p)` for the P-256 field
//! prime `p`.

use vstd::prelude::*;
use vstd::arithmetic::power::pow;
use curv::BigInt;
use kzen_paillier::{EncryptionKey, DecryptionKey};
use crate::arith::{
    big_value, lemma_be_bytes_value_bounds, big_from_bytes, big_from_u64, big_add, big_mul,
    big_mod_sub, big_mod_mul, big_mod_pow, big_rem,
};
use crate::keys::{
    ek_modulus, dec_value, paired, in_ciphertext_space, generate_keypair, clone_encryption_key,
    encrypt, decrypt_raw, checked_decrypt,
};
use crate::messages::{M1, M2, M3, S1, S2, S3};
use crate::point::Point;

verus! {

/// The NIST P-256 field prime,
/// `2^256 - 2^224 + 2^192 + 2^96 - 1`, written in base `2^64`.
pub open spec fn p256_prime() -> int {
    ((0xffffffff00000001int * 0x10000000000000000 + 0x0000000000000000) * 0x10000000000000000
        + 0x00000000ffffffff) * 0x10000000000000000 + 0xffffffffffffffff
}

/// Builds the P-256 field prime as a big integer, limb by limb.
pub fn p256_modulus() -> (r: BigInt)
    ensures
        big_value(r) == p256_prime(),
{
    let two_32 = big_from_u64(0x100000000);
    let base = big_mul(&two_32, &two_32);
    let l3 = big_from_u64(0xffffffff00000001);
    let l2 = big_from_u64(0x0000000000000000);
    let l1 = big_from_u64(0x00000000ffffffff);
    let l0 = big_from_u64(0xffffffffffffffff);
    let t3 = big_mul(&l3, &base);
    let t2 = big_mul(&big_add(&t3, &l2), &base);
    let t1 = big_mul(&big_add(&t2, &l1), &base);
    let t0 = big_add(&t1, &l0);
    t0
}

/// The shared secret derived by a completed session.
pub type SecretShare = BigInt;

/// How a session can fail.
#[derive(Clone, Copy, Debug, PartialEq, Eq, Structural)]
pub enum SecretShareError {
    /// The construction input lacks an extractable 32-byte coordinate
    /// (compressed or malformed encoding).
    InvalidPoint,
    /// An inbound ciphertext does not lie in the ciphertext space of the
    /// session's key, so it was not produced by a valid encryption under it.
    DecryptionError,
}

/// Holds the master's coordinates; the session's initial state.
pub struct Initialized {
    /// X coordinate of master's secret point.
    x: BigInt,
    /// Y coordinate of master's secret point.
    y: BigInt,
}

/// The state after round 1: a marker only.
pub struct StepOne;

/// The state after round 2: retains one intermediate value for round 3.
pub struct StepTwo {
    /// The demasked-but-still-peer-blinded value `A * M_A mod p`.
    a_masked_mod_p: BigInt,
}

/// The state after round 3: a marker only.
pub struct StepThree;

/// The terminal state, holding the derived shared secret.
pub struct Complete {
    /// Master's secret, in `[0, p)`.
    secret: BigInt,
}

/// The states a session moves through, in this order:
/// `Initialized`, `StepOne`, `StepTwo`, `StepThree`, `Complete`.
pub trait State {

}

impl State for Initialized {

}

impl State for StepOne {

}

impl State for StepTwo {

}

impl State for StepThree {

}

impl State for Complete {

}

/// One run of the master's half of the secret-sharing protocol.
pub struct SecretShareMasterCore<S> where S: State {
    /// NIST P-256 field prime.
    p: BigInt,
    /// Current state of the secret-share protocol.
    state: S,
    /// Master's Paillier encryption key.
    enc_key: EncryptionKey,
    /// Master's Paillier decryption key; never leaves the session.
    dec_key: DecryptionKey,
}

impl<S: State> SecretShareMasterCore<S> {
    /// The session's public prime modulus.
    pub closed spec fn modulus(self) -> int {
        big_value(self.p)
    }

    /// The modulus of the session's Paillier encryption key.
    pub closed spec fn key_modulus(self) -> int {
        ek_modulus(self.enc_key)
    }

    /// What the ciphertext value `c` decrypts to under the session's key.
    pub closed spec fn dec(self, c: int) -> int {
        dec_value(self.dec_key, c)
    }

    /// The session's encryption key is `ek`.
    pub closed spec fn has_enc_key(self, ek: EncryptionKey) -> bool {
        self.enc_key == ek
    }

    /// The session invariant: the modulus is the P-256 field prime and the
    /// keys are a freshly generated Paillier pair whose modulus exceeds
    /// every plaintext this protocol encrypts.
    pub closed spec fn wf(self) -> bool {
        &&& self.modulus() == p256_prime()
        &&& paired(self.enc_key, self.dec_key)
        &&& self.key_modulus() > p256_prime()
        &&& self.key_modulus() > pow(256, 32)
    }

    /// `c` lies in the ciphertext space of the session's key.
    pub open spec fn is_ciphertext(self, c: int) -> bool {
        in_ciphertext_space(c, self.key_modulus())
    }

    /// Encrypting any value below the field prime under the session's
    /// keypair and then decrypting it under the same keypair returns the
    /// value unchanged.
    pub fn encrypt_decrypt_identity(&self, v: &BigInt) -> (r: BigInt)
        requires
            self.wf(),
            0 <= big_value(*v) < p256_prime(),
        ensures
            big_value(r) == big_value(*v),
    {
        let c = encrypt(&self.enc_key, v);
        decrypt_raw(&self.dec_key, &c)
    }
}

/// Two session values carry the same prime and the same keypair; each round
/// carries them forward unchanged.
pub closed spec fn same_session<A: State, B: State>(
    a: SecretShareMasterCore<A>,
    b: SecretShareMasterCore<B>,
) -> bool {
    a.p == b.p && a.enc_key == b.enc_key && a.dec_key == b.dec_key
}

/// What `same_session` preserves: the modulus, the key modulus, decryption,
/// and the session invariant.
pub proof fn lemma_same_session<A: State, B: State>(
    a: SecretShareMasterCore<A>,
    b: SecretShareMasterCore<B>,
)
    requires
        same_session(a, b),
    ensures
        a.modulus() == b.modulus(),
        a.key_modulus() == b.key_modulus(),
        a.wf() == b.wf(),
        forall|c: int| #[trigger] a.dec(c) == b.dec(c),
        forall|ek: EncryptionKey| #[trigger] a.has_enc_key(ek) == b.has_enc_key(ek),
{
}

/// The final secret is a function of the session's keys and the round-4
/// ciphertext value alone: two completed sessions with the same keys that
/// consumed the same final ciphertext value hold equal secrets.
pub proof fn lemma_secret_deterministic(
    a: SecretShareMasterCore<Complete>,
    b: SecretShareMasterCore<Complete>,
    c: int,
)
    requires
        same_session(a, b),
        a.secret_value() == a.dec(c) % p256_prime(),
        b.secret_value() == b.dec(c) % p256_prime(),
    ensures
        a.secret_value() == b.secret_value(),
{
}

impl SecretShareMasterCore<Initialized> {
    /// The integer value of the master's x-coordinate.
    pub closed spec fn x(self) -> int {
        big_value(self.state.x)
    }

    /// The integer value of the master's y-coordinate.
    pub closed spec fn y(self) -> int {
        big_value(self.state.y)
    }

    /// The coordinates were read from 32-byte strings.
    pub closed spec fn coords_bounded(self) -> bool {
        &&& 0 <= self.x() < pow(256, 32)
        &&& 0 <= self.y() < pow(256, 32)
    }

    /// Opens a session: generates a fresh Paillier keypair, converts the
    /// point's coordinate bytes to big integers, and fixes the public prime
    /// modulus.  Fails with `InvalidPoint` — eagerly, creating no session —
    /// exactly when the point lacks one of its 32-byte coordinates.
    pub fn new(point: &Point) -> (r: Result<Self, SecretShareError>)
        ensures
            r is Ok <==> point.is_valid(),
            r matches Ok(core) ==> {
                &&& core.wf()
                &&& core.coords_bounded()
                &&& core.x() == point.x_value()
                &&& core.y() == point.y_value()
            },
            r matches Err(e) ==> e == SecretShareError::InvalidPoint,
    {
        let x_bytes = match &point.x {
            Some(v) => v,
            None => { return Err(SecretShareError::InvalidPoint); },
        };
        let y_bytes = match &point.y {
            Some(v) => v,
            None => { return Err(SecretShareError::InvalidPoint); },
        };
        if x_bytes.len() != 32 || y_bytes.len() != 32 {
            return Err(SecretShareError::InvalidPoint);
        }
        proof {
            lemma_be_bytes_value_bounds(x_bytes@);
            lemma_be_bytes_value_bounds(y_bytes@);
        }
        let (enc_key, dec_key) = generate_keypair();
        Ok(
            SecretShareMasterCore {
                p: p256_modulus(),
                state: Initialized {
                    x: big_from_bytes(x_bytes.as_slice()),
                    y: big_from_bytes(y_bytes.as_slice()),
                },
                enc_key,
                dec_key,
            },
        )
    }

    /// Round 1: publishes the session's encryption key together with
    /// encryptions of the master's coordinates and two derived quantities —
    /// `x`, `-x mod p`, `y^2 mod p` and `-2y mod p` — and advances the
    /// session.  Every field of the outbound message is the public key or a
    /// ciphertext; no plaintext is transmitted.
    pub fn next(self) -> (r: (M1, SecretShareMasterCore<StepOne>))
        requires
            self.wf(),
            self.coords_bounded(),
        ensures
            ({
                let (m1, next) = r;
                &&& next.wf()
                &&& same_session(self, next)
                &&& self.has_enc_key(m1.enc_key)
                &&& self.is_ciphertext(big_value(m1.e_x_q))
                &&& self.dec(big_value(m1.e_x_q)) == self.x()
                &&& self.is_ciphertext(big_value(m1.e_neg_x_q))
                &&& self.dec(big_value(m1.e_neg_x_q)) == (p256_prime() - self.x()) % p256_prime()
                &&& self.is_ciphertext(big_value(m1.e_y_q_pow_2))
                &&& self.dec(big_value(m1.e_y_q_pow_2)) == pow(self.y(), 2) % p256_prime()
                &&& self.is_ciphertext(big_value(m1.e_neg_2_y_q))
                &&& self.dec(big_value(m1.e_neg_2_y_q)) == (p256_prime() - 2 * self.y())
                    % p256_prime()
            }),
    {
        let e_x_q = encrypt(&self.enc_key, &self.state.x);

        let neg_x = big_mod_sub(&self.p, &self.state.x, &self.p);
        let e_neg_x_q = encrypt(&self.enc_key, &neg_x);

        let two = big_from_u64(2);
        let y_sq = big_mod_pow(&self.state.y, &two, &self.p);
        let e_y_q_pow_2 = encrypt(&self.enc_key, &y_sq);

        let two_y = big_mul(&two, &self.state.y);
        let neg_2y = big_mod_sub(&self.p, &two_y, &self.p);
        let e_neg_2_y_q = encrypt(&self.enc_key, &neg_2y);

        (
            M1 {
                enc_key: clone_encryption_key(&self.enc_key),
                e_x_q,
                e_neg_x_q,
                e_y_q_pow_2,
                e_neg_2_y_q,
            },
            SecretShareMasterCore {
                p: self.p,
                state: StepOne,
                enc_key: self.enc_key,
                dec_key: self.dec_key,
            },
        )
    }
}

impl SecretShareMasterCore<StepOne> {
    /// Round 2: decrypts the peer's two blinded ciphertexts, subtracts the
    /// matching correction scalars modulo `p`, raises the second intermediate
    /// to the power `p - 3` modulo `p` (the Fermat inverse of its square),
    /// and returns its encryption.  The first intermediate is retained for
    /// round 3.  Fails with `DecryptionError` — and advances nothing —
    /// exactly when an inbound ciphertext lies outside the ciphertext space
    /// of the session's key.
    pub fn next(self, s: S1) -> (r: Result<
        (M2, SecretShareMasterCore<StepTwo>),
        SecretShareError,
    >)
        requires
            self.wf(),
        ensures
            r is Ok <==> self.is_ciphertext(big_value(s.e_a_masked)) && self.is_ciphertext(
                big_value(s.e_t_masked),
            ),
            r matches Err(e) ==> e == SecretShareError::DecryptionError,
            r matches Ok(pair) ==> ({
                let (m2, next) = pair;
                &&& next.wf()
                &&& same_session(self, next)
                &&& next.a_masked() == (self.dec(big_value(s.e_a_masked)) - big_value(
                    s.n_a_mod_p,
                )) % p256_prime()
                &&& self.is_ciphertext(big_value(m2.e_t_mod_pow))
                &&& self.dec(big_value(m2.e_t_mod_pow)) == pow(
                    (self.dec(big_value(s.e_t_masked)) - big_value(s.n_t_mod_p)) % p256_prime(),
                    (p256_prime() - 3) as nat,
                ) % p256_prime()
            }),
    {
        let a_masked = match checked_decrypt(&self.enc_key, &self.dec_key, &s.e_a_masked) {
            Some(v) => v,
            None => { return Err(SecretShareError::DecryptionError); },
        };
        let t_masked = match checked_decrypt(&self.enc_key, &self.dec_key, &s.e_t_masked) {
            Some(v) => v,
            None => { return Err(SecretShareError::DecryptionError); },
        };

        let a_masked_mod_p = big_mod_sub(&a_masked, &s.n_a_mod_p, &self.p);
        let t_masked_mod_p = big_mod_sub(&t_masked, &s.n_t_mod_p, &self.p);

        let three = big_from_u64(3);
        let exponent = big_mod_sub(&self.p, &three, &self.p);
        proof {
            vstd::arithmetic::div_mod::lemma_small_mod(
                (p256_prime() - 3) as nat,
                p256_prime() as nat,
            );
        }
        let t_mod_pow = big_mod_pow(&t_masked_mod_p, &exponent, &self.p);
        let e_t_mod_pow = encrypt(&self.enc_key, &t_mod_pow);

        Ok(
            (
                M2 { e_t_mod_pow },
                SecretShareMasterCore {
                    p: self.p,
                    state: StepTwo { a_masked_mod_p },
                    enc_key: self.enc_key,
                    dec_key: self.dec_key,
                },
            ),
        )
    }
}

impl SecretShareMasterCore<StepTwo> {
    /// The value `A * M_A mod p` retained by round 2 for round 3.
    pub closed spec fn a_masked(self) -> int {
        big_value(self.state.a_masked_mod_p)
    }

    /// Round 3: decrypts the peer's blinded ciphertext, subtracts the
    /// correction scalar modulo `p`, multiplies by the intermediate retained
    /// from round 2 modulo `p`, and returns the product's encryption.  Fails
    /// with `DecryptionError` exactly when the inbound ciphertext lies
    /// outside the ciphertext space of the session's key.
    pub fn next(self, s: S2) -> (r: Result<
        (M3, SecretShareMasterCore<StepThree>),
        SecretShareError,
    >)
        requires
            self.wf(),
        ensures
            r is Ok <==> self.is_ciphertext(big_value(s.e_b_masked)),
            r matches Err(e) ==> e == SecretShareError::DecryptionError,
            r matches Ok(pair) ==> ({
                let (m3, next) = pair;
                &&& next.wf()
                &&& same_session(self, next)
                &&& self.is_ciphertext(big_value(m3.e_ab_masked))
                &&& self.dec(big_value(m3.e_ab_masked)) == (((self.dec(big_value(s.e_b_masked))
                    - big_value(s.n_b_mod_p)) % p256_prime()) * self.a_masked()) % p256_prime()
            }),
    {
        let b_masked = match checked_decrypt(&self.enc_key, &self.dec_key, &s.e_b_masked) {
            Some(v) => v,
            None => { return Err(SecretShareError::DecryptionError); },
        };

        let b_masked_mod_p = big_mod_sub(&b_masked, &s.n_b_mod_p, &self.p);
        let ab_masked = big_mod_mul(&b_masked_mod_p, &self.state.a_masked_mod_p, &self.p);
        let e_ab_masked = encrypt(&self.enc_key, &ab_masked);

        Ok(
            (
                M3 { e_ab_masked },
                SecretShareMasterCore {
                    p: self.p,
                    state: StepThree,
                    enc_key: self.enc_key,
                    dec_key: self.dec_key,
                },
            ),
        )
    }
}

impl SecretShareMasterCore<StepThree> {
    /// Round 4: decrypts the final combined ciphertext and reduces it modulo
    /// `p`; the session is complete and holds the shared secret, in
    /// `[0, p)`.  Fails with `DecryptionError` exactly when the inbound
    /// ciphertext lies outside the ciphertext space of the session's key.
    pub fn next(self, s: S3) -> (r: Result<SecretShareMasterCore<Complete>, SecretShareError>)
        requires
            self.wf(),
        ensures
            r is Ok <==> self.is_ciphertext(big_value(s.e_pms_masked)),
            r matches Err(e) ==> e == SecretShareError::DecryptionError,
            r matches Ok(next) ==> {
                &&& next.wf()
                &&& same_session(self, next)
                &&& next.secret_value() == self.dec(big_value(s.e_pms_masked)) % p256_prime()
                &&& 0 <= next.secret_value() < p256_prime()
            },
    {
        let pms_masked = match checked_decrypt(&self.enc_key, &self.dec_key, &s.e_pms_masked) {
            Some(v) => v,
            None => { return Err(SecretShareError::DecryptionError); },
        };

        let secret = big_rem(&pms_masked, &self.p);

        Ok(
            SecretShareMasterCore {
                p: self.p,
                state: Complete { secret },
                enc_key: self.enc_key,
                dec_key: self.dec_key,
            },
        )
    }
}

impl SecretShareMasterCore<Complete> {
    /// The shared secret held by the terminal state.
    pub closed spec fn secret_value(self) -> int {
        big_value(self.state.secret)
    }

    /// Extracts the shared secret, consuming the session: it cannot be
    /// queried twice or rewound, and the decryption key is dropped with it.
    pub fn secret(self) -> (r: SecretShare)
        requires
            0 <= self.secret_value() < p256_prime(),
        ensures
            big_value(r) == self.secret_value(),
            0 <= big_value(r) < p256_prime(),
    {
        self.state.secret
    }
}

} // verus!
