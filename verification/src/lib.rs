//! Master-side engine of a two-party elliptic-curve secret-sharing protocol.
//!
//! Two mutually-distrusting parties, each holding a private point on the
//! NIST P-256 curve, jointly derive a shared secret modulo the curve's field
//! prime without revealing their coordinates to each other.  The master party
//! drives a strictly ordered sequence of four rounds: it generates a fresh
//! Paillier keypair, publishes encryptions of its coordinates, and on each
//! round decrypts the peer's blinded values, combines them modulo the field
//! prime, and re-encrypts the result, ending with extraction of the secret.

pub mod arith;
pub mod keys;
pub mod messages;
pub mod point;
pub mod master;
