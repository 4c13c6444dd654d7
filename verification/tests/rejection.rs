//! Rejection of malformed construction inputs and corrupt ciphertexts.

use curv::BigInt;
use kzen_paillier::{Encrypt, Paillier, RawPlaintext};
use mpc_core::master::{SecretShareError, SecretShareMasterCore};
use mpc_core::messages::{S1, S2, S3};
use mpc_core::point::Point;

/// A 32-byte big-endian coordinate holding the value `v`.
fn coord(v: u64) -> Vec<u8> {
    let mut b = vec![0u8; 32];
    b[24..].copy_from_slice(&v.to_be_bytes());
    b
}

#[test]
fn point_without_y_coordinate_is_rejected() {
    let point = Point {
        x: Some(coord(5)),
        y: None,
    };
    let r = SecretShareMasterCore::new(&point);
    assert!(matches!(r, Err(SecretShareError::InvalidPoint)));
}

#[test]
fn point_without_x_coordinate_is_rejected() {
    let point = Point {
        x: None,
        y: Some(coord(7)),
    };
    let r = SecretShareMasterCore::new(&point);
    assert!(matches!(r, Err(SecretShareError::InvalidPoint)));
}

#[test]
fn point_with_short_coordinate_is_rejected() {
    let point = Point {
        x: Some(coord(5)),
        y: Some(vec![7u8; 31]),
    };
    let r = SecretShareMasterCore::new(&point);
    assert!(matches!(r, Err(SecretShareError::InvalidPoint)));
}

#[test]
fn compressed_sec1_point_is_rejected() {
    // A compressed SEC1 encoding carries only the x-coordinate.
    let mut bytes = vec![0u8; 33];
    bytes[0] = 0x02;
    bytes[32] = 5;
    let encoded = p256::EncodedPoint::from_bytes(&bytes).unwrap();
    let point = Point {
        x: encoded.x().map(|c| c.to_vec()),
        y: encoded.y().map(|c| c.to_vec()),
    };
    assert!(point.x.is_some());
    let r = SecretShareMasterCore::new(&point);
    assert!(matches!(r, Err(SecretShareError::InvalidPoint)));
}

#[test]
fn corrupt_round_2_ciphertext_is_rejected() {
    let point = Point {
        x: Some(coord(5)),
        y: Some(coord(7)),
    };
    let session = SecretShareMasterCore::new(&point).unwrap();
    let (m1, session) = session.next();

    // Zero is outside the ciphertext space, as is anything at or above n^2.
    let nn = &m1.enc_key.n * &m1.enc_key.n;
    let s1 = S1 {
        e_a_masked: BigInt::from(0u64),
        n_a_mod_p: BigInt::from(0u64),
        e_t_masked: nn,
        n_t_mod_p: BigInt::from(0u64),
    };
    let r = session.next(s1);
    assert!(matches!(r, Err(SecretShareError::DecryptionError)));
}

#[test]
fn oversized_round_2_ciphertext_is_rejected() {
    let point = Point {
        x: Some(coord(5)),
        y: Some(coord(7)),
    };
    let session = SecretShareMasterCore::new(&point).unwrap();
    let (m1, session) = session.next();

    // The first ciphertext is genuine; the second lies outside the space.
    let nn = &m1.enc_key.n * &m1.enc_key.n;
    let s1 = S1 {
        e_a_masked: m1.e_x_q.clone(),
        n_a_mod_p: BigInt::from(0u64),
        e_t_masked: &nn + &BigInt::from(12u64),
        n_t_mod_p: BigInt::from(0u64),
    };
    let r = session.next(s1);
    assert!(matches!(r, Err(SecretShareError::DecryptionError)));
}

#[test]
fn corrupt_round_3_ciphertext_is_rejected() {
    let point = Point {
        x: Some(coord(5)),
        y: Some(coord(7)),
    };
    let session = SecretShareMasterCore::new(&point).unwrap();
    let (m1, session) = session.next();

    let e_a = Paillier::encrypt(&m1.enc_key, RawPlaintext::from(&BigInt::from(11u64)));
    let e_t = Paillier::encrypt(&m1.enc_key, RawPlaintext::from(&BigInt::from(13u64)));
    let s1 = S1 {
        e_a_masked: e_a.into(),
        n_a_mod_p: BigInt::from(0u64),
        e_t_masked: e_t.into(),
        n_t_mod_p: BigInt::from(0u64),
    };
    let (_m2, session) = session.next(s1).unwrap();

    let s2 = S2 {
        e_b_masked: BigInt::from(0u64),
        n_b_mod_p: BigInt::from(0u64),
    };
    assert!(matches!(
        session.next(s2),
        Err(SecretShareError::DecryptionError)
    ));
}

#[test]
fn corrupt_round_4_ciphertext_is_rejected() {
    let point = Point {
        x: Some(coord(5)),
        y: Some(coord(7)),
    };
    let session = SecretShareMasterCore::new(&point).unwrap();
    let (m1, session) = session.next();

    let e_a = Paillier::encrypt(&m1.enc_key, RawPlaintext::from(&BigInt::from(11u64)));
    let e_t = Paillier::encrypt(&m1.enc_key, RawPlaintext::from(&BigInt::from(13u64)));
    let s1 = S1 {
        e_a_masked: e_a.into(),
        n_a_mod_p: BigInt::from(0u64),
        e_t_masked: e_t.into(),
        n_t_mod_p: BigInt::from(0u64),
    };
    let (m2, session) = session.next(s1).unwrap();

    let s2 = S2 {
        e_b_masked: m2.e_t_mod_pow,
        n_b_mod_p: BigInt::from(0u64),
    };
    let (_m3, session) = session.next(s2).unwrap();

    let nn = &m1.enc_key.n * &m1.enc_key.n;
    assert!(matches!(
        session.next(S3 { e_pms_masked: nn }),
        Err(SecretShareError::DecryptionError)
    ));
}
