use pgp_keygen::builder::SecretKeyParamsBuilder;
use pgp_keygen::builder::SubkeyParamsBuilder;
use pgp_keygen::errors::Error;
use pgp_keygen::key_type::DsaKeySize;
use pgp_keygen::key_type::KeyType;
use pgp_keygen::types::ECCCurve;

#[test]
fn rsa_size_below_minimum_fails() {
    for bits in [512u32, 1024, 2047] {
        let mut b = SecretKeyParamsBuilder::default();
        b.key_type(KeyType::Rsa(bits));
        assert_eq!(b.validate(), Err(Error::InvalidKeySize));
        b.primary_user_id("Me <me@mail.com>".into());
        b.passphrase(None);
        assert_eq!(b.build().err(), Some(Error::InvalidKeySize));
    }
}

#[test]
fn rsa_size_at_least_minimum_succeeds() {
    for bits in [2048u32, 3072, 4096] {
        let mut b = SecretKeyParamsBuilder::default();
        b.key_type(KeyType::Rsa(bits));
        assert_eq!(b.validate(), Ok(()));
        b.primary_user_id("Me <me@mail.com>".into());
        b.passphrase(None);
        assert!(b.build().is_ok());
    }
}

#[test]
fn eddsa_rejects_encrypt_intent() {
    let mut b = SecretKeyParamsBuilder::default();
    b.key_type(KeyType::EdDSALegacy);
    b.can_encrypt(true);
    assert_eq!(b.validate(), Err(Error::InvalidUsage));
    b.can_encrypt(false);
    assert_eq!(b.validate(), Ok(()));
}

#[test]
fn ecdsa_rejects_encrypt_intent() {
    let mut b = SubkeyParamsBuilder::default();
    b.key_type(KeyType::ECDSA(ECCCurve::P256));
    b.can_encrypt(true);
    assert_eq!(b.validate(), Err(Error::InvalidUsage));
    assert_eq!(b.build().err(), Some(Error::InvalidUsage));
    b.can_encrypt(false);
    assert_eq!(b.validate(), Ok(()));
    b.passphrase(None);
    assert!(b.build().is_ok());
}

#[test]
fn ecdh_rejects_sign_intent() {
    let mut b = SubkeyParamsBuilder::default();
    b.key_type(KeyType::ECDH(ECCCurve::Curve25519));
    b.can_sign(true);
    assert_eq!(b.validate(), Err(Error::InvalidUsage));
    b.can_sign(false);
    assert_eq!(b.validate(), Ok(()));
}

#[test]
fn dsa_rejects_encrypt_intent() {
    for size in [DsaKeySize::B1024, DsaKeySize::B2048, DsaKeySize::B3072] {
        let mut b = SecretKeyParamsBuilder::default();
        b.key_type(KeyType::Dsa(size));
        b.can_encrypt(true);
        assert_eq!(b.validate(), Err(Error::InvalidUsage));
        b.can_encrypt(false);
        assert_eq!(b.validate(), Ok(()));
    }
}

#[test]
fn ecdsa_curve_legality_set() {
    for curve in [ECCCurve::P256, ECCCurve::P384, ECCCurve::P521, ECCCurve::Secp256k1] {
        let mut b = SecretKeyParamsBuilder::default();
        b.key_type(KeyType::ECDSA(curve));
        assert_eq!(b.validate(), Ok(()));
    }
    for curve in [
        ECCCurve::Curve25519,
        ECCCurve::BrainpoolP256r1,
        ECCCurve::BrainpoolP384r1,
        ECCCurve::BrainpoolP512r1,
    ] {
        let mut b = SecretKeyParamsBuilder::default();
        b.key_type(KeyType::ECDSA(curve));
        assert_eq!(b.validate(), Err(Error::UnsupportedCurve));
    }
}

#[test]
fn usage_check_precedes_curve_check() {
    let mut b = SecretKeyParamsBuilder::default();
    b.key_type(KeyType::ECDSA(ECCCurve::Curve25519));
    b.can_encrypt(true);
    assert_eq!(b.validate(), Err(Error::InvalidUsage));
    b.can_encrypt(false);
    assert_eq!(b.validate(), Err(Error::UnsupportedCurve));
}

#[test]
fn build_demands_key_type_identity_and_passphrase_decision() {
    let b = SecretKeyParamsBuilder::default();
    assert_eq!(b.build().err(), Some(Error::MissingField));

    let mut b = SecretKeyParamsBuilder::default();
    b.key_type(KeyType::EdDSALegacy);
    assert_eq!(b.build().err(), Some(Error::MissingField));

    b.primary_user_id("Me <me@mail.com>".into());
    assert_eq!(b.build().err(), Some(Error::MissingField));

    b.passphrase(None);
    assert!(b.build().is_ok());

    let mut s = SubkeyParamsBuilder::default();
    assert_eq!(s.build().err(), Some(Error::MissingField));
    s.key_type(KeyType::ECDH(ECCCurve::Curve25519));
    assert_eq!(s.build().err(), Some(Error::MissingField));
    s.passphrase(None);
    assert!(s.build().is_ok());
}

#[test]
fn validation_ignores_unset_fields() {
    let b = SecretKeyParamsBuilder::default();
    assert_eq!(b.validate(), Ok(()));
}

#[test]
fn build_fills_defaults() {
    let mut b = SecretKeyParamsBuilder::default();
    b.key_type(KeyType::EdDSALegacy);
    b.primary_user_id("Me <me@mail.com>".into());
    b.passphrase(None);
    b.created_at(123456);
    let p = b.build().unwrap();
    assert_eq!(p.key_type, KeyType::EdDSALegacy);
    assert!(!p.can_sign);
    assert!(!p.can_certify);
    assert!(!p.can_encrypt);
    assert!(p.preferred_symmetric_algorithms.is_empty());
    assert!(p.preferred_hash_algorithms.is_empty());
    assert!(p.preferred_compression_algorithms.is_empty());
    assert!(p.revocation_key.is_none());
    assert!(p.user_ids.is_empty());
    assert!(p.user_attributes.is_empty());
    assert!(p.passphrase.is_none());
    assert!(p.s2k.is_none());
    assert_eq!(p.created_at, 123456);
    assert!(p.expiration.is_none());
    assert!(p.subkeys.is_empty());
}

#[test]
fn user_id_appends_in_order() {
    let mut b = SecretKeyParamsBuilder::default();
    b.key_type(KeyType::EdDSALegacy);
    b.primary_user_id("Me <me@mail.com>".into());
    b.passphrase(None);
    b.user_id("First <first@mail.com>");
    b.user_id("Second <second@mail.com>");
    let p = b.build().unwrap();
    assert_eq!(
        p.user_ids,
        vec![
            "First <first@mail.com>".to_string(),
            "Second <second@mail.com>".to_string(),
        ]
    );
}
