use pgp_keygen::builder::SecretKeyParams;
use pgp_keygen::builder::SecretKeyParamsBuilder;
use pgp_keygen::builder::SubkeyParamsBuilder;
use pgp_keygen::errors::Error;
use pgp_keygen::key_type::KeyType;
use pgp_keygen::rng::RngSource;
use pgp_keygen::secret::SecretParams;
use pgp_keygen::types::ECCCurve;
use pgp_keygen::types::PublicKeyAlgorithm;

fn plain_params(passphrase: Option<String>) -> SecretKeyParams {
    let mut b = SecretKeyParamsBuilder::default();
    b.key_type(KeyType::Rsa(2048));
    b.can_certify(true);
    b.can_sign(true);
    b.primary_user_id("Me <me@mail.com>".into());
    b.passphrase(passphrase);
    b.created_at(1_700_000_000);
    b.subkey(
        SubkeyParamsBuilder::default()
            .key_type(KeyType::Rsa(2048))
            .can_encrypt(true)
            .passphrase(None)
            .created_at(1_700_000_000)
            .build()
            .unwrap(),
    );
    b.build().unwrap()
}

#[test]
fn fixed_seed_generation_is_deterministic() {
    let p1 = plain_params(None);
    let p2 = plain_params(None);
    assert_eq!(p1, p2);
    let mut rng1 = RngSource::from_seed(42);
    let mut rng2 = RngSource::from_seed(42);
    let k1 = p1.generate_with_rng(&mut rng1).unwrap();
    let k2 = p2.generate_with_rng(&mut rng2).unwrap();
    assert_eq!(
        k1.primary_key.public_key.public_params,
        k2.primary_key.public_key.public_params
    );
    assert_eq!(k1.primary_key.secret_params, k2.primary_key.secret_params);
    assert_eq!(k1, k2);
}

#[test]
fn different_seeds_give_different_material() {
    let p1 = plain_params(None);
    let p2 = plain_params(None);
    let mut rng1 = RngSource::from_seed(1);
    let mut rng2 = RngSource::from_seed(2);
    let k1 = p1.generate_with_rng(&mut rng1).unwrap();
    let k2 = p2.generate_with_rng(&mut rng2).unwrap();
    assert_ne!(
        k1.primary_key.public_key.public_params,
        k2.primary_key.public_key.public_params
    );
}

#[test]
fn no_passphrase_gives_plain_material() {
    let params = plain_params(None);
    let mut rng = RngSource::from_seed(3);
    let key = params.generate_with_rng(&mut rng).unwrap();
    let raw = match &key.primary_key.secret_params {
        SecretParams::Plain(m) => m.clone(),
        SecretParams::Encrypted(_) => panic!("expected plain secret material"),
    };
    // Unlocking plain material hands the same bytes back.
    assert_eq!(key.primary_key.secret_params.unlock(""), Ok(raw));
}

#[test]
fn passphrase_gives_protected_material_and_round_trips() {
    // Same seed with and without a passphrase: the same raw bytes are drawn,
    // so unlocking the protected record must reproduce the plain record's
    // material exactly.
    let plain_key = plain_params(None)
        .generate_with_rng(&mut RngSource::from_seed(4))
        .unwrap();
    let raw = match &plain_key.primary_key.secret_params {
        SecretParams::Plain(m) => m.clone(),
        SecretParams::Encrypted(_) => panic!("expected plain secret material"),
    };

    let protected_key = plain_params(Some("hello".into()))
        .generate_with_rng(&mut RngSource::from_seed(4))
        .unwrap();
    assert!(matches!(
        protected_key.primary_key.secret_params,
        SecretParams::Encrypted(_)
    ));
    assert_eq!(protected_key.primary_key.secret_params.unlock("hello"), Ok(raw));
    assert_eq!(
        protected_key.primary_key.secret_params.unlock("wrong"),
        Err(Error::ProtectionFailure)
    );
    assert_eq!(
        protected_key.primary_key.secret_params.unlock(""),
        Err(Error::ProtectionFailure)
    );
}

#[test]
fn subkeys_keep_declared_order() {
    let mut b = SecretKeyParamsBuilder::default();
    b.key_type(KeyType::EdDSALegacy);
    b.can_sign(true);
    b.can_certify(true);
    b.primary_user_id("Me <me@mail.com>".into());
    b.passphrase(None);
    b.subkey(
        SubkeyParamsBuilder::default()
            .key_type(KeyType::ECDH(ECCCurve::Curve25519))
            .can_encrypt(true)
            .passphrase(None)
            .build()
            .unwrap(),
    );
    b.subkey(
        SubkeyParamsBuilder::default()
            .key_type(KeyType::Rsa(2048))
            .can_encrypt(true)
            .passphrase(None)
            .build()
            .unwrap(),
    );
    b.subkey(
        SubkeyParamsBuilder::default()
            .key_type(KeyType::ECDSA(ECCCurve::P384))
            .can_sign(true)
            .passphrase(None)
            .build()
            .unwrap(),
    );
    let params = b.build().unwrap();
    let mut rng = RngSource::from_seed(5);
    let key = params.generate_with_rng(&mut rng).unwrap();
    assert_eq!(key.secret_subkeys.len(), 3);
    assert_eq!(
        key.secret_subkeys[0].key.public_key.algorithm,
        PublicKeyAlgorithm::ECDH
    );
    assert_eq!(
        key.secret_subkeys[1].key.public_key.algorithm,
        PublicKeyAlgorithm::RSA
    );
    assert_eq!(
        key.secret_subkeys[2].key.public_key.algorithm,
        PublicKeyAlgorithm::ECDSA
    );
}

#[test]
fn flags_match_declared_intents() {
    let mut b = SecretKeyParamsBuilder::default();
    b.key_type(KeyType::EdDSALegacy);
    b.can_sign(true);
    b.can_certify(true);
    b.primary_user_id("Me <me@mail.com>".into());
    b.passphrase(None);
    b.subkey(
        SubkeyParamsBuilder::default()
            .key_type(KeyType::ECDH(ECCCurve::Curve25519))
            .can_encrypt(true)
            .passphrase(None)
            .build()
            .unwrap(),
    );
    b.subkey(
        SubkeyParamsBuilder::default()
            .key_type(KeyType::EdDSALegacy)
            .can_authenticate(true)
            .passphrase(None)
            .build()
            .unwrap(),
    );
    let params = b.build().unwrap();
    let mut rng = RngSource::from_seed(6);
    let key = params.generate_with_rng(&mut rng).unwrap();

    let primary = key.details.keyflags;
    assert!(primary.certify);
    assert!(primary.sign);
    assert!(!primary.encrypt_comms);
    assert!(!primary.encrypt_storage);
    assert!(!primary.authentication);

    let enc = key.secret_subkeys[0].keyflags;
    assert!(!enc.certify);
    assert!(!enc.sign);
    assert!(enc.encrypt_comms);
    assert!(enc.encrypt_storage);
    assert!(!enc.authentication);

    let auth = key.secret_subkeys[1].keyflags;
    assert!(!auth.certify);
    assert!(!auth.sign);
    assert!(!auth.encrypt_comms);
    assert!(!auth.encrypt_storage);
    assert!(auth.authentication);
}

#[test]
fn rsa_with_encrypting_subkey_scenario() {
    let params = plain_params(None);
    let key = params.generate().unwrap();
    assert_eq!(
        key.primary_key.public_key.algorithm,
        PublicKeyAlgorithm::RSA
    );
    assert_eq!(key.details.primary_user_id.id, "Me <me@mail.com>");
    assert_eq!(key.secret_subkeys.len(), 1);
    let sub = &key.secret_subkeys[0];
    assert!(sub.keyflags.encrypt_comms);
    assert!(sub.keyflags.encrypt_storage);
    assert!(!sub.keyflags.sign);
    assert!(!sub.keyflags.certify);
    assert!(matches!(
        key.primary_key.secret_params,
        SecretParams::Plain(_)
    ));
}

#[test]
fn rsa_with_passphrase_scenario() {
    let params = plain_params(Some("hello".into()));
    let key = params.generate().unwrap();
    assert!(matches!(
        key.primary_key.secret_params,
        SecretParams::Encrypted(_)
    ));
    assert!(key.primary_key.secret_params.unlock("hello").is_ok());
    assert_eq!(
        key.primary_key.secret_params.unlock(""),
        Err(Error::ProtectionFailure)
    );
}

#[test]
fn eddsa_with_ecdh_subkey_scenario() {
    let mut b = SecretKeyParamsBuilder::default();
    b.key_type(KeyType::EdDSALegacy);
    b.can_sign(true);
    b.can_certify(true);
    b.primary_user_id("Me <me@mail.com>".into());
    b.passphrase(None);
    b.subkey(
        SubkeyParamsBuilder::default()
            .key_type(KeyType::ECDH(ECCCurve::Curve25519))
            .can_encrypt(true)
            .passphrase(None)
            .build()
            .unwrap(),
    );
    let params = b.build().unwrap();
    let mut rng = RngSource::from_seed(8);
    let key = params.generate_with_rng(&mut rng).unwrap();
    assert_eq!(
        key.primary_key.public_key.algorithm,
        PublicKeyAlgorithm::EdDSALegacy
    );
    assert_eq!(key.secret_subkeys.len(), 1);

    // The same declaration with can-encrypt on the primary fails at build
    // time, before any generation call is made.
    let mut bad = SecretKeyParamsBuilder::default();
    bad.key_type(KeyType::EdDSALegacy);
    bad.can_sign(true);
    bad.can_certify(true);
    bad.can_encrypt(true);
    bad.primary_user_id("Me <me@mail.com>".into());
    bad.passphrase(None);
    assert_eq!(bad.build().err(), Some(Error::InvalidUsage));
}

#[test]
fn subkey_passphrases_are_independent() {
    let mut b = SecretKeyParamsBuilder::default();
    b.key_type(KeyType::EdDSALegacy);
    b.can_sign(true);
    b.primary_user_id("Me <me@mail.com>".into());
    b.passphrase(None);
    b.subkey(
        SubkeyParamsBuilder::default()
            .key_type(KeyType::ECDH(ECCCurve::Curve25519))
            .can_encrypt(true)
            .passphrase(Some("sub secret".into()))
            .build()
            .unwrap(),
    );
    let params = b.build().unwrap();
    let mut rng = RngSource::from_seed(9);
    let key = params.generate_with_rng(&mut rng).unwrap();
    assert!(matches!(
        key.primary_key.secret_params,
        SecretParams::Plain(_)
    ));
    let sub = &key.secret_subkeys[0].key.secret_params;
    assert!(matches!(sub, SecretParams::Encrypted(_)));
    assert!(sub.unlock("sub secret").is_ok());
    assert_eq!(sub.unlock("hello"), Err(Error::ProtectionFailure));
}

#[test]
fn empty_passphrase_is_a_passphrase() {
    // An empty string is a valid, if weak, passphrase: it still protects the
    // material, and only the empty string unlocks it.
    let params = plain_params(Some(String::new()));
    let mut rng = RngSource::from_seed(10);
    let key = params.generate_with_rng(&mut rng).unwrap();
    assert!(matches!(
        key.primary_key.secret_params,
        SecretParams::Encrypted(_)
    ));
    assert!(key.primary_key.secret_params.unlock("").is_ok());
    assert_eq!(
        key.primary_key.secret_params.unlock("hello"),
        Err(Error::ProtectionFailure)
    );
}
