// Long-running generation scenarios: many rounds per algorithm family, all
// drawing from one seeded source. The stages past assembly (self-signing,
// armored serialization, re-parsing) belong to downstream consumers, so each
// round checks the assembled aggregate itself.

use pgp_keygen::builder::SecretKeyParamsBuilder;
use pgp_keygen::builder::SubkeyParamsBuilder;
use pgp_keygen::key_type::DsaKeySize;
use pgp_keygen::key_type::KeyType;
use pgp_keygen::rng::RngSource;
use pgp_keygen::secret::SecretParams;
use pgp_keygen::types::CompressionAlgorithm;
use pgp_keygen::types::ECCCurve;
use pgp_keygen::types::HashAlgorithm;
use pgp_keygen::types::SymmetricKeyAlgorithm;

fn preferences(b: &mut SecretKeyParamsBuilder) {
    b.preferred_symmetric_algorithms(vec![
        SymmetricKeyAlgorithm::AES256,
        SymmetricKeyAlgorithm::AES192,
        SymmetricKeyAlgorithm::AES128,
    ]);
    b.preferred_hash_algorithms(vec![
        HashAlgorithm::SHA2_256,
        HashAlgorithm::SHA2_384,
        HashAlgorithm::SHA2_512,
        HashAlgorithm::SHA2_224,
        HashAlgorithm::SHA1,
    ]);
    b.preferred_compression_algorithms(vec![
        CompressionAlgorithm::ZLIB,
        CompressionAlgorithm::ZIP,
    ]);
}

fn gen_x25519(rng: &mut RngSource) {
    let mut b = SecretKeyParamsBuilder::default();
    b.key_type(KeyType::EdDSALegacy);
    b.can_certify(true);
    b.can_sign(true);
    b.primary_user_id("Me-X <me-x25519@mail.com>".into());
    b.passphrase(None);
    preferences(&mut b);
    b.subkey(
        SubkeyParamsBuilder::default()
            .key_type(KeyType::ECDH(ECCCurve::Curve25519))
            .can_encrypt(true)
            .passphrase(None)
            .build()
            .unwrap(),
    );
    let key_params = b.build().unwrap();

    let key = key_params
        .generate_with_rng(rng)
        .expect("failed to generate secret key");

    assert!(key.details.keyflags.sign);
    assert!(key.details.keyflags.certify);
    assert!(matches!(key.primary_key.secret_params, SecretParams::Plain(_)));
    assert_eq!(key.secret_subkeys.len(), 1);
    assert!(key.secret_subkeys[0].keyflags.encrypt_comms);
    assert!(key.secret_subkeys[0].keyflags.encrypt_storage);
}

#[test]
fn key_gen_x25519_short() {
    let mut rng = RngSource::from_seed(0);
    for _ in 0..100 {
        gen_x25519(&mut rng);
    }
}

#[test]
fn key_gen_x25519_long() {
    let mut rng = RngSource::from_seed(0);
    for i in 0..10_000 {
        println!("round {i}");
        gen_x25519(&mut rng);
    }
}

fn gen_ecdsa(rng: &mut RngSource, curve: ECCCurve) {
    let mut b = SecretKeyParamsBuilder::default();
    b.key_type(KeyType::ECDSA(curve));
    b.can_certify(true);
    b.can_sign(true);
    b.primary_user_id("Me-X <me-ecdsa@mail.com>".into());
    b.passphrase(None);
    preferences(&mut b);
    b.subkey(
        SubkeyParamsBuilder::default()
            .key_type(KeyType::ECDH(ECCCurve::Curve25519))
            .can_encrypt(true)
            .passphrase(None)
            .build()
            .unwrap(),
    );
    let key_params = b.build().unwrap();

    let key = key_params
        .generate_with_rng(rng)
        .expect("failed to generate secret key");

    assert!(key.details.keyflags.sign);
    assert!(key.details.keyflags.certify);
    assert_eq!(key.secret_subkeys.len(), 1);
}

#[test]
fn key_gen_ecdsa_p256() {
    let rng = &mut RngSource::from_seed(0);
    for _ in 0..=175 {
        gen_ecdsa(rng, ECCCurve::P256);
    }
}

#[test]
fn key_gen_ecdsa_p384() {
    let rng = &mut RngSource::from_seed(0);
    for _ in 0..100 {
        gen_ecdsa(rng, ECCCurve::P384);
    }
}

#[test]
fn key_gen_ecdsa_p521() {
    let rng = &mut RngSource::from_seed(0);
    for _ in 0..100 {
        gen_ecdsa(rng, ECCCurve::P521);
    }
}

#[test]
fn key_gen_ecdsa_secp256k1() {
    let rng = &mut RngSource::from_seed(0);
    for _ in 0..100 {
        gen_ecdsa(rng, ECCCurve::Secp256k1);
    }
}

fn gen_dsa(rng: &mut RngSource, key_size: DsaKeySize) {
    let mut b = SecretKeyParamsBuilder::default();
    b.key_type(KeyType::Dsa(key_size));
    b.can_certify(true);
    b.can_sign(true);
    b.primary_user_id("Me-X <me-dsa@mail.com>".into());
    b.passphrase(None);
    preferences(&mut b);
    b.subkey(
        SubkeyParamsBuilder::default()
            .key_type(KeyType::ECDH(ECCCurve::Curve25519))
            .can_encrypt(true)
            .passphrase(None)
            .build()
            .unwrap(),
    );
    let key_params = b.build().unwrap();

    let key = key_params
        .generate_with_rng(rng)
        .expect("failed to generate secret key");

    assert!(key.details.keyflags.sign);
    assert!(key.details.keyflags.certify);
    assert_eq!(key.secret_subkeys.len(), 1);
}

#[test]
fn key_gen_dsa() {
    let rng = &mut RngSource::from_seed(0);
    for _ in 0..10 {
        gen_dsa(rng, DsaKeySize::B1024);
        gen_dsa(rng, DsaKeySize::B2048);
        gen_dsa(rng, DsaKeySize::B3072);
    }
}
