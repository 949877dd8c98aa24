use vstd::prelude::*;
use crate::errors::Error;
use crate::types::ECCCurve;
use crate::types::PublicKeyAlgorithm;
use crate::rng::RngSource;
use crate::rng::chacha_draw;
use crate::secret::S2kParams;
use crate::secret::SecretParams;
use crate::secret::SecretParamsV;
use crate::secret::S2kParamsV;
use crate::secret::protect;
use crate::secret::protect_spec;
use crate::secret::pass_view;

verus! {

// The algorithm selector: a closed tagged union identifying an algorithm
// family plus its family-specific parameter, with its pure mapping to an
// algorithm identifier and the routing of generation requests. The arithmetic
// of generation itself is an outside collaborator; its product is modelled as
// the bytes the shared randomness source yields for the family's request
// sizes.

/// Standardized DSA parameter-size classes as (L, N) bit pairs.
#[derive(Debug, Clone, Copy, PartialEq, Eq, Structural)]
pub enum DsaKeySize {
    /// L = 1024, N = 160.
    B1024,
    /// L = 2048, N = 256.
    B2048,
    /// L = 3072, N = 256.
    B3072,
}

/// The algorithm family of a key, with its family-specific parameter.
#[derive(Debug, Clone, Copy, PartialEq, Eq, Structural)]
pub enum KeyType {
    /// Encryption & signing with RSA and the given bit size.
    Rsa(u32),
    /// Encrypting with ECDH.
    ECDH(ECCCurve),
    /// Signing with Curve25519, legacy format.
    EdDSALegacy,
    /// Signing with ECDSA.
    ECDSA(ECCCurve),
    /// Signing with DSA for the given size class.
    Dsa(DsaKeySize),
}

/// The scalar size, in bytes, of a named curve in this model.
pub open spec fn curve_len_spec(curve: ECCCurve) -> nat {
    match curve {
        ECCCurve::Curve25519 => 32,
        ECCCurve::P256 => 32,
        ECCCurve::P384 => 48,
        ECCCurve::P521 => 66,
        ECCCurve::Secp256k1 => 32,
        ECCCurve::BrainpoolP256r1 => 32,
        ECCCurve::BrainpoolP384r1 => 48,
        ECCCurve::BrainpoolP512r1 => 64,
    }
}

/// The size, in bytes, of the public element this model generates for a
/// family.
pub open spec fn public_len_spec(kt: KeyType) -> nat {
    match kt {
        KeyType::Rsa(bits) => (bits / 8) as nat,
        KeyType::ECDH(curve) => curve_len_spec(curve),
        KeyType::EdDSALegacy => 32,
        KeyType::ECDSA(curve) => curve_len_spec(curve),
        KeyType::Dsa(size) => match size {
            DsaKeySize::B1024 => 128,
            DsaKeySize::B2048 => 256,
            DsaKeySize::B3072 => 384,
        },
    }
}

/// The size, in bytes, of the raw secret element this model generates for a
/// family.
pub open spec fn secret_len_spec(kt: KeyType) -> nat {
    match kt {
        KeyType::Rsa(bits) => (bits / 8) as nat,
        KeyType::ECDH(curve) => curve_len_spec(curve),
        KeyType::EdDSALegacy => 32,
        KeyType::ECDSA(curve) => curve_len_spec(curve),
        KeyType::Dsa(size) => match size {
            DsaKeySize::B1024 => 20,
            DsaKeySize::B2048 => 32,
            DsaKeySize::B3072 => 32,
        },
    }
}

/// The public parameters of a generated key: the family, its curve where one
/// applies, and the public element.
#[derive(Debug, Clone, PartialEq, Eq)]
pub enum PublicParams {
    Rsa { n: Vec<u8> },
    ECDH { curve: ECCCurve, point: Vec<u8> },
    EdDSALegacy { point: Vec<u8> },
    ECDSA { curve: ECCCurve, point: Vec<u8> },
    Dsa { params: Vec<u8> },
}

/// The mathematical model of a [`PublicParams`].
pub enum PublicParamsV {
    Rsa { n: Seq<u8> },
    ECDH { curve: ECCCurve, point: Seq<u8> },
    EdDSALegacy { point: Seq<u8> },
    ECDSA { curve: ECCCurve, point: Seq<u8> },
    Dsa { params: Seq<u8> },
}

impl View for PublicParams {
    type V = PublicParamsV;

    open spec fn view(&self) -> PublicParamsV {
        match self {
            PublicParams::Rsa { n } => PublicParamsV::Rsa { n: n@ },
            PublicParams::ECDH { curve, point } => PublicParamsV::ECDH {
                curve: *curve,
                point: point@,
            },
            PublicParams::EdDSALegacy { point } => PublicParamsV::EdDSALegacy { point: point@ },
            PublicParams::ECDSA { curve, point } => PublicParamsV::ECDSA {
                curve: *curve,
                point: point@,
            },
            PublicParams::Dsa { params } => PublicParamsV::Dsa { params: params@ },
        }
    }
}

/// The public parameters a family yields around a public element.
pub open spec fn public_params_of(kt: KeyType, bytes: Seq<u8>) -> PublicParamsV {
    match kt {
        KeyType::Rsa(_) => PublicParamsV::Rsa { n: bytes },
        KeyType::ECDH(curve) => PublicParamsV::ECDH { curve, point: bytes },
        KeyType::EdDSALegacy => PublicParamsV::EdDSALegacy { point: bytes },
        KeyType::ECDSA(curve) => PublicParamsV::ECDSA { curve, point: bytes },
        KeyType::Dsa(_) => PublicParamsV::Dsa { params: bytes },
    }
}

/// What one key generation under a seeded source yields: the public element
/// and the raw secret element are the source's next two requests, and the
/// secret is then protected under the passphrase.
pub open spec fn key_gen_spec(
    kt: KeyType,
    pass: Option<Seq<char>>,
    s2k: S2kParamsV,
    seed: u64,
    prior: Seq<int>,
) -> (PublicParamsV, SecretParamsV) {
    let pb = chacha_draw(seed, prior, public_len_spec(kt) as int);
    let sb = chacha_draw(seed, prior.push(public_len_spec(kt) as int), secret_len_spec(kt) as int);
    (public_params_of(kt, pb), protect_spec(sb, pass, s2k))
}

/// The request history of a seeded source after one key generation.
pub open spec fn prior_after_key_gen(kt: KeyType, prior: Seq<int>) -> Seq<int> {
    prior.push(public_len_spec(kt) as int).push(secret_len_spec(kt) as int)
}

/// The structural facts that hold of one generated key whatever the
/// randomness source yielded: the public parameters belong to the requested
/// family with an element of the family's size, and the secret material is
/// protected exactly when a passphrase was given — protected material carries
/// the given (or synthesized default) configuration, a ciphertext of the raw
/// material's size, and the verifier of the key derived from the passphrase
/// used, so it unlocks with that passphrase and no other.
pub open spec fn gen_matches(
    kt: KeyType,
    pass: Option<Seq<char>>,
    s2k: S2kParamsV,
    pp: PublicParamsV,
    sp: SecretParamsV,
) -> bool {
    &&& pp == public_params_of(kt, public_element(pp))
    &&& public_element(pp).len() == public_len_spec(kt)
    &&& match pass {
        None => sp matches SecretParamsV::Plain(m) && m.len() == secret_len_spec(kt),
        Some(pw) => sp matches SecretParamsV::Encrypted(e) && {
            exists|raw: Seq<u8>|
                #![trigger protect_spec(raw, Some(pw), s2k)]
                raw.len() == secret_len_spec(kt) && SecretParamsV::Encrypted(e) == protect_spec(
                    raw,
                    Some(pw),
                    s2k,
                )
        },
    }
}

/// The public element carried by public parameters.
pub open spec fn public_element(pp: PublicParamsV) -> Seq<u8> {
    match pp {
        PublicParamsV::Rsa { n } => n,
        PublicParamsV::ECDH { point, .. } => point,
        PublicParamsV::EdDSALegacy { point } => point,
        PublicParamsV::ECDSA { point, .. } => point,
        PublicParamsV::Dsa { params } => params,
    }
}

impl KeyType {
    /// The pure mapping from an algorithm family to the algorithm identifier
    /// carried by generated envelopes.
    pub open spec fn to_alg_spec(self) -> PublicKeyAlgorithm {
        match self {
            KeyType::Rsa(_) => PublicKeyAlgorithm::RSA,
            KeyType::ECDH(_) => PublicKeyAlgorithm::ECDH,
            KeyType::EdDSALegacy => PublicKeyAlgorithm::EdDSALegacy,
            KeyType::ECDSA(_) => PublicKeyAlgorithm::ECDSA,
            KeyType::Dsa(_) => PublicKeyAlgorithm::DSA,
        }
    }

    pub fn to_alg(&self) -> (r: PublicKeyAlgorithm)
        ensures
            r == self.to_alg_spec(),
    {
        match self {
            KeyType::Rsa(_) => PublicKeyAlgorithm::RSA,
            KeyType::ECDH(_) => PublicKeyAlgorithm::ECDH,
            KeyType::EdDSALegacy => PublicKeyAlgorithm::EdDSALegacy,
            KeyType::ECDSA(_) => PublicKeyAlgorithm::ECDSA,
            KeyType::Dsa(_) => PublicKeyAlgorithm::DSA,
        }
    }

    /// The size of the public element generated for this family.
    pub fn public_len(&self) -> (r: usize)
        ensures
            r == public_len_spec(*self),
    {
        match self {
            KeyType::Rsa(bits) => (*bits / 8) as usize,
            KeyType::ECDH(curve) => curve_len(curve),
            KeyType::EdDSALegacy => 32,
            KeyType::ECDSA(curve) => curve_len(curve),
            KeyType::Dsa(size) => match size {
                DsaKeySize::B1024 => 128,
                DsaKeySize::B2048 => 256,
                DsaKeySize::B3072 => 384,
            },
        }
    }

    /// The size of the raw secret element generated for this family.
    pub fn secret_len(&self) -> (r: usize)
        ensures
            r == secret_len_spec(*self),
    {
        match self {
            KeyType::Rsa(bits) => (*bits / 8) as usize,
            KeyType::ECDH(curve) => curve_len(curve),
            KeyType::EdDSALegacy => 32,
            KeyType::ECDSA(curve) => curve_len(curve),
            KeyType::Dsa(size) => match size {
                DsaKeySize::B1024 => 20,
                DsaKeySize::B2048 => 32,
                DsaKeySize::B3072 => 32,
            },
        }
    }

    /// Generate key material for this family from the given randomness
    /// source, then protect the raw secret element under the passphrase.
    ///
    /// The source is advanced by exactly two requests — the public element
    /// and the secret element — so for a seeded source the result is a pure
    /// function of the family, the passphrase, the configuration, the seed
    /// and the request history.
    pub fn generate_with_rng(
        &self,
        rng: &mut RngSource,
        passphrase: Option<String>,
        s2k: S2kParams,
    ) -> (r: Result<(PublicParams, SecretParams), Error>)
        ensures
            r is Ok,
            (match r {
                Ok((pp, sp)) => {
                    &&& gen_matches(*self, pass_view(passphrase), s2k@, pp@, sp@)
                    &&& old(rng).is_seeded() ==> (pp@, sp@) == key_gen_spec(
                        *self,
                        pass_view(passphrase),
                        s2k@,
                        old(rng).seed(),
                        old(rng).prior(),
                    )
                },
                Err(_) => false,
            }),
            final(rng).is_seeded() == old(rng).is_seeded(),
            final(rng).seed() == old(rng).seed(),
            old(rng).is_seeded() ==> final(rng).prior() == prior_after_key_gen(
                *self,
                old(rng).prior(),
            ),
    {
        let pub_bytes = rng.draw(self.public_len());
        let sec_bytes = rng.draw(self.secret_len());
        let ghost pubv = pub_bytes@;
        let ghost rawv = sec_bytes@;
        let ghost passv = pass_view(passphrase);
        let ghost s2kv = s2k@;
        let pub_params = match self {
            KeyType::Rsa(_) => PublicParams::Rsa { n: pub_bytes },
            KeyType::ECDH(curve) => PublicParams::ECDH { curve: *curve, point: pub_bytes },
            KeyType::EdDSALegacy => PublicParams::EdDSALegacy { point: pub_bytes },
            KeyType::ECDSA(curve) => PublicParams::ECDSA { curve: *curve, point: pub_bytes },
            KeyType::Dsa(_) => PublicParams::Dsa { params: pub_bytes },
        };
        let secret_params = protect(sec_bytes, passphrase, s2k);
        proof {
            assert(pub_params@ == public_params_of(*self, pubv));
            assert(public_element(pub_params@) == pubv);
            assert(secret_params@ == protect_spec(rawv, passv, s2kv));
            if passv is Some {
                let pw = passv->0;
                assert(secret_params@ == protect_spec(rawv, Some(pw), s2kv));
                assert(rawv.len() == secret_len_spec(*self));
            }
            assert(gen_matches(*self, passv, s2kv, pub_params@, secret_params@));
        }
        Ok((pub_params, secret_params))
    }

    /// Generate key material for this family from the operating system's
    /// randomness source.
    pub fn generate(&self, passphrase: Option<String>, s2k: S2kParams) -> (r: Result<
        (PublicParams, SecretParams),
        Error,
    >)
        ensures
            r is Ok,
            (match r {
                Ok((pp, sp)) => gen_matches(*self, pass_view(passphrase), s2k@, pp@, sp@),
                Err(_) => false,
            }),
    {
        let mut rng = RngSource::system();
        self.generate_with_rng(&mut rng, passphrase, s2k)
    }
}

/// The scalar size of a named curve.
pub fn curve_len(curve: &ECCCurve) -> (r: usize)
    ensures
        r == curve_len_spec(*curve),
{
    match curve {
        ECCCurve::Curve25519 => 32,
        ECCCurve::P256 => 32,
        ECCCurve::P384 => 48,
        ECCCurve::P521 => 66,
        ECCCurve::Secp256k1 => 32,
        ECCCurve::BrainpoolP256r1 => 32,
        ECCCurve::BrainpoolP384r1 => 48,
        ECCCurve::BrainpoolP512r1 => 64,
    }
}

} // verus!
