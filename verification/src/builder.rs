use vstd::prelude::*;
use crate::clock::now_seconds;
use crate::errors::Error;
use crate::key_type::KeyType;
use crate::secret::S2kParams;
use crate::secret::S2kParamsV;
use crate::secret::pass_view;
use crate::types::CompressionAlgorithm;
use crate::types::ECCCurve;
use crate::types::HashAlgorithm;
use crate::types::RevocationKey;
use crate::types::RevocationKeyV;
use crate::types::SymmetricKeyAlgorithm;
use crate::types::UserAttribute;
use crate::types::UserId;
use crate::types::UserIdV;
use crate::types::KeyVersion;
use crate::types::Version;

verus! {

// The parameter builder and validator: an accumulator exposing field
// setters, and a single build step that validates the algorithm choice
// against the declared capability intents before any generation work can
// run, and fills every unset optional field from its default. A parameter
// record never exists in an unvalidated state.

/// Whether a curve is in the legality set for ECDSA keys.
pub open spec fn ecdsa_curve_ok(curve: ECCCurve) -> bool {
    ||| curve == ECCCurve::P256
    ||| curve == ECCCurve::P384
    ||| curve == ECCCurve::P521
    ||| curve == ECCCurve::Secp256k1
}

/// The algorithm-capability validation applied before building a parameter
/// record, over the fields set so far:
/// - RSA under 2048 bits is refused as insecure;
/// - EdDSA, ECDSA and DSA are signing-only families and refuse can-encrypt;
/// - ECDH is an encryption-only family and refuses can-sign;
/// - ECDSA refuses curves outside its legality set.
/// A field not yet set does not fail validation.
pub open spec fn validate_spec(
    key_type: Option<KeyType>,
    can_sign: Option<bool>,
    can_encrypt: Option<bool>,
) -> Result<(), Error> {
    match key_type {
        Some(KeyType::Rsa(size)) => if size < 2048 {
            Err(Error::InvalidKeySize)
        } else {
            Ok(())
        },
        Some(KeyType::EdDSALegacy) => if can_encrypt == Some(true) {
            Err(Error::InvalidUsage)
        } else {
            Ok(())
        },
        Some(KeyType::ECDSA(curve)) => if can_encrypt == Some(true) {
            Err(Error::InvalidUsage)
        } else if !ecdsa_curve_ok(curve) {
            Err(Error::UnsupportedCurve)
        } else {
            Ok(())
        },
        Some(KeyType::ECDH(_)) => if can_sign == Some(true) {
            Err(Error::InvalidUsage)
        } else {
            Ok(())
        },
        Some(KeyType::Dsa(_)) => if can_encrypt == Some(true) {
            Err(Error::InvalidUsage)
        } else {
            Ok(())
        },
        None => Ok(()),
    }
}

/// The view of an optional key-derivation configuration.
pub open spec fn opt_s2k_view(o: Option<S2kParams>) -> Option<S2kParamsV> {
    match o {
        Some(s) => Some(s@),
        None => None,
    }
}

/// The view of an optional revocation-key reference.
pub open spec fn opt_revocation_view(o: Option<RevocationKey>) -> Option<RevocationKeyV> {
    match o {
        Some(r) => Some(r@),
        None => None,
    }
}

/// Validated parameters of a subkey, produced only by
/// [`SubkeyParamsBuilder::build`].
#[derive(Debug, Clone, PartialEq, Eq)]
pub struct SubkeyParams {
    pub key_type: KeyType,
    pub can_sign: bool,
    pub can_certify: bool,
    pub can_encrypt: bool,
    pub can_authenticate: bool,
    pub user_ids: Vec<UserId>,
    pub user_attributes: Vec<UserAttribute>,
    pub passphrase: Option<String>,
    pub s2k: Option<S2kParams>,
    pub created_at: i64,
    pub packet_version: Version,
    pub version: KeyVersion,
    pub expiration: Option<u64>,
}

/// The mathematical model of a [`SubkeyParams`].
pub struct SubkeyParamsV {
    pub key_type: KeyType,
    pub can_sign: bool,
    pub can_certify: bool,
    pub can_encrypt: bool,
    pub can_authenticate: bool,
    pub user_ids: Seq<UserIdV>,
    pub user_attributes: Seq<Seq<u8>>,
    pub passphrase: Option<Seq<char>>,
    pub s2k: Option<S2kParamsV>,
    pub created_at: i64,
    pub packet_version: Version,
    pub version: KeyVersion,
    pub expiration: Option<u64>,
}

impl View for SubkeyParams {
    type V = SubkeyParamsV;

    open spec fn view(&self) -> SubkeyParamsV {
        SubkeyParamsV {
            key_type: self.key_type,
            can_sign: self.can_sign,
            can_certify: self.can_certify,
            can_encrypt: self.can_encrypt,
            can_authenticate: self.can_authenticate,
            user_ids: self.user_ids.deep_view(),
            user_attributes: self.user_attributes.deep_view(),
            passphrase: pass_view(self.passphrase),
            s2k: opt_s2k_view(self.s2k),
            created_at: self.created_at,
            packet_version: self.packet_version,
            version: self.version,
            expiration: self.expiration,
        }
    }
}

impl DeepView for SubkeyParams {
    type V = SubkeyParamsV;

    open spec fn deep_view(&self) -> SubkeyParamsV {
        self.view()
    }
}

/// Validated parameters of a primary key and its subkeys, produced only by
/// [`SecretKeyParamsBuilder::build`].
#[derive(Debug, Clone, PartialEq, Eq)]
pub struct SecretKeyParams {
    pub key_type: KeyType,
    pub can_sign: bool,
    pub can_certify: bool,
    pub can_encrypt: bool,
    pub preferred_symmetric_algorithms: Vec<SymmetricKeyAlgorithm>,
    pub preferred_hash_algorithms: Vec<HashAlgorithm>,
    pub preferred_compression_algorithms: Vec<CompressionAlgorithm>,
    pub revocation_key: Option<RevocationKey>,
    pub primary_user_id: String,
    pub user_ids: Vec<String>,
    pub user_attributes: Vec<UserAttribute>,
    pub passphrase: Option<String>,
    pub s2k: Option<S2kParams>,
    pub created_at: i64,
    pub packet_version: Version,
    pub version: KeyVersion,
    pub expiration: Option<u64>,
    pub subkeys: Vec<SubkeyParams>,
}

/// The mathematical model of a [`SecretKeyParams`].
pub struct SecretKeyParamsV {
    pub key_type: KeyType,
    pub can_sign: bool,
    pub can_certify: bool,
    pub can_encrypt: bool,
    pub preferred_symmetric_algorithms: Seq<SymmetricKeyAlgorithm>,
    pub preferred_hash_algorithms: Seq<HashAlgorithm>,
    pub preferred_compression_algorithms: Seq<CompressionAlgorithm>,
    pub revocation_key: Option<RevocationKeyV>,
    pub primary_user_id: Seq<char>,
    pub user_ids: Seq<Seq<char>>,
    pub user_attributes: Seq<Seq<u8>>,
    pub passphrase: Option<Seq<char>>,
    pub s2k: Option<S2kParamsV>,
    pub created_at: i64,
    pub packet_version: Version,
    pub version: KeyVersion,
    pub expiration: Option<u64>,
    pub subkeys: Seq<SubkeyParamsV>,
}

impl View for SecretKeyParams {
    type V = SecretKeyParamsV;

    open spec fn view(&self) -> SecretKeyParamsV {
        SecretKeyParamsV {
            key_type: self.key_type,
            can_sign: self.can_sign,
            can_certify: self.can_certify,
            can_encrypt: self.can_encrypt,
            preferred_symmetric_algorithms: self.preferred_symmetric_algorithms@,
            preferred_hash_algorithms: self.preferred_hash_algorithms@,
            preferred_compression_algorithms: self.preferred_compression_algorithms@,
            revocation_key: opt_revocation_view(self.revocation_key),
            primary_user_id: self.primary_user_id@,
            user_ids: self.user_ids.deep_view(),
            user_attributes: self.user_attributes.deep_view(),
            passphrase: pass_view(self.passphrase),
            s2k: opt_s2k_view(self.s2k),
            created_at: self.created_at,
            packet_version: self.packet_version,
            version: self.version,
            expiration: self.expiration,
            subkeys: self.subkeys.deep_view(),
        }
    }
}

/// Copy a vector of copyable elements.
pub fn clone_copy_vec<T: Copy>(v: &Vec<T>) -> (r: Vec<T>)
    ensures
        r@ == v@,
{
    let mut out: Vec<T> = Vec::new();
    let mut i: usize = 0;
    while i < v.len()
        invariant
            i <= v.len(),
            out@ == v@.take(i as int),
        decreases v.len() - i,
    {
        out.push(v[i]);
        i = i + 1;
        proof {
            assert(out@ =~= v@.take(i as int));
        }
    }
    proof {
        assert(out@ =~= v@);
    }
    out
}

/// Copy a vector of strings.
pub fn clone_strings(v: &Vec<String>) -> (r: Vec<String>)
    ensures
        r@ == v@,
        r.deep_view() == v.deep_view(),
{
    let mut out: Vec<String> = Vec::new();
    let mut i: usize = 0;
    while i < v.len()
        invariant
            i <= v.len(),
            out@ == v@.take(i as int),
        decreases v.len() - i,
    {
        out.push(v[i].clone());
        i = i + 1;
        proof {
            assert(out@ =~= v@.take(i as int));
        }
    }
    proof {
        assert(out@ =~= v@);
        assert(out.deep_view() =~= v.deep_view());
    }
    out
}

/// Copy a vector of identity records, preserving their contents.
pub fn clone_user_ids(v: &Vec<UserId>) -> (r: Vec<UserId>)
    ensures
        r.deep_view() == v.deep_view(),
{
    let mut out: Vec<UserId> = Vec::new();
    let mut i: usize = 0;
    while i < v.len()
        invariant
            i <= v.len(),
            out@.len() == i,
            forall|m: int| 0 <= m < i ==> out@[m]@ == v@[m]@,
        decreases v.len() - i,
    {
        out.push(v[i].duplicate());
        i = i + 1;
    }
    proof {
        assert(out.deep_view() =~= v.deep_view());
    }
    out
}

/// Copy a vector of user-attribute records, preserving their contents.
pub fn clone_user_attributes(v: &Vec<UserAttribute>) -> (r: Vec<UserAttribute>)
    ensures
        r.deep_view() == v.deep_view(),
{
    let mut out: Vec<UserAttribute> = Vec::new();
    let mut i: usize = 0;
    while i < v.len()
        invariant
            i <= v.len(),
            out@.len() == i,
            forall|m: int| 0 <= m < i ==> out@[m]@ == v@[m]@,
        decreases v.len() - i,
    {
        out.push(v[i].duplicate());
        i = i + 1;
    }
    proof {
        assert(out.deep_view() =~= v.deep_view());
    }
    out
}

/// Copy an optional passphrase, keeping the decision and the contents.
pub fn clone_opt_string(o: &Option<String>) -> (r: Option<String>)
    ensures
        r == *o,
{
    match o {
        Some(s) => Some(s.clone()),
        None => None,
    }
}

/// Copy an optional key-derivation configuration.
pub fn clone_opt_s2k(o: &Option<S2kParams>) -> (r: Option<S2kParams>)
    ensures
        opt_s2k_view(r) == opt_s2k_view(*o),
{
    match o {
        Some(s) => Some(s.duplicate()),
        None => None,
    }
}

/// Copy an optional revocation-key reference.
pub fn clone_opt_revocation(o: &Option<RevocationKey>) -> (r: Option<RevocationKey>)
    ensures
        opt_revocation_view(r) == opt_revocation_view(*o),
{
    match o {
        Some(rk) => Some(rk.duplicate()),
        None => None,
    }
}

impl SubkeyParams {
    /// Clone the record with its contents intact.
    pub fn duplicate(&self) -> (r: SubkeyParams)
        ensures
            r@ == self@,
    {
        SubkeyParams {
            key_type: self.key_type,
            can_sign: self.can_sign,
            can_certify: self.can_certify,
            can_encrypt: self.can_encrypt,
            can_authenticate: self.can_authenticate,
            user_ids: clone_user_ids(&self.user_ids),
            user_attributes: clone_user_attributes(&self.user_attributes),
            passphrase: clone_opt_string(&self.passphrase),
            s2k: clone_opt_s2k(&self.s2k),
            created_at: self.created_at,
            packet_version: self.packet_version,
            version: self.version,
            expiration: self.expiration,
        }
    }
}

/// Copy a vector of subkey parameter records, preserving their contents.
pub fn clone_subkeys(v: &Vec<SubkeyParams>) -> (r: Vec<SubkeyParams>)
    ensures
        r.deep_view() == v.deep_view(),
{
    let mut out: Vec<SubkeyParams> = Vec::new();
    let mut i: usize = 0;
    while i < v.len()
        invariant
            i <= v.len(),
            out@.len() == i,
            forall|m: int| 0 <= m < i ==> out@[m]@ == v@[m]@,
        decreases v.len() - i,
    {
        out.push(v[i].duplicate());
        i = i + 1;
    }
    proof {
        assert(out.deep_view() =~= v.deep_view());
    }
    out
}

/// The accumulator for [`SubkeyParams`]: every field optional until build
/// time, when validation runs and defaults are filled in.
#[derive(Debug, Clone)]
pub struct SubkeyParamsBuilder {
    pub key_type: Option<KeyType>,
    pub can_sign: Option<bool>,
    pub can_certify: Option<bool>,
    pub can_encrypt: Option<bool>,
    pub can_authenticate: Option<bool>,
    pub user_ids: Option<Vec<UserId>>,
    pub user_attributes: Option<Vec<UserAttribute>>,
    pub passphrase: Option<Option<String>>,
    pub s2k: Option<Option<S2kParams>>,
    pub created_at: Option<i64>,
    pub packet_version: Option<Version>,
    pub version: Option<KeyVersion>,
    pub expiration: Option<Option<u64>>,
}

impl SubkeyParamsBuilder {
    /// The builder with nothing set.
    pub open spec fn empty_spec() -> SubkeyParamsBuilder {
        SubkeyParamsBuilder {
            key_type: None,
            can_sign: None,
            can_certify: None,
            can_encrypt: None,
            can_authenticate: None,
            user_ids: None,
            user_attributes: None,
            passphrase: None,
            s2k: None,
            created_at: None,
            packet_version: None,
            version: None,
            expiration: None,
        }
    }

    pub fn key_type(&mut self, value: KeyType) -> (r: &mut Self)
        ensures
            *r == (SubkeyParamsBuilder { key_type: Some(value), ..*old(self) }),
            *final(self) == *final(r),
    {
        self.key_type = Some(value);
        self
    }

    pub fn can_sign(&mut self, value: bool) -> (r: &mut Self)
        ensures
            *r == (SubkeyParamsBuilder { can_sign: Some(value), ..*old(self) }),
            *final(self) == *final(r),
    {
        self.can_sign = Some(value);
        self
    }

    pub fn can_certify(&mut self, value: bool) -> (r: &mut Self)
        ensures
            *r == (SubkeyParamsBuilder { can_certify: Some(value), ..*old(self) }),
            *final(self) == *final(r),
    {
        self.can_certify = Some(value);
        self
    }

    pub fn can_encrypt(&mut self, value: bool) -> (r: &mut Self)
        ensures
            *r == (SubkeyParamsBuilder { can_encrypt: Some(value), ..*old(self) }),
            *final(self) == *final(r),
    {
        self.can_encrypt = Some(value);
        self
    }

    pub fn can_authenticate(&mut self, value: bool) -> (r: &mut Self)
        ensures
            *r == (SubkeyParamsBuilder { can_authenticate: Some(value), ..*old(self) }),
            *final(self) == *final(r),
    {
        self.can_authenticate = Some(value);
        self
    }

    pub fn user_ids(&mut self, value: Vec<UserId>) -> (r: &mut Self)
        ensures
            *r == (SubkeyParamsBuilder { user_ids: Some(value), ..*old(self) }),
            *final(self) == *final(r),
    {
        self.user_ids = Some(value);
        self
    }

    pub fn user_attributes(&mut self, value: Vec<UserAttribute>) -> (r: &mut Self)
        ensures
            *r == (SubkeyParamsBuilder { user_attributes: Some(value), ..*old(self) }),
            *final(self) == *final(r),
    {
        self.user_attributes = Some(value);
        self
    }

    pub fn passphrase(&mut self, value: Option<String>) -> (r: &mut Self)
        ensures
            *r == (SubkeyParamsBuilder { passphrase: Some(value), ..*old(self) }),
            *final(self) == *final(r),
    {
        self.passphrase = Some(value);
        self
    }

    pub fn s2k(&mut self, value: Option<S2kParams>) -> (r: &mut Self)
        ensures
            *r == (SubkeyParamsBuilder { s2k: Some(value), ..*old(self) }),
            *final(self) == *final(r),
    {
        self.s2k = Some(value);
        self
    }

    pub fn created_at(&mut self, value: i64) -> (r: &mut Self)
        ensures
            *r == (SubkeyParamsBuilder { created_at: Some(value), ..*old(self) }),
            *final(self) == *final(r),
    {
        self.created_at = Some(value);
        self
    }

    pub fn packet_version(&mut self, value: Version) -> (r: &mut Self)
        ensures
            *r == (SubkeyParamsBuilder { packet_version: Some(value), ..*old(self) }),
            *final(self) == *final(r),
    {
        self.packet_version = Some(value);
        self
    }

    pub fn version(&mut self, value: KeyVersion) -> (r: &mut Self)
        ensures
            *r == (SubkeyParamsBuilder { version: Some(value), ..*old(self) }),
            *final(self) == *final(r),
    {
        self.version = Some(value);
        self
    }

    pub fn expiration(&mut self, value: Option<u64>) -> (r: &mut Self)
        ensures
            *r == (SubkeyParamsBuilder { expiration: Some(value), ..*old(self) }),
            *final(self) == *final(r),
    {
        self.expiration = Some(value);
        self
    }

    /// Apply the algorithm-capability validation to the fields set so far.
    pub fn validate(&self) -> (r: Result<(), Error>)
        ensures
            r == validate_spec(self.key_type, self.can_sign, self.can_encrypt),
    {
        validate_fields(&self.key_type, &self.can_sign, &self.can_encrypt)
    }

    /// What building from this accumulator yields: the validation verdict,
    /// then the demand that the key type and the passphrase decision were
    /// set.
    pub open spec fn build_check(b: SubkeyParamsBuilder) -> Result<(), Error> {
        if validate_spec(b.key_type, b.can_sign, b.can_encrypt) is Err {
            validate_spec(b.key_type, b.can_sign, b.can_encrypt)
        } else if b.key_type is None {
            Err(Error::MissingField)
        } else if b.passphrase is None {
            Err(Error::MissingField)
        } else {
            Ok(())
        }
    }

    /// The record a successful build yields, around the captured timestamp.
    pub open spec fn build_view(b: SubkeyParamsBuilder, created_at: i64) -> SubkeyParamsV {
        SubkeyParamsV {
            key_type: b.key_type->0,
            can_sign: b.can_sign == Some(true),
            can_certify: b.can_certify == Some(true),
            can_encrypt: b.can_encrypt == Some(true),
            can_authenticate: b.can_authenticate == Some(true),
            user_ids: (match b.user_ids {
                Some(v) => v.deep_view(),
                None => Seq::empty(),
            }),
            user_attributes: (match b.user_attributes {
                Some(v) => v.deep_view(),
                None => Seq::empty(),
            }),
            passphrase: (match b.passphrase {
                Some(p) => pass_view(p),
                None => None,
            }),
            s2k: (match b.s2k {
                Some(o) => opt_s2k_view(o),
                None => None,
            }),
            created_at,
            packet_version: (match b.packet_version {
                Some(v) => v,
                None => Version::default_spec(),
            }),
            version: (match b.version {
                Some(v) => v,
                None => KeyVersion::default_spec(),
            }),
            expiration: (match b.expiration {
                Some(e) => e,
                None => None,
            }),
        }
    }

    /// Validate the fields set so far and build the immutable record, every
    /// unset optional field filled from its default. The creation timestamp
    /// is sampled once here if none was given.
    pub fn build(&self) -> (r: Result<SubkeyParams, Error>)
        ensures
            (match r {
                Ok(p) => {
                    &&& Self::build_check(*self) is Ok
                    &&& p@ == Self::build_view(*self, p@.created_at)
                    &&& (self.created_at matches Some(t) ==> p@.created_at == t)
                },
                Err(e) => Self::build_check(*self) == Err::<(), Error>(e),
            }),
    {
        match self.validate() {
            Ok(_) => {},
            Err(e) => {
                return Err(e);
            },
        }
        let key_type = match &self.key_type {
            Some(kt) => *kt,
            None => {
                return Err(Error::MissingField);
            },
        };
        let passphrase = match &self.passphrase {
            Some(p) => clone_opt_string(p),
            None => {
                return Err(Error::MissingField);
            },
        };
        let user_ids = match &self.user_ids {
            Some(v) => clone_user_ids(v),
            None => Vec::new(),
        };
        let user_attributes = match &self.user_attributes {
            Some(v) => clone_user_attributes(v),
            None => Vec::new(),
        };
        let s2k = match &self.s2k {
            Some(o) => clone_opt_s2k(o),
            None => None,
        };
        let created_at = match self.created_at {
            Some(t) => t,
            None => now_seconds(),
        };
        let built = SubkeyParams {
            key_type,
            can_sign: self.can_sign.unwrap_or(false),
            can_certify: self.can_certify.unwrap_or(false),
            can_encrypt: self.can_encrypt.unwrap_or(false),
            can_authenticate: self.can_authenticate.unwrap_or(false),
            user_ids,
            user_attributes,
            passphrase,
            s2k,
            created_at,
            packet_version: match self.packet_version {
                Some(v) => v,
                None => Version::default(),
            },
            version: match self.version {
                Some(v) => v,
                None => KeyVersion::default(),
            },
            expiration: match self.expiration {
                Some(e) => e,
                None => None,
            },
        };
        proof {
            let expected = Self::build_view(*self, built.created_at);
            assert(built@.user_ids =~= expected.user_ids);
            assert(built@.user_attributes =~= expected.user_attributes);
            assert(built@ == expected);
        }
        Ok(built)
    }
}

impl Default for SubkeyParamsBuilder {
    fn default() -> (r: SubkeyParamsBuilder)
        ensures
            r == SubkeyParamsBuilder::empty_spec(),
    {
        SubkeyParamsBuilder {
            key_type: None,
            can_sign: None,
            can_certify: None,
            can_encrypt: None,
            can_authenticate: None,
            user_ids: None,
            user_attributes: None,
            passphrase: None,
            s2k: None,
            created_at: None,
            packet_version: None,
            version: None,
            expiration: None,
        }
    }
}

/// The shared executable form of the algorithm-capability validation.
fn validate_fields(
    key_type: &Option<KeyType>,
    can_sign: &Option<bool>,
    can_encrypt: &Option<bool>,
) -> (r: Result<(), Error>)
    ensures
        r == validate_spec(*key_type, *can_sign, *can_encrypt),
{
    match key_type {
        Some(KeyType::Rsa(size)) => {
            if *size < 2048 {
                return Err(Error::InvalidKeySize);
            }
        },
        Some(KeyType::EdDSALegacy) => {
            if let Some(ce) = can_encrypt {
                if *ce {
                    return Err(Error::InvalidUsage);
                }
            }
        },
        Some(KeyType::ECDSA(curve)) => {
            if let Some(ce) = can_encrypt {
                if *ce {
                    return Err(Error::InvalidUsage);
                }
            }
            match curve {
                ECCCurve::P256 | ECCCurve::P384 | ECCCurve::P521 | ECCCurve::Secp256k1 => {},
                _ => {
                    return Err(Error::UnsupportedCurve);
                },
            }
        },
        Some(KeyType::ECDH(_)) => {
            if let Some(cs) = can_sign {
                if *cs {
                    return Err(Error::InvalidUsage);
                }
            }
        },
        Some(KeyType::Dsa(_)) => {
            if let Some(ce) = can_encrypt {
                if *ce {
                    return Err(Error::InvalidUsage);
                }
            }
        },
        None => {},
    }
    Ok(())
}

/// The accumulator for [`SecretKeyParams`]: every field optional until build
/// time, when validation runs and defaults are filled in.
#[derive(Debug, Clone)]
pub struct SecretKeyParamsBuilder {
    pub key_type: Option<KeyType>,
    pub can_sign: Option<bool>,
    pub can_certify: Option<bool>,
    pub can_encrypt: Option<bool>,
    pub preferred_symmetric_algorithms: Option<Vec<SymmetricKeyAlgorithm>>,
    pub preferred_hash_algorithms: Option<Vec<HashAlgorithm>>,
    pub preferred_compression_algorithms: Option<Vec<CompressionAlgorithm>>,
    pub revocation_key: Option<Option<RevocationKey>>,
    pub primary_user_id: Option<String>,
    pub user_ids: Option<Vec<String>>,
    pub user_attributes: Option<Vec<UserAttribute>>,
    pub passphrase: Option<Option<String>>,
    pub s2k: Option<Option<S2kParams>>,
    pub created_at: Option<i64>,
    pub packet_version: Option<Version>,
    pub version: Option<KeyVersion>,
    pub expiration: Option<Option<u64>>,
    pub subkeys: Option<Vec<SubkeyParams>>,
}

impl SecretKeyParamsBuilder {
    /// The builder with nothing set.
    pub open spec fn empty_spec() -> SecretKeyParamsBuilder {
        SecretKeyParamsBuilder {
            key_type: None,
            can_sign: None,
            can_certify: None,
            can_encrypt: None,
            preferred_symmetric_algorithms: None,
            preferred_hash_algorithms: None,
            preferred_compression_algorithms: None,
            revocation_key: None,
            primary_user_id: None,
            user_ids: None,
            user_attributes: None,
            passphrase: None,
            s2k: None,
            created_at: None,
            packet_version: None,
            version: None,
            expiration: None,
            subkeys: None,
        }
    }

    pub fn key_type(&mut self, value: KeyType) -> (r: &mut Self)
        ensures
            *r == (SecretKeyParamsBuilder { key_type: Some(value), ..*old(self) }),
            *final(self) == *final(r),
    {
        self.key_type = Some(value);
        self
    }

    pub fn can_sign(&mut self, value: bool) -> (r: &mut Self)
        ensures
            *r == (SecretKeyParamsBuilder { can_sign: Some(value), ..*old(self) }),
            *final(self) == *final(r),
    {
        self.can_sign = Some(value);
        self
    }

    pub fn can_certify(&mut self, value: bool) -> (r: &mut Self)
        ensures
            *r == (SecretKeyParamsBuilder { can_certify: Some(value), ..*old(self) }),
            *final(self) == *final(r),
    {
        self.can_certify = Some(value);
        self
    }

    pub fn can_encrypt(&mut self, value: bool) -> (r: &mut Self)
        ensures
            *r == (SecretKeyParamsBuilder { can_encrypt: Some(value), ..*old(self) }),
            *final(self) == *final(r),
    {
        self.can_encrypt = Some(value);
        self
    }

    pub fn preferred_symmetric_algorithms(&mut self, value: Vec<SymmetricKeyAlgorithm>) -> (r:
        &mut Self)
        ensures
            *r == (SecretKeyParamsBuilder {
                preferred_symmetric_algorithms: Some(value),
                ..*old(self)
            }),
            *final(self) == *final(r),
    {
        self.preferred_symmetric_algorithms = Some(value);
        self
    }

    pub fn preferred_hash_algorithms(&mut self, value: Vec<HashAlgorithm>) -> (r: &mut Self)
        ensures
            *r == (SecretKeyParamsBuilder { preferred_hash_algorithms: Some(value), ..*old(self) }),
            *final(self) == *final(r),
    {
        self.preferred_hash_algorithms = Some(value);
        self
    }

    pub fn preferred_compression_algorithms(&mut self, value: Vec<CompressionAlgorithm>) -> (r:
        &mut Self)
        ensures
            *r == (SecretKeyParamsBuilder {
                preferred_compression_algorithms: Some(value),
                ..*old(self)
            }),
            *final(self) == *final(r),
    {
        self.preferred_compression_algorithms = Some(value);
        self
    }

    pub fn revocation_key(&mut self, value: Option<RevocationKey>) -> (r: &mut Self)
        ensures
            *r == (SecretKeyParamsBuilder { revocation_key: Some(value), ..*old(self) }),
            *final(self) == *final(r),
    {
        self.revocation_key = Some(value);
        self
    }

    pub fn primary_user_id(&mut self, value: String) -> (r: &mut Self)
        ensures
            *r == (SecretKeyParamsBuilder { primary_user_id: Some(value), ..*old(self) }),
            *final(self) == *final(r),
    {
        self.primary_user_id = Some(value);
        self
    }

    pub fn user_ids(&mut self, value: Vec<String>) -> (r: &mut Self)
        ensures
            *r == (SecretKeyParamsBuilder { user_ids: Some(value), ..*old(self) }),
            *final(self) == *final(r),
    {
        self.user_ids = Some(value);
        self
    }

    pub fn user_attributes(&mut self, value: Vec<UserAttribute>) -> (r: &mut Self)
        ensures
            *r == (SecretKeyParamsBuilder { user_attributes: Some(value), ..*old(self) }),
            *final(self) == *final(r),
    {
        self.user_attributes = Some(value);
        self
    }

    pub fn passphrase(&mut self, value: Option<String>) -> (r: &mut Self)
        ensures
            *r == (SecretKeyParamsBuilder { passphrase: Some(value), ..*old(self) }),
            *final(self) == *final(r),
    {
        self.passphrase = Some(value);
        self
    }

    pub fn s2k(&mut self, value: Option<S2kParams>) -> (r: &mut Self)
        ensures
            *r == (SecretKeyParamsBuilder { s2k: Some(value), ..*old(self) }),
            *final(self) == *final(r),
    {
        self.s2k = Some(value);
        self
    }

    pub fn created_at(&mut self, value: i64) -> (r: &mut Self)
        ensures
            *r == (SecretKeyParamsBuilder { created_at: Some(value), ..*old(self) }),
            *final(self) == *final(r),
    {
        self.created_at = Some(value);
        self
    }

    pub fn packet_version(&mut self, value: Version) -> (r: &mut Self)
        ensures
            *r == (SecretKeyParamsBuilder { packet_version: Some(value), ..*old(self) }),
            *final(self) == *final(r),
    {
        self.packet_version = Some(value);
        self
    }

    pub fn version(&mut self, value: KeyVersion) -> (r: &mut Self)
        ensures
            *r == (SecretKeyParamsBuilder { version: Some(value), ..*old(self) }),
            *final(self) == *final(r),
    {
        self.version = Some(value);
        self
    }

    pub fn expiration(&mut self, value: Option<u64>) -> (r: &mut Self)
        ensures
            *r == (SecretKeyParamsBuilder { expiration: Some(value), ..*old(self) }),
            *final(self) == *final(r),
    {
        self.expiration = Some(value);
        self
    }

    pub fn subkeys(&mut self, value: Vec<SubkeyParams>) -> (r: &mut Self)
        ensures
            *r == (SecretKeyParamsBuilder { subkeys: Some(value), ..*old(self) }),
            *final(self) == *final(r),
    {
        self.subkeys = Some(value);
        self
    }

    /// Append one additional identity string, starting the list if none was
    /// set yet.
    pub fn user_id(&mut self, value: &str) -> (r: &mut Self)
        ensures
            *r == (SecretKeyParamsBuilder { user_ids: r.user_ids, ..*old(self) }),
            r.user_ids matches Some(v) && v.deep_view() == (match old(self).user_ids {
                Some(u) => u.deep_view().push(value@),
                None => seq![value@],
            }),
            *final(self) == *final(r),
    {
        let ghost before = self.user_ids;
        let owned = value.to_owned();
        let mut v = match self.user_ids.take() {
            Some(v) => v,
            None => Vec::new(),
        };
        v.push(owned);
        proof {
            assert(v.deep_view() =~= (match before {
                Some(u) => u.deep_view().push(value@),
                None => seq![value@],
            }));
        }
        self.user_ids = Some(v);
        self
    }

    /// Append one subkey's parameters, starting the list if none was set
    /// yet. Subkeys keep this declaration order through assembly.
    pub fn subkey(&mut self, value: SubkeyParams) -> (r: &mut Self)
        ensures
            *r == (SecretKeyParamsBuilder { subkeys: r.subkeys, ..*old(self) }),
            r.subkeys matches Some(v) && v.deep_view() == (match old(self).subkeys {
                Some(u) => u.deep_view().push(value@),
                None => seq![value@],
            }),
            *final(self) == *final(r),
    {
        let ghost before = self.subkeys;
        let mut v = match self.subkeys.take() {
            Some(v) => v,
            None => Vec::new(),
        };
        v.push(value);
        proof {
            assert(v.deep_view() =~= (match before {
                Some(u) => u.deep_view().push(value@),
                None => seq![value@],
            }));
        }
        self.subkeys = Some(v);
        self
    }

    /// Apply the algorithm-capability validation to the fields set so far.
    pub fn validate(&self) -> (r: Result<(), Error>)
        ensures
            r == validate_spec(self.key_type, self.can_sign, self.can_encrypt),
    {
        validate_fields(&self.key_type, &self.can_sign, &self.can_encrypt)
    }

    /// What building from this accumulator yields: the validation verdict,
    /// then the demand that the key type, the primary identity and the
    /// passphrase decision were set.
    pub open spec fn build_check(b: SecretKeyParamsBuilder) -> Result<(), Error> {
        if validate_spec(b.key_type, b.can_sign, b.can_encrypt) is Err {
            validate_spec(b.key_type, b.can_sign, b.can_encrypt)
        } else if b.key_type is None {
            Err(Error::MissingField)
        } else if b.primary_user_id is None {
            Err(Error::MissingField)
        } else if b.passphrase is None {
            Err(Error::MissingField)
        } else {
            Ok(())
        }
    }

    /// The record a successful build yields, around the captured timestamp.
    pub open spec fn build_view(b: SecretKeyParamsBuilder, created_at: i64) -> SecretKeyParamsV {
        SecretKeyParamsV {
            key_type: b.key_type->0,
            can_sign: b.can_sign == Some(true),
            can_certify: b.can_certify == Some(true),
            can_encrypt: b.can_encrypt == Some(true),
            preferred_symmetric_algorithms: (match b.preferred_symmetric_algorithms {
                Some(v) => v@,
                None => Seq::empty(),
            }),
            preferred_hash_algorithms: (match b.preferred_hash_algorithms {
                Some(v) => v@,
                None => Seq::empty(),
            }),
            preferred_compression_algorithms: (match b.preferred_compression_algorithms {
                Some(v) => v@,
                None => Seq::empty(),
            }),
            revocation_key: (match b.revocation_key {
                Some(o) => opt_revocation_view(o),
                None => None,
            }),
            primary_user_id: b.primary_user_id->0@,
            user_ids: (match b.user_ids {
                Some(v) => v.deep_view(),
                None => Seq::empty(),
            }),
            user_attributes: (match b.user_attributes {
                Some(v) => v.deep_view(),
                None => Seq::empty(),
            }),
            passphrase: (match b.passphrase {
                Some(p) => pass_view(p),
                None => None,
            }),
            s2k: (match b.s2k {
                Some(o) => opt_s2k_view(o),
                None => None,
            }),
            created_at,
            packet_version: (match b.packet_version {
                Some(v) => v,
                None => Version::default_spec(),
            }),
            version: (match b.version {
                Some(v) => v,
                None => KeyVersion::default_spec(),
            }),
            expiration: (match b.expiration {
                Some(e) => e,
                None => None,
            }),
            subkeys: (match b.subkeys {
                Some(v) => v.deep_view(),
                None => Seq::empty(),
            }),
        }
    }

    /// Validate the fields set so far and build the immutable record, every
    /// unset optional field filled from its default: empty preference and
    /// identity lists, no revocation reference, no explicit derivation
    /// configuration, current packet and key format versions, no expiration,
    /// no subkeys. The creation timestamp is sampled once here, not at
    /// generation time, if none was given.
    #[verifier::rlimit(60)]
    pub fn build(&self) -> (r: Result<SecretKeyParams, Error>)
        ensures
            (match r {
                Ok(p) => {
                    &&& Self::build_check(*self) is Ok
                    &&& p@ == Self::build_view(*self, p@.created_at)
                    &&& (self.created_at matches Some(t) ==> p@.created_at == t)
                },
                Err(e) => Self::build_check(*self) == Err::<(), Error>(e),
            }),
    {
        match self.validate() {
            Ok(_) => {},
            Err(e) => {
                return Err(e);
            },
        }
        let key_type = match &self.key_type {
            Some(kt) => *kt,
            None => {
                return Err(Error::MissingField);
            },
        };
        let primary_user_id = match &self.primary_user_id {
            Some(s) => s.clone(),
            None => {
                return Err(Error::MissingField);
            },
        };
        let passphrase = match &self.passphrase {
            Some(p) => clone_opt_string(p),
            None => {
                return Err(Error::MissingField);
            },
        };
        let preferred_symmetric_algorithms = match &self.preferred_symmetric_algorithms {
            Some(v) => clone_copy_vec(v),
            None => Vec::new(),
        };
        let preferred_hash_algorithms = match &self.preferred_hash_algorithms {
            Some(v) => clone_copy_vec(v),
            None => Vec::new(),
        };
        let preferred_compression_algorithms = match &self.preferred_compression_algorithms {
            Some(v) => clone_copy_vec(v),
            None => Vec::new(),
        };
        let revocation_key = match &self.revocation_key {
            Some(o) => clone_opt_revocation(o),
            None => None,
        };
        let user_ids = match &self.user_ids {
            Some(v) => clone_strings(v),
            None => Vec::new(),
        };
        let user_attributes = match &self.user_attributes {
            Some(v) => clone_user_attributes(v),
            None => Vec::new(),
        };
        let s2k = match &self.s2k {
            Some(o) => clone_opt_s2k(o),
            None => None,
        };
        let created_at = match self.created_at {
            Some(t) => t,
            None => now_seconds(),
        };
        let subkeys = match &self.subkeys {
            Some(v) => clone_subkeys(v),
            None => Vec::new(),
        };
        let built = SecretKeyParams {
            key_type,
            can_sign: self.can_sign.unwrap_or(false),
            can_certify: self.can_certify.unwrap_or(false),
            can_encrypt: self.can_encrypt.unwrap_or(false),
            preferred_symmetric_algorithms,
            preferred_hash_algorithms,
            preferred_compression_algorithms,
            revocation_key,
            primary_user_id,
            user_ids,
            user_attributes,
            passphrase,
            s2k,
            created_at,
            packet_version: match self.packet_version {
                Some(v) => v,
                None => Version::default(),
            },
            version: match self.version {
                Some(v) => v,
                None => KeyVersion::default(),
            },
            expiration: match self.expiration {
                Some(e) => e,
                None => None,
            },
            subkeys,
        };
        proof {
            let expected = Self::build_view(*self, built.created_at);
            assert(built@.preferred_symmetric_algorithms =~= expected.preferred_symmetric_algorithms);
            assert(built@.preferred_hash_algorithms =~= expected.preferred_hash_algorithms);
            assert(built@.preferred_compression_algorithms
                =~= expected.preferred_compression_algorithms);
            assert(built@.user_ids =~= expected.user_ids);
            assert(built@.user_attributes =~= expected.user_attributes);
            assert(built@.subkeys =~= expected.subkeys);
            assert(built@ == expected);
        }
        Ok(built)
    }
}

impl Default for SecretKeyParamsBuilder {
    fn default() -> (r: SecretKeyParamsBuilder)
        ensures
            r == SecretKeyParamsBuilder::empty_spec(),
    {
        SecretKeyParamsBuilder {
            key_type: None,
            can_sign: None,
            can_certify: None,
            can_encrypt: None,
            preferred_symmetric_algorithms: None,
            preferred_hash_algorithms: None,
            preferred_compression_algorithms: None,
            revocation_key: None,
            primary_user_id: None,
            user_ids: None,
            user_attributes: None,
            passphrase: None,
            s2k: None,
            created_at: None,
            packet_version: None,
            version: None,
            expiration: None,
            subkeys: None,
        }
    }
}

/// For every bit size under 2048, RSA parameters fail validation with
/// `InvalidKeySize`; for every size of at least 2048 they pass, whatever the
/// capability intents.
pub proof fn lemma_rsa_size_rule(bits: u32, can_sign: Option<bool>, can_encrypt: Option<bool>)
    ensures
        bits < 2048 ==> validate_spec(Some(KeyType::Rsa(bits)), can_sign, can_encrypt)
            == Err::<(), Error>(Error::InvalidKeySize),
        bits >= 2048 ==> validate_spec(Some(KeyType::Rsa(bits)), can_sign, can_encrypt)
            == Ok::<(), Error>(()),
{
}

/// EdDSA and ECDSA are signing-only: a can-encrypt intent fails validation
/// with `InvalidUsage`, and without it they pass (ECDSA on a curve of its
/// legality set).
pub proof fn lemma_signing_only_rule(curve: ECCCurve, can_sign: Option<bool>, can_encrypt: Option<
    bool,
>)
    ensures
        validate_spec(Some(KeyType::EdDSALegacy), can_sign, Some(true)) == Err::<(), Error>(
            Error::InvalidUsage,
        ),
        validate_spec(Some(KeyType::ECDSA(curve)), can_sign, Some(true)) == Err::<(), Error>(
            Error::InvalidUsage,
        ),
        can_encrypt != Some(true) ==> validate_spec(
            Some(KeyType::EdDSALegacy),
            can_sign,
            can_encrypt,
        ) == Ok::<(), Error>(()),
        can_encrypt != Some(true) && ecdsa_curve_ok(curve) ==> validate_spec(
            Some(KeyType::ECDSA(curve)),
            can_sign,
            can_encrypt,
        ) == Ok::<(), Error>(()),
{
}

/// ECDH is encryption-only: a can-sign intent fails validation with
/// `InvalidUsage`, and without it it passes.
pub proof fn lemma_ecdh_rule(curve: ECCCurve, can_sign: Option<bool>, can_encrypt: Option<bool>)
    ensures
        validate_spec(Some(KeyType::ECDH(curve)), Some(true), can_encrypt) == Err::<(), Error>(
            Error::InvalidUsage,
        ),
        can_sign != Some(true) ==> validate_spec(Some(KeyType::ECDH(curve)), can_sign, can_encrypt)
            == Ok::<(), Error>(()),
{
}

/// DSA is signing-only: a can-encrypt intent fails validation with
/// `InvalidUsage`, and without it it passes.
pub proof fn lemma_dsa_rule(size: crate::key_type::DsaKeySize, can_sign: Option<bool>, can_encrypt: Option<bool>)
    ensures
        validate_spec(Some(KeyType::Dsa(size)), can_sign, Some(true)) == Err::<(), Error>(
            Error::InvalidUsage,
        ),
        can_encrypt != Some(true) ==> validate_spec(Some(KeyType::Dsa(size)), can_sign, can_encrypt)
            == Ok::<(), Error>(()),
{
}

/// ECDSA on a curve outside its legality set fails validation with
/// `UnsupportedCurve` (once the usage check passes), and the legality set is
/// exactly P-256, P-384, P-521 and secp256k1.
pub proof fn lemma_ecdsa_curve_rule(curve: ECCCurve, can_sign: Option<bool>, can_encrypt: Option<
    bool,
>)
    ensures
        !ecdsa_curve_ok(curve) && can_encrypt != Some(true) ==> validate_spec(
            Some(KeyType::ECDSA(curve)),
            can_sign,
            can_encrypt,
        ) == Err::<(), Error>(Error::UnsupportedCurve),
        ecdsa_curve_ok(curve) <==> (curve == ECCCurve::P256 || curve == ECCCurve::P384 || curve
            == ECCCurve::P521 || curve == ECCCurve::Secp256k1),
{
}

} // verus!
