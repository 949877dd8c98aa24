use vstd::prelude::*;
use crate::types::Version;
use crate::types::KeyVersion;
use crate::types::PublicKeyAlgorithm;
use crate::key_type::PublicParams;
use crate::key_type::PublicParamsV;
use crate::secret::SecretParams;
use crate::secret::SecretParamsV;

verus! {

// The packet-level records of a generated key: a public envelope (format and
// version tags, algorithm identifier, timestamp, expiration, public
// parameters) and the secret record wrapping it together with the secret
// material.

/// The public envelope of a primary key.
#[derive(Debug, Clone, PartialEq, Eq)]
pub struct PublicKey {
    pub packet_version: Version,
    pub version: KeyVersion,
    pub algorithm: PublicKeyAlgorithm,
    pub created_at: i64,
    pub expiration: Option<u16>,
    pub public_params: PublicParams,
}

/// The mathematical model of a [`PublicKey`].
pub struct PublicKeyV {
    pub packet_version: Version,
    pub version: KeyVersion,
    pub algorithm: PublicKeyAlgorithm,
    pub created_at: i64,
    pub expiration: Option<u16>,
    pub public_params: PublicParamsV,
}

impl View for PublicKey {
    type V = PublicKeyV;

    open spec fn view(&self) -> PublicKeyV {
        PublicKeyV {
            packet_version: self.packet_version,
            version: self.version,
            algorithm: self.algorithm,
            created_at: self.created_at,
            expiration: self.expiration,
            public_params: self.public_params@,
        }
    }
}

impl PublicKey {
    pub fn new(
        packet_version: Version,
        version: KeyVersion,
        algorithm: PublicKeyAlgorithm,
        created_at: i64,
        expiration: Option<u16>,
        public_params: PublicParams,
    ) -> (r: PublicKey)
        ensures
            r@ == (PublicKeyV {
                packet_version,
                version,
                algorithm,
                created_at,
                expiration,
                public_params: public_params@,
            }),
    {
        PublicKey { packet_version, version, algorithm, created_at, expiration, public_params }
    }
}

/// The secret record of a primary key: its public envelope plus its secret
/// material.
#[derive(Debug, Clone, PartialEq, Eq)]
pub struct SecretKey {
    pub public_key: PublicKey,
    pub secret_params: SecretParams,
}

/// The mathematical model of a packet-level [`SecretKey`].
pub struct SecretKeyV {
    pub public_key: PublicKeyV,
    pub secret_params: SecretParamsV,
}

impl View for SecretKey {
    type V = SecretKeyV;

    open spec fn view(&self) -> SecretKeyV {
        SecretKeyV { public_key: self.public_key@, secret_params: self.secret_params@ }
    }
}

impl SecretKey {
    pub fn new(public_key: PublicKey, secret_params: SecretParams) -> (r: SecretKey)
        ensures
            r@ == (SecretKeyV { public_key: public_key@, secret_params: secret_params@ }),
    {
        SecretKey { public_key, secret_params }
    }
}

/// The public envelope of a subkey.
#[derive(Debug, Clone, PartialEq, Eq)]
pub struct PublicSubkey {
    pub packet_version: Version,
    pub version: KeyVersion,
    pub algorithm: PublicKeyAlgorithm,
    pub created_at: i64,
    pub expiration: Option<u16>,
    pub public_params: PublicParams,
}

/// The mathematical model of a [`PublicSubkey`].
pub struct PublicSubkeyV {
    pub packet_version: Version,
    pub version: KeyVersion,
    pub algorithm: PublicKeyAlgorithm,
    pub created_at: i64,
    pub expiration: Option<u16>,
    pub public_params: PublicParamsV,
}

impl View for PublicSubkey {
    type V = PublicSubkeyV;

    open spec fn view(&self) -> PublicSubkeyV {
        PublicSubkeyV {
            packet_version: self.packet_version,
            version: self.version,
            algorithm: self.algorithm,
            created_at: self.created_at,
            expiration: self.expiration,
            public_params: self.public_params@,
        }
    }
}

impl DeepView for PublicSubkey {
    type V = PublicSubkeyV;

    open spec fn deep_view(&self) -> PublicSubkeyV {
        self.view()
    }
}

impl PublicSubkey {
    pub fn new(
        packet_version: Version,
        version: KeyVersion,
        algorithm: PublicKeyAlgorithm,
        created_at: i64,
        expiration: Option<u16>,
        public_params: PublicParams,
    ) -> (r: PublicSubkey)
        ensures
            r@ == (PublicSubkeyV {
                packet_version,
                version,
                algorithm,
                created_at,
                expiration,
                public_params: public_params@,
            }),
    {
        PublicSubkey { packet_version, version, algorithm, created_at, expiration, public_params }
    }
}

/// The secret record of a subkey: its public envelope plus its secret
/// material.
#[derive(Debug, Clone, PartialEq, Eq)]
pub struct SecretSubkey {
    pub public_key: PublicSubkey,
    pub secret_params: SecretParams,
}

/// The mathematical model of a packet-level [`SecretSubkey`].
pub struct SecretSubkeyV {
    pub public_key: PublicSubkeyV,
    pub secret_params: SecretParamsV,
}

impl View for SecretSubkey {
    type V = SecretSubkeyV;

    open spec fn view(&self) -> SecretSubkeyV {
        SecretSubkeyV { public_key: self.public_key@, secret_params: self.secret_params@ }
    }
}

impl SecretSubkey {
    pub fn new(public_key: PublicSubkey, secret_params: SecretParams) -> (r: SecretSubkey)
        ensures
            r@ == (SecretSubkeyV { public_key: public_key@, secret_params: secret_params@ }),
    {
        SecretSubkey { public_key, secret_params }
    }
}

} // verus!
