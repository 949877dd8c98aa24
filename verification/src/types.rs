use vstd::prelude::*;

verus! {

/// Named elliptic curves that an algorithm choice can refer to.
#[derive(Debug, Clone, Copy, PartialEq, Eq, Structural)]
pub enum ECCCurve {
    Curve25519,
    P256,
    P384,
    P521,
    Secp256k1,
    BrainpoolP256r1,
    BrainpoolP384r1,
    BrainpoolP512r1,
}

/// The algorithm identifier carried by a generated key envelope.
#[derive(Debug, Clone, Copy, PartialEq, Eq, Structural)]
pub enum PublicKeyAlgorithm {
    RSA,
    ECDH,
    EdDSALegacy,
    ECDSA,
    DSA,
}

/// Symmetric cipher identifiers, used in preference lists and in the
/// key-derivation configuration.
#[derive(Debug, Clone, Copy, PartialEq, Eq, Structural)]
pub enum SymmetricKeyAlgorithm {
    AES128,
    AES192,
    AES256,
}

/// Hash algorithm identifiers, used in preference lists.
#[derive(Debug, Clone, Copy, PartialEq, Eq, Structural)]
pub enum HashAlgorithm {
    SHA1,
    SHA2_224,
    SHA2_256,
    SHA2_384,
    SHA2_512,
}

/// Compression algorithm identifiers, used in preference lists.
#[derive(Debug, Clone, Copy, PartialEq, Eq, Structural)]
pub enum CompressionAlgorithm {
    Uncompressed,
    ZIP,
    ZLIB,
}

/// The packet framing version of a record.
#[derive(Debug, Clone, Copy, PartialEq, Eq, Structural)]
pub enum Version {
    Old,
    New,
}

impl Version {
    /// The library-defined current packet framing version.
    pub open spec fn default_spec() -> Version {
        Version::New
    }
}

impl Default for Version {
    fn default() -> (r: Version)
        ensures
            r == Version::default_spec(),
    {
        Version::New
    }
}

/// The key format version of a record.
#[derive(Debug, Clone, Copy, PartialEq, Eq, Structural)]
pub enum KeyVersion {
    V2,
    V3,
    V4,
    V5,
    V6,
}

impl KeyVersion {
    /// The library-defined current key format version.
    pub open spec fn default_spec() -> KeyVersion {
        KeyVersion::V4
    }
}

impl Default for KeyVersion {
    fn default() -> (r: KeyVersion)
        ensures
            r == KeyVersion::default_spec(),
    {
        KeyVersion::V4
    }
}

/// The compiled set of operations a key is permitted to perform.
#[derive(Debug, Clone, Copy, PartialEq, Eq, Structural)]
pub struct KeyFlags {
    pub certify: bool,
    pub sign: bool,
    pub encrypt_comms: bool,
    pub encrypt_storage: bool,
    pub authentication: bool,
}

impl KeyFlags {
    /// The flag set with no capability granted.
    pub open spec fn none_spec() -> KeyFlags {
        KeyFlags {
            certify: false,
            sign: false,
            encrypt_comms: false,
            encrypt_storage: false,
            authentication: false,
        }
    }

    pub fn set_certify(&mut self, value: bool)
        ensures
            *final(self) == (KeyFlags { certify: value, ..*old(self) }),
    {
        self.certify = value;
    }

    pub fn set_sign(&mut self, value: bool)
        ensures
            *final(self) == (KeyFlags { sign: value, ..*old(self) }),
    {
        self.sign = value;
    }

    pub fn set_encrypt_comms(&mut self, value: bool)
        ensures
            *final(self) == (KeyFlags { encrypt_comms: value, ..*old(self) }),
    {
        self.encrypt_comms = value;
    }

    pub fn set_encrypt_storage(&mut self, value: bool)
        ensures
            *final(self) == (KeyFlags { encrypt_storage: value, ..*old(self) }),
    {
        self.encrypt_storage = value;
    }

    pub fn set_authentication(&mut self, value: bool)
        ensures
            *final(self) == (KeyFlags { authentication: value, ..*old(self) }),
    {
        self.authentication = value;
    }
}

impl Default for KeyFlags {
    fn default() -> (r: KeyFlags)
        ensures
            r == KeyFlags::none_spec(),
    {
        KeyFlags {
            certify: false,
            sign: false,
            encrypt_comms: false,
            encrypt_storage: false,
            authentication: false,
        }
    }
}

/// An identity record bound to a key: a packet framing version and the
/// identity string itself.
#[derive(Debug, Clone, PartialEq, Eq)]
pub struct UserId {
    pub packet_version: Version,
    pub id: String,
}

/// The mathematical model of a [`UserId`].
pub struct UserIdV {
    pub packet_version: Version,
    pub id: Seq<char>,
}

impl View for UserId {
    type V = UserIdV;

    open spec fn view(&self) -> UserIdV {
        UserIdV { packet_version: self.packet_version, id: self.id@ }
    }
}

impl DeepView for UserId {
    type V = UserIdV;

    open spec fn deep_view(&self) -> UserIdV {
        self.view()
    }
}

impl UserId {
    pub fn from_str(packet_version: Version, id: &str) -> (r: UserId)
        ensures
            r@ == (UserIdV { packet_version, id: id@ }),
    {
        UserId { packet_version, id: id.to_owned() }
    }

    /// Clone the record with its contents intact.
    pub fn duplicate(&self) -> (r: UserId)
        ensures
            r@ == self@,
    {
        UserId { packet_version: self.packet_version, id: self.id.clone() }
    }
}

/// An opaque user-attribute record, carried through assembly unchanged.
#[derive(Debug, Clone, PartialEq, Eq)]
pub struct UserAttribute {
    pub data: Vec<u8>,
}

impl View for UserAttribute {
    type V = Seq<u8>;

    open spec fn view(&self) -> Seq<u8> {
        self.data@
    }
}

impl DeepView for UserAttribute {
    type V = Seq<u8>;

    open spec fn deep_view(&self) -> Seq<u8> {
        self.view()
    }
}

impl UserAttribute {
    pub fn new(data: Vec<u8>) -> (r: UserAttribute)
        ensures
            r@ == data@,
    {
        UserAttribute { data }
    }

    /// Clone the record with its contents intact.
    pub fn duplicate(&self) -> (r: UserAttribute)
        ensures
            r@ == self@,
    {
        UserAttribute { data: clone_bytes(&self.data) }
    }
}

/// A reference to a key authorized to revoke this key.
#[derive(Debug, Clone, PartialEq, Eq)]
pub struct RevocationKey {
    pub class: u8,
    pub algorithm: PublicKeyAlgorithm,
    pub fingerprint: Vec<u8>,
}

/// The mathematical model of a [`RevocationKey`].
pub struct RevocationKeyV {
    pub class: u8,
    pub algorithm: PublicKeyAlgorithm,
    pub fingerprint: Seq<u8>,
}

impl View for RevocationKey {
    type V = RevocationKeyV;

    open spec fn view(&self) -> RevocationKeyV {
        RevocationKeyV {
            class: self.class,
            algorithm: self.algorithm,
            fingerprint: self.fingerprint@,
        }
    }
}

impl DeepView for RevocationKey {
    type V = RevocationKeyV;

    open spec fn deep_view(&self) -> RevocationKeyV {
        self.view()
    }
}

impl RevocationKey {
    pub fn new(class: u8, algorithm: PublicKeyAlgorithm, fingerprint: Vec<u8>) -> (r: RevocationKey)
        ensures
            r@ == (RevocationKeyV { class, algorithm, fingerprint: fingerprint@ }),
    {
        RevocationKey { class, algorithm, fingerprint }
    }

    /// Clone the record with its contents intact.
    pub fn duplicate(&self) -> (r: RevocationKey)
        ensures
            r@ == self@,
    {
        RevocationKey {
            class: self.class,
            algorithm: self.algorithm,
            fingerprint: clone_bytes(&self.fingerprint),
        }
    }
}

/// Copy a byte vector element by element.
pub fn clone_bytes(v: &Vec<u8>) -> (r: Vec<u8>)
    ensures
        r@ == v@,
{
    let mut out: Vec<u8> = Vec::new();
    let mut i: usize = 0;
    while i < v.len()
        invariant
            i <= v.len(),
            out@ == v@.take(i as int),
        decreases v.len() - i,
    {
        out.push(v[i]);
        i = i + 1;
        proof {
            assert(out@ =~= v@.take(i as int));
        }
    }
    proof {
        assert(out@ =~= v@);
    }
    out
}

} // verus!
