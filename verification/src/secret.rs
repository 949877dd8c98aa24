use vstd::prelude::*;
use vstd::utf8::encode_utf8;
use vstd::utf8::decode_utf8;
use vstd::utf8::encode_utf8_decode_utf8;
use vstd::string::StringSliceAdditionalSpecFns;
use crate::errors::Error;
use crate::types::KeyVersion;
use crate::types::SymmetricKeyAlgorithm;
use crate::types::clone_bytes;
use crate::rng::RngSource;
use crate::rng::chacha_draw;

verus! {

// The secret protector. Raw secret material plus an optional passphrase and a
// key-derivation configuration become either the material unchanged (no
// passphrase) or material bound to a key derived from the passphrase. The
// cryptographic strength of derivation and encryption is outside this crate;
// what is modelled, and proved, is their structure: protection is
// deterministic, bound to the configuration's salt, reversed exactly by the
// passphrase that was used, and refused for every other passphrase.

/// The number of salt bytes a synthesized default configuration draws.
pub const S2K_SALT_LEN: usize = 8;

/// The default derivation cost parameter of a synthesized configuration.
pub const DEFAULT_S2K_COST: u8 = 224;

/// A key-derivation configuration: how a passphrase becomes a symmetric key.
#[derive(Debug, Clone, PartialEq, Eq)]
pub struct S2kParams {
    pub salt: Vec<u8>,
    pub cost: u8,
    pub sym_alg: SymmetricKeyAlgorithm,
}

/// The mathematical model of an [`S2kParams`].
pub struct S2kParamsV {
    pub salt: Seq<u8>,
    pub cost: u8,
    pub sym_alg: SymmetricKeyAlgorithm,
}

impl View for S2kParams {
    type V = S2kParamsV;

    open spec fn view(&self) -> S2kParamsV {
        S2kParamsV { salt: self.salt@, cost: self.cost, sym_alg: self.sym_alg }
    }
}

impl DeepView for S2kParams {
    type V = S2kParamsV;

    open spec fn deep_view(&self) -> S2kParamsV {
        self.view()
    }
}

/// The model of a configuration synthesized by default around `salt`.
pub open spec fn default_s2k_with_salt(salt: Seq<u8>) -> S2kParamsV {
    S2kParamsV { salt, cost: DEFAULT_S2K_COST, sym_alg: SymmetricKeyAlgorithm::AES256 }
}

/// Whether `resolved` is a legal resolution of an optional explicit
/// configuration: the explicit one where given, otherwise a synthesized
/// default with a fresh salt of the default length.
pub open spec fn s2k_resolves(given: Option<S2kParamsV>, resolved: S2kParamsV) -> bool {
    match given {
        Some(g) => resolved == g,
        None => resolved == default_s2k_with_salt(resolved.salt) && resolved.salt.len()
            == S2K_SALT_LEN,
    }
}

impl S2kParams {
    /// Synthesize the default configuration: a fresh salt drawn from the
    /// randomness source, default cost, default symmetric cipher.
    pub fn new_default(rng: &mut RngSource) -> (r: S2kParams)
        ensures
            r@ == default_s2k_with_salt(r@.salt),
            r@.salt.len() == S2K_SALT_LEN,
            final(rng).is_seeded() == old(rng).is_seeded(),
            final(rng).seed() == old(rng).seed(),
            old(rng).is_seeded() ==> r@.salt == chacha_draw(
                old(rng).seed(),
                old(rng).prior(),
                S2K_SALT_LEN as int,
            ),
            old(rng).is_seeded() ==> final(rng).prior() == old(rng).prior().push(
                S2K_SALT_LEN as int,
            ),
    {
        let salt = rng.draw(S2K_SALT_LEN);
        S2kParams { salt, cost: DEFAULT_S2K_COST, sym_alg: SymmetricKeyAlgorithm::AES256 }
    }

    /// Clone the configuration with its contents intact.
    pub fn duplicate(&self) -> (r: S2kParams)
        ensures
            r@ == self@,
    {
        S2kParams { salt: clone_bytes(&self.salt), cost: self.cost, sym_alg: self.sym_alg }
    }
}

/// The key derived from a passphrase (as its UTF-8 bytes) under a salt and a
/// cost parameter. The derivation is a structural model: deterministic,
/// salt-bound, and injective in the passphrase for a fixed configuration
/// (see [`lemma_kdf_injective`]); its strength is outside this crate.
pub open spec fn kdf_spec(pass: Seq<u8>, salt: Seq<u8>, cost: u8) -> Seq<u8> {
    (salt + seq![cost] + pass).map(|i: int, b: u8| mix_byte(i, b))
}

/// One byte of derived key material: the base byte folded with its position.
pub open spec fn mix_byte(i: int, b: u8) -> u8 {
    b ^ ((i % 251) as u8)
}

/// The verifier stored beside protected material, recomputable only from the
/// derived key. Injective, so a matching verifier pins the key.
pub open spec fn check_spec(key: Seq<u8>) -> Seq<u8> {
    key.map(|i: int, b: u8| (b ^ 0xa5) as u8)
}

/// The keystream combination of `data` under `key`: each byte folded with the
/// key byte at its position, cycling through the key.
pub open spec fn xor_stream(data: Seq<u8>, key: Seq<u8>) -> Seq<u8>
    recommends
        key.len() > 0,
{
    data.map(|i: int, b: u8| (b ^ key[i % (key.len() as int)]) as u8)
}

proof fn lemma_xor_cancel(a: u8, m: u8)
    ensures
        ((a ^ m) ^ m) == a,
{
    assert(((a ^ m) ^ m) == a) by (bit_vector);
}

proof fn lemma_xor_right_injective(a: u8, b: u8, m: u8)
    requires
        (a ^ m) == (b ^ m),
    ensures
        a == b,
{
    assert((a ^ m) == (b ^ m) ==> a == b) by (bit_vector);
}

/// Combining twice under the same key gives the data back.
pub proof fn lemma_xor_stream_round_trip(data: Seq<u8>, key: Seq<u8>)
    requires
        key.len() > 0,
    ensures
        xor_stream(xor_stream(data, key), key) == data,
{
    let once = xor_stream(data, key);
    let twice = xor_stream(once, key);
    assert forall|i: int| 0 <= i < data.len() implies twice[i] == data[i] by {
        lemma_xor_cancel(data[i], key[i % (key.len() as int)]);
    }
    assert(twice =~= data);
}

/// The key verifier is injective: equal verifiers come from equal keys.
pub proof fn lemma_check_injective(k1: Seq<u8>, k2: Seq<u8>)
    requires
        check_spec(k1) == check_spec(k2),
    ensures
        k1 == k2,
{
    assert(k1.len() == k2.len()) by {
        assert(check_spec(k1).len() == k1.len());
        assert(check_spec(k2).len() == k2.len());
    }
    assert forall|i: int| 0 <= i < k1.len() implies k1[i] == k2[i] by {
        assert(check_spec(k1)[i] == (k1[i] ^ 0xa5));
        assert(check_spec(k2)[i] == (k2[i] ^ 0xa5));
        lemma_xor_right_injective(k1[i], k2[i], 0xa5);
    }
    assert(k1 =~= k2);
}

/// For a fixed salt and cost, the derivation is injective in the passphrase
/// bytes: equal derived keys come from equal passphrases.
pub proof fn lemma_kdf_injective(p1: Seq<u8>, p2: Seq<u8>, salt: Seq<u8>, cost: u8)
    requires
        kdf_spec(p1, salt, cost) == kdf_spec(p2, salt, cost),
    ensures
        p1 == p2,
{
    let base1 = salt + seq![cost] + p1;
    let base2 = salt + seq![cost] + p2;
    assert(kdf_spec(p1, salt, cost).len() == base1.len());
    assert(kdf_spec(p2, salt, cost).len() == base2.len());
    assert(p1.len() == p2.len());
    assert forall|j: int| 0 <= j < p1.len() implies p1[j] == p2[j] by {
        let i = salt.len() + 1 + j;
        assert(base1[i] == p1[j]);
        assert(base2[i] == p2[j]);
        assert(kdf_spec(p1, salt, cost)[i] == mix_byte(i, base1[i]));
        assert(kdf_spec(p2, salt, cost)[i] == mix_byte(i, base2[i]));
        lemma_xor_right_injective(p1[j], p2[j], ((i % 251) as u8));
    }
    assert(p1 =~= p2);
}

/// Secret key material protected by a passphrase-derived key, together with
/// the configuration that derived it.
#[derive(Debug, Clone, PartialEq, Eq)]
pub struct EncryptedSecretParams {
    pub ciphertext: Vec<u8>,
    pub key_check: Vec<u8>,
    pub s2k: S2kParams,
    pub version: KeyVersion,
}

/// The mathematical model of an [`EncryptedSecretParams`].
pub struct EncryptedSecretParamsV {
    pub ciphertext: Seq<u8>,
    pub key_check: Seq<u8>,
    pub s2k: S2kParamsV,
    pub version: KeyVersion,
}

impl View for EncryptedSecretParams {
    type V = EncryptedSecretParamsV;

    open spec fn view(&self) -> EncryptedSecretParamsV {
        EncryptedSecretParamsV {
            ciphertext: self.ciphertext@,
            key_check: self.key_check@,
            s2k: self.s2k@,
            version: self.version,
        }
    }
}

/// Secret key material: either the raw generated bytes, or bytes bound to a
/// passphrase-derived key. There is no silent fallback either direction.
#[derive(Debug, Clone, PartialEq, Eq)]
pub enum SecretParams {
    Plain(Vec<u8>),
    Encrypted(EncryptedSecretParams),
}

/// The mathematical model of a [`SecretParams`].
pub enum SecretParamsV {
    Plain(Seq<u8>),
    Encrypted(EncryptedSecretParamsV),
}

impl View for SecretParams {
    type V = SecretParamsV;

    open spec fn view(&self) -> SecretParamsV {
        match self {
            SecretParams::Plain(m) => SecretParamsV::Plain(m@),
            SecretParams::Encrypted(e) => SecretParamsV::Encrypted(e@),
        }
    }
}

/// The view of an optional passphrase.
pub open spec fn pass_view(p: Option<String>) -> Option<Seq<char>> {
    match p {
        Some(s) => Some(s@),
        None => None,
    }
}

/// What protecting `plain` under an optional passphrase yields: the material
/// unchanged without a passphrase, or the keystream combination under the
/// derived key, beside the key's verifier and the configuration.
pub open spec fn protect_spec(plain: Seq<u8>, pass: Option<Seq<char>>, s2k: S2kParamsV) -> SecretParamsV {
    match pass {
        None => SecretParamsV::Plain(plain),
        Some(pw) => {
            let key = kdf_spec(encode_utf8(pw), s2k.salt, s2k.cost);
            SecretParamsV::Encrypted(
                EncryptedSecretParamsV {
                    ciphertext: xor_stream(plain, key),
                    key_check: check_spec(key),
                    s2k,
                    version: KeyVersion::default_spec(),
                },
            )
        },
    }
}

/// What unlocking secret material with a passphrase yields: plain material
/// unchanged; protected material exactly when the derived key's verifier
/// matches the stored one.
pub open spec fn unlock_spec(sp: SecretParamsV, pass: Seq<char>) -> Result<Seq<u8>, Error> {
    match sp {
        SecretParamsV::Plain(m) => Ok(m),
        SecretParamsV::Encrypted(e) => {
            let key = kdf_spec(encode_utf8(pass), e.s2k.salt, e.s2k.cost);
            if check_spec(key) == e.key_check {
                Ok(xor_stream(e.ciphertext, key))
            } else {
                Err(Error::ProtectionFailure)
            }
        },
    }
}

/// Derive the symmetric key for `passphrase` under a configuration.
fn derive_key(passphrase: &str, salt: &Vec<u8>, cost: u8) -> (r: Vec<u8>)
    ensures
        r@ == kdf_spec(passphrase.spec_bytes(), salt@, cost),
        r@.len() > 0,
{
    let pb = passphrase.as_bytes();
    let mut base: Vec<u8> = Vec::new();
    let mut i: usize = 0;
    while i < salt.len()
        invariant
            i <= salt.len(),
            base@ == salt@.take(i as int),
        decreases salt.len() - i,
    {
        base.push(salt[i]);
        i = i + 1;
        proof {
            assert(base@ =~= salt@.take(i as int));
        }
    }
    proof {
        assert(base@ =~= salt@);
    }
    base.push(cost);
    let ghost prefix = salt@ + seq![cost];
    proof {
        assert(base@ =~= prefix);
    }
    let mut j: usize = 0;
    while j < pb.len()
        invariant
            j <= pb.len(),
            base@ == prefix + pb@.take(j as int),
        decreases pb.len() - j,
    {
        base.push(pb[j]);
        j = j + 1;
        proof {
            assert(base@ =~= prefix + pb@.take(j as int));
        }
    }
    proof {
        assert(base@ =~= salt@ + seq![cost] + passphrase.spec_bytes());
    }
    let ghost basev = base@;
    let mut out: Vec<u8> = Vec::new();
    let mut k: usize = 0;
    while k < base.len()
        invariant
            k <= base.len(),
            base@ == basev,
            out@.len() == k,
            forall|m: int| 0 <= m < k ==> out@[m] == mix_byte(m, basev[m]),
        decreases base.len() - k,
    {
        let b = base[k] ^ ((k % 251) as u8);
        proof {
            assert(b == mix_byte(k as int, basev[k as int]));
        }
        out.push(b);
        k = k + 1;
    }
    proof {
        assert(out@ =~= kdf_spec(passphrase.spec_bytes(), salt@, cost));
    }
    out
}

/// Combine `data` with the keystream of `key`.
fn xor_with_key(data: &Vec<u8>, key: &Vec<u8>) -> (r: Vec<u8>)
    requires
        key@.len() > 0,
    ensures
        r@ == xor_stream(data@, key@),
{
    let mut out: Vec<u8> = Vec::new();
    let mut i: usize = 0;
    while i < data.len()
        invariant
            i <= data.len(),
            key@.len() > 0,
            out@.len() == i,
            forall|m: int| 0 <= m < i ==> out@[m] == (data@[m] ^ key@[m % (key@.len() as int)]),
        decreases data.len() - i,
    {
        out.push(data[i] ^ key[i % key.len()]);
        i = i + 1;
    }
    proof {
        assert(out@ =~= xor_stream(data@, key@));
    }
    out
}

/// Compute the verifier of a derived key.
fn check_of_key(key: &Vec<u8>) -> (r: Vec<u8>)
    ensures
        r@ == check_spec(key@),
{
    let mut out: Vec<u8> = Vec::new();
    let mut i: usize = 0;
    while i < key.len()
        invariant
            i <= key.len(),
            out@.len() == i,
            forall|m: int| 0 <= m < i ==> out@[m] == (key@[m] ^ 0xa5),
        decreases key.len() - i,
    {
        out.push(key[i] ^ 0xa5);
        i = i + 1;
    }
    proof {
        assert(out@ =~= check_spec(key@));
    }
    out
}

/// Compare two byte vectors for equal contents.
pub fn bytes_eq(a: &Vec<u8>, b: &Vec<u8>) -> (r: bool)
    ensures
        r <==> a@ == b@,
{
    if a.len() != b.len() {
        proof {
            assert(a@.len() != b@.len());
        }
        return false;
    }
    let mut i: usize = 0;
    while i < a.len()
        invariant
            i <= a.len(),
            a@.len() == b@.len(),
            forall|m: int| 0 <= m < i ==> a@[m] == b@[m],
        decreases a.len() - i,
    {
        if a[i] != b[i] {
            return false;
        }
        i = i + 1;
    }
    proof {
        assert(a@ =~= b@);
    }
    true
}

/// Protect raw secret material with an optional passphrase: the material
/// unchanged when no passphrase was decided on, protected material otherwise.
pub fn protect(plain: Vec<u8>, passphrase: Option<String>, s2k: S2kParams) -> (r: SecretParams)
    ensures
        r@ == protect_spec(plain@, pass_view(passphrase), s2k@),
{
    match passphrase {
        None => SecretParams::Plain(plain),
        Some(pw) => {
            let key = derive_key(pw.as_str(), &s2k.salt, s2k.cost);
            let ciphertext = xor_with_key(&plain, &key);
            let key_check = check_of_key(&key);
            SecretParams::Encrypted(
                EncryptedSecretParams { ciphertext, key_check, s2k, version: KeyVersion::default() },
            )
        },
    }
}

impl SecretParams {
    /// Recover the raw secret material. Plain material is returned unchanged;
    /// protected material is recovered exactly when the passphrase derives
    /// the key it was protected under.
    pub fn unlock(&self, passphrase: &str) -> (r: Result<Vec<u8>, Error>)
        ensures
            (match r {
                Ok(v) => unlock_spec(self@, passphrase@) == Ok::<Seq<u8>, Error>(v@),
                Err(e) => unlock_spec(self@, passphrase@) == Err::<Seq<u8>, Error>(e),
            }),
    {
        match self {
            SecretParams::Plain(m) => Ok(clone_bytes(m)),
            SecretParams::Encrypted(e) => {
                let key = derive_key(passphrase, &e.s2k.salt, e.s2k.cost);
                let check = check_of_key(&key);
                if bytes_eq(&check, &e.key_check) {
                    Ok(xor_with_key(&e.ciphertext, &key))
                } else {
                    Err(Error::ProtectionFailure)
                }
            },
        }
    }

    /// Whether this is plain (unprotected) material.
    pub fn is_plain(&self) -> (r: bool)
        ensures
            r <==> self@ is Plain,
    {
        match self {
            SecretParams::Plain(_) => true,
            SecretParams::Encrypted(_) => false,
        }
    }
}

/// Protection under a passphrase always yields protected material, and
/// unlocking it with the same passphrase gives the raw material back.
pub proof fn lemma_protect_round_trip(plain: Seq<u8>, pass: Seq<char>, s2k: S2kParamsV)
    ensures
        protect_spec(plain, Some(pass), s2k) is Encrypted,
        unlock_spec(protect_spec(plain, Some(pass), s2k), pass) == Ok::<Seq<u8>, Error>(plain),
{
    let key = kdf_spec(encode_utf8(pass), s2k.salt, s2k.cost);
    assert(key.len() > 0) by {
        assert((s2k.salt + seq![s2k.cost] + encode_utf8(pass)).len() > 0);
    }
    lemma_xor_stream_round_trip(plain, key);
}

/// Unlocking material protected under one passphrase with any other
/// passphrase fails.
pub proof fn lemma_wrong_passphrase_fails(
    plain: Seq<u8>,
    pass: Seq<char>,
    attempt: Seq<char>,
    s2k: S2kParamsV,
)
    requires
        attempt != pass,
    ensures
        unlock_spec(protect_spec(plain, Some(pass), s2k), attempt) == Err::<Seq<u8>, Error>(
            Error::ProtectionFailure,
        ),
{
    let key = kdf_spec(encode_utf8(pass), s2k.salt, s2k.cost);
    let tried = kdf_spec(encode_utf8(attempt), s2k.salt, s2k.cost);
    if check_spec(tried) == check_spec(key) {
        lemma_check_injective(tried, key);
        lemma_kdf_injective(encode_utf8(attempt), encode_utf8(pass), s2k.salt, s2k.cost);
        encode_utf8_decode_utf8(attempt);
        encode_utf8_decode_utf8(pass);
        assert(attempt == pass);
    }
}

/// Protection without a passphrase leaves the raw material untouched, and it
/// unlocks as itself under any passphrase.
pub proof fn lemma_plain_without_passphrase(plain: Seq<u8>, attempt: Seq<char>, s2k: S2kParamsV)
    ensures
        protect_spec(plain, None, s2k) == SecretParamsV::Plain(plain),
        unlock_spec(protect_spec(plain, None, s2k), attempt) == Ok::<Seq<u8>, Error>(plain),
{
}

} // verus!
