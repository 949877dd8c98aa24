use vstd::prelude::*;
use crate::builder::SecretKeyParams;
use crate::builder::SecretKeyParamsV;
use crate::builder::SubkeyParamsV;
use crate::errors::Error;
use crate::key_type::gen_matches;
use crate::key_type::key_gen_spec;
use crate::key_type::prior_after_key_gen;
use crate::key_type::public_len_spec;
use crate::key_type::secret_len_spec;
use crate::packet;
use crate::packet::PublicKeyV;
use crate::packet::PublicSubkey;
use crate::packet::PublicSubkeyV;
use crate::rng::RngSource;
use crate::rng::chacha_draw;
use crate::secret::S2kParams;
use crate::secret::S2kParamsV;
use crate::secret::S2K_SALT_LEN;
use crate::secret::SecretParamsV;
use crate::secret::default_s2k_with_salt;
use crate::secret::lemma_protect_round_trip;
use crate::secret::lemma_wrong_passphrase_fails;
use crate::secret::s2k_resolves;
use crate::secret::unlock_spec;
use crate::types::CompressionAlgorithm;
use crate::types::HashAlgorithm;
use crate::types::KeyFlags;
use crate::types::RevocationKey;
use crate::types::RevocationKeyV;
use crate::types::SymmetricKeyAlgorithm;
use crate::types::UserAttribute;
use crate::types::UserId;
use crate::types::UserIdV;
use crate::types::Version;

verus! {

// The composite key factory: validated parameters plus one randomness source
// become the assembled aggregate — a primary secret record, identity records,
// compiled preferences and capability flags, and the ordered subkey list. The
// source is threaded by exclusive ownership through the primary key and then
// each subkey in declared order, never re-seeded, so a seeded source makes
// the whole aggregate a pure function of the parameters, the seed and the
// source's request history.

/// Compile capability intents into a capability flag set: the single
/// can-encrypt intent drives both encryption flags.
pub open spec fn flags_spec(certify: bool, sign: bool, encrypt: bool, authenticate: bool) -> KeyFlags {
    KeyFlags {
        certify,
        sign,
        encrypt_comms: encrypt,
        encrypt_storage: encrypt,
        authentication: authenticate,
    }
}

/// The expiration tag an envelope carries for an optional expiration
/// duration in seconds.
pub open spec fn expiration_tag_spec(e: Option<u64>) -> Option<u16> {
    match e {
        Some(secs) => Some(((secs % 0x10000) as u16)),
        None => None,
    }
}

fn expiration_tag(e: Option<u64>) -> (r: Option<u16>)
    ensures
        r == expiration_tag_spec(e),
{
    match e {
        Some(secs) => Some((secs % 0x10000) as u16),
        None => None,
    }
}

/// The configuration a key resolves under a seeded source: the explicit one
/// where given, otherwise the synthesized default around a freshly drawn
/// salt.
pub open spec fn resolve_s2k_spec(given: Option<S2kParamsV>, seed: u64, prior: Seq<int>) -> S2kParamsV {
    match given {
        Some(g) => g,
        None => default_s2k_with_salt(chacha_draw(seed, prior, S2K_SALT_LEN as int)),
    }
}

/// The request history after resolving a configuration: one salt request
/// where none was given.
pub open spec fn prior_after_s2k(given: Option<S2kParamsV>, prior: Seq<int>) -> Seq<int> {
    match given {
        Some(_) => prior,
        None => prior.push(S2K_SALT_LEN as int),
    }
}

/// The primary secret record generated under a seeded source.
pub open spec fn primary_record_spec(p: SecretKeyParamsV, seed: u64, prior: Seq<int>) -> packet::SecretKeyV {
    let s2k = resolve_s2k_spec(p.s2k, seed, prior);
    let after_s2k = prior_after_s2k(p.s2k, prior);
    let gen = key_gen_spec(p.key_type, p.passphrase, s2k, seed, after_s2k);
    packet::SecretKeyV {
        public_key: PublicKeyV {
            packet_version: p.packet_version,
            version: p.version,
            algorithm: p.key_type.to_alg_spec(),
            created_at: p.created_at,
            expiration: expiration_tag_spec(p.expiration),
            public_params: gen.0,
        },
        secret_params: gen.1,
    }
}

/// The request history after generating the primary key.
pub open spec fn prior_after_primary(p: SecretKeyParamsV, prior: Seq<int>) -> Seq<int> {
    prior_after_key_gen(p.key_type, prior_after_s2k(p.s2k, prior))
}

/// One subkey record generated under a seeded source.
pub open spec fn subkey_record_spec(sp: SubkeyParamsV, seed: u64, prior: Seq<int>) -> SecretSubkeyV {
    let s2k = resolve_s2k_spec(sp.s2k, seed, prior);
    let after_s2k = prior_after_s2k(sp.s2k, prior);
    let gen = key_gen_spec(sp.key_type, sp.passphrase, s2k, seed, after_s2k);
    SecretSubkeyV {
        key: packet::SecretSubkeyV {
            public_key: PublicSubkeyV {
                packet_version: sp.packet_version,
                version: sp.version,
                algorithm: sp.key_type.to_alg_spec(),
                created_at: sp.created_at,
                expiration: expiration_tag_spec(sp.expiration),
                public_params: gen.0,
            },
            secret_params: gen.1,
        },
        keyflags: flags_spec(sp.can_certify, sp.can_sign, sp.can_encrypt, sp.can_authenticate),
    }
}

/// The request history after generating one subkey.
pub open spec fn prior_after_subkey(sp: SubkeyParamsV, prior: Seq<int>) -> Seq<int> {
    prior_after_key_gen(sp.key_type, prior_after_s2k(sp.s2k, prior))
}

/// The request history when the subkey at position `i` starts generating:
/// everything the subkeys before it drew, in declared order.
pub open spec fn prior_at(subs: Seq<SubkeyParamsV>, i: int, prior: Seq<int>) -> Seq<int>
    decreases i,
{
    if i <= 0 {
        prior
    } else {
        prior_after_subkey(subs[i - 1], prior_at(subs, i - 1, prior))
    }
}

/// The subkey records generated in declared order under a seeded source.
pub open spec fn subkeys_spec(subs: Seq<SubkeyParamsV>, seed: u64, prior: Seq<int>) -> Seq<SecretSubkeyV> {
    Seq::new(subs.len(), |i: int| subkey_record_spec(subs[i], seed, prior_at(subs, i, prior)))
}

/// The request history after generating every subkey.
pub open spec fn prior_after_subkeys(subs: Seq<SubkeyParamsV>, prior: Seq<int>) -> Seq<int> {
    prior_at(subs, subs.len() as int, prior)
}

/// The identity records and preference lists carried beside the primary key.
pub open spec fn details_spec(p: SecretKeyParamsV) -> KeyDetailsV {
    KeyDetailsV {
        primary_user_id: UserIdV { packet_version: Version::default_spec(), id: p.primary_user_id },
        user_ids: p.user_ids.map_values(
            |id: Seq<char>| UserIdV { packet_version: Version::default_spec(), id },
        ),
        user_attributes: p.user_attributes,
        keyflags: flags_spec(p.can_certify, p.can_sign, p.can_encrypt, false),
        preferred_symmetric_algorithms: p.preferred_symmetric_algorithms,
        preferred_hash_algorithms: p.preferred_hash_algorithms,
        preferred_compression_algorithms: p.preferred_compression_algorithms,
        revocation_key: p.revocation_key,
    }
}

/// The whole aggregate generated under a seeded source: a pure function of
/// the parameters, the seed and the source's request history.
pub open spec fn generate_spec(p: SecretKeyParamsV, seed: u64, prior: Seq<int>) -> SecretKeyV {
    SecretKeyV {
        primary_key: primary_record_spec(p, seed, prior),
        details: details_spec(p),
        public_subkeys: Seq::empty(),
        secret_subkeys: subkeys_spec(p.subkeys, seed, prior_after_primary(p, prior)),
    }
}

/// The structural facts that hold of one assembled subkey whatever the
/// randomness source yielded: envelope fields and capability flags match its
/// declaration, and its material matches its family, passphrase and
/// configuration.
pub open spec fn subkey_matches(sp: SubkeyParamsV, r: SecretSubkeyV) -> bool {
    &&& r.keyflags == flags_spec(sp.can_certify, sp.can_sign, sp.can_encrypt, sp.can_authenticate)
    &&& r.key.public_key.packet_version == sp.packet_version
    &&& r.key.public_key.version == sp.version
    &&& r.key.public_key.algorithm == sp.key_type.to_alg_spec()
    &&& r.key.public_key.created_at == sp.created_at
    &&& r.key.public_key.expiration == expiration_tag_spec(sp.expiration)
    &&& exists|s2k: S2kParamsV|
        s2k_resolves(sp.s2k, s2k) && #[trigger] gen_matches(
            sp.key_type,
            sp.passphrase,
            s2k,
            r.key.public_key.public_params,
            r.key.secret_params,
        )
}

/// The structural facts that hold of the whole assembled aggregate whatever
/// the randomness source yielded: the identity records, preferences and
/// compiled flags are exactly the declared ones, the primary envelope and
/// material match the parameters, and the subkey list carries one matching
/// record per declared subkey, in declared order.
pub open spec fn primary_matches(p: SecretKeyParamsV, k: SecretKeyV) -> bool {
    &&& k.details == details_spec(p)
    &&& k.primary_key.public_key.packet_version == p.packet_version
    &&& k.primary_key.public_key.version == p.version
    &&& k.primary_key.public_key.algorithm == p.key_type.to_alg_spec()
    &&& k.primary_key.public_key.created_at == p.created_at
    &&& k.primary_key.public_key.expiration == expiration_tag_spec(p.expiration)
    &&& exists|s2k: S2kParamsV|
        s2k_resolves(p.s2k, s2k) && #[trigger] gen_matches(
            p.key_type,
            p.passphrase,
            s2k,
            k.primary_key.public_key.public_params,
            k.primary_key.secret_params,
        )
    &&& k.public_subkeys == Seq::<PublicSubkeyV>::empty()
    &&& k.secret_subkeys.len() == p.subkeys.len()
    &&& forall|i: int|
        0 <= i < p.subkeys.len() ==> subkey_matches(p.subkeys[i], #[trigger] k.secret_subkeys[i])
}

/// The identity set, capability flags, preferences and revocation reference
/// carried beside a primary key.
#[derive(Debug, Clone, PartialEq, Eq)]
pub struct KeyDetails {
    pub primary_user_id: UserId,
    pub user_ids: Vec<UserId>,
    pub user_attributes: Vec<UserAttribute>,
    pub keyflags: KeyFlags,
    pub preferred_symmetric_algorithms: Vec<SymmetricKeyAlgorithm>,
    pub preferred_hash_algorithms: Vec<HashAlgorithm>,
    pub preferred_compression_algorithms: Vec<CompressionAlgorithm>,
    pub revocation_key: Option<RevocationKey>,
}

/// The mathematical model of a [`KeyDetails`].
pub struct KeyDetailsV {
    pub primary_user_id: UserIdV,
    pub user_ids: Seq<UserIdV>,
    pub user_attributes: Seq<Seq<u8>>,
    pub keyflags: KeyFlags,
    pub preferred_symmetric_algorithms: Seq<SymmetricKeyAlgorithm>,
    pub preferred_hash_algorithms: Seq<HashAlgorithm>,
    pub preferred_compression_algorithms: Seq<CompressionAlgorithm>,
    pub revocation_key: Option<RevocationKeyV>,
}

impl View for KeyDetails {
    type V = KeyDetailsV;

    open spec fn view(&self) -> KeyDetailsV {
        KeyDetailsV {
            primary_user_id: self.primary_user_id@,
            user_ids: self.user_ids.deep_view(),
            user_attributes: self.user_attributes.deep_view(),
            keyflags: self.keyflags,
            preferred_symmetric_algorithms: self.preferred_symmetric_algorithms@,
            preferred_hash_algorithms: self.preferred_hash_algorithms@,
            preferred_compression_algorithms: self.preferred_compression_algorithms@,
            revocation_key: crate::builder::opt_revocation_view(self.revocation_key),
        }
    }
}

impl KeyDetails {
    pub fn new(
        primary_user_id: UserId,
        user_ids: Vec<UserId>,
        user_attributes: Vec<UserAttribute>,
        keyflags: KeyFlags,
        preferred_symmetric_algorithms: Vec<SymmetricKeyAlgorithm>,
        preferred_hash_algorithms: Vec<HashAlgorithm>,
        preferred_compression_algorithms: Vec<CompressionAlgorithm>,
        revocation_key: Option<RevocationKey>,
    ) -> (r: KeyDetails)
        ensures
            r@ == (KeyDetailsV {
                primary_user_id: primary_user_id@,
                user_ids: user_ids.deep_view(),
                user_attributes: user_attributes.deep_view(),
                keyflags,
                preferred_symmetric_algorithms: preferred_symmetric_algorithms@,
                preferred_hash_algorithms: preferred_hash_algorithms@,
                preferred_compression_algorithms: preferred_compression_algorithms@,
                revocation_key: crate::builder::opt_revocation_view(revocation_key),
            }),
    {
        KeyDetails {
            primary_user_id,
            user_ids,
            user_attributes,
            keyflags,
            preferred_symmetric_algorithms,
            preferred_hash_algorithms,
            preferred_compression_algorithms,
            revocation_key,
        }
    }
}

/// An assembled subkey: its secret record and its compiled capability flags.
#[derive(Debug, Clone, PartialEq, Eq)]
pub struct SecretSubkey {
    pub key: packet::SecretSubkey,
    pub keyflags: KeyFlags,
}

/// The mathematical model of an assembled [`SecretSubkey`].
pub struct SecretSubkeyV {
    pub key: packet::SecretSubkeyV,
    pub keyflags: KeyFlags,
}

impl View for SecretSubkey {
    type V = SecretSubkeyV;

    open spec fn view(&self) -> SecretSubkeyV {
        SecretSubkeyV { key: self.key@, keyflags: self.keyflags }
    }
}

impl DeepView for SecretSubkey {
    type V = SecretSubkeyV;

    open spec fn deep_view(&self) -> SecretSubkeyV {
        self.view()
    }
}

impl SecretSubkey {
    pub fn new(key: packet::SecretSubkey, keyflags: KeyFlags) -> (r: SecretSubkey)
        ensures
            r@ == (SecretSubkeyV { key: key@, keyflags }),
    {
        SecretSubkey { key, keyflags }
    }
}

/// The assembled aggregate: the primary secret record, its identity and
/// preference details, and the ordered subkey list.
#[derive(Debug, Clone, PartialEq, Eq)]
pub struct SecretKey {
    pub primary_key: packet::SecretKey,
    pub details: KeyDetails,
    pub public_subkeys: Vec<PublicSubkey>,
    pub secret_subkeys: Vec<SecretSubkey>,
}

/// The mathematical model of an assembled [`SecretKey`].
pub struct SecretKeyV {
    pub primary_key: packet::SecretKeyV,
    pub details: KeyDetailsV,
    pub public_subkeys: Seq<PublicSubkeyV>,
    pub secret_subkeys: Seq<SecretSubkeyV>,
}

impl View for SecretKey {
    type V = SecretKeyV;

    open spec fn view(&self) -> SecretKeyV {
        SecretKeyV {
            primary_key: self.primary_key@,
            details: self.details@,
            public_subkeys: self.public_subkeys.deep_view(),
            secret_subkeys: self.secret_subkeys.deep_view(),
        }
    }
}

impl SecretKey {
    pub fn new(
        primary_key: packet::SecretKey,
        details: KeyDetails,
        public_subkeys: Vec<PublicSubkey>,
        secret_subkeys: Vec<SecretSubkey>,
    ) -> (r: SecretKey)
        ensures
            r@ == (SecretKeyV {
                primary_key: primary_key@,
                details: details@,
                public_subkeys: public_subkeys.deep_view(),
                secret_subkeys: secret_subkeys.deep_view(),
            }),
    {
        SecretKey { primary_key, details, public_subkeys, secret_subkeys }
    }
}

impl SecretKeyParams {
    /// Generate and assemble the whole key hierarchy, threading the given
    /// randomness source through the primary key and then each subkey in
    /// declared order.
    ///
    /// Whatever the source yields, the assembled aggregate matches the
    /// parameters structurally ([`primary_matches`]); under a seeded source
    /// it equals [`generate_spec`] exactly, so repeated runs from the same
    /// seed and parameters are identical.
    pub fn generate_with_rng(self, rng: &mut RngSource) -> (r: Result<SecretKey, Error>)
        ensures
            r is Ok,
            (match r {
                Ok(k) => primary_matches(self@, k@),
                Err(_) => false,
            }),
            final(rng).is_seeded() == old(rng).is_seeded(),
            final(rng).seed() == old(rng).seed(),
            old(rng).is_seeded() ==> (match r {
                Ok(k) => k@ == generate_spec(self@, old(rng).seed(), old(rng).prior()),
                Err(_) => false,
            }),
            old(rng).is_seeded() ==> final(rng).prior() == prior_after_subkeys(
                self@.subkeys,
                prior_after_primary(self@, old(rng).prior()),
            ),
    {
        let ghost pv = self@;
        let ghost seeded = rng.is_seeded();
        let ghost seed = rng.seed();
        let ghost prior0 = rng.prior();
        let SecretKeyParams {
            key_type,
            can_sign,
            can_certify,
            can_encrypt,
            preferred_symmetric_algorithms,
            preferred_hash_algorithms,
            preferred_compression_algorithms,
            revocation_key,
            primary_user_id,
            user_ids,
            user_attributes,
            passphrase,
            s2k,
            created_at,
            packet_version,
            version,
            expiration,
            subkeys,
        } = self;

        // Resolve the primary key's derivation configuration, then generate
        // and protect its material.
        let s2k_resolved = match s2k {
            Some(v) => v,
            None => S2kParams::new_default(rng),
        };
        let ghost s2kv = s2k_resolved@;
        let generated = key_type.generate_with_rng(rng, passphrase, s2k_resolved);
        let (public_params, secret_params) = match generated {
            Ok(v) => v,
            Err(e) => {
                return Err(e);
            },
        };
        let primary_key = packet::SecretKey::new(
            packet::PublicKey::new(
                packet_version,
                version,
                key_type.to_alg(),
                created_at,
                expiration_tag(expiration),
                public_params,
            ),
            secret_params,
        );
        proof {
            assert(s2k_resolves(pv.s2k, s2kv));
            assert(seeded ==> primary_key@ == primary_record_spec(pv, seed, prior0));
            assert(seeded ==> rng.prior() == prior_after_primary(pv, prior0));
        }

        // Compile the primary key's capability flags; a primary never sets
        // authenticate.
        let mut keyflags = KeyFlags::default();
        keyflags.set_certify(can_certify);
        keyflags.set_encrypt_comms(can_encrypt);
        keyflags.set_encrypt_storage(can_encrypt);
        keyflags.set_sign(can_sign);
        proof {
            assert(keyflags == flags_spec(pv.can_certify, pv.can_sign, pv.can_encrypt, false));
        }

        // Construct the identity records, the required primary identity
        // first, the additional ones in declared order.
        let primary_uid = UserId::from_str(Version::default(), primary_user_id.as_str());
        let mut uid_records: Vec<UserId> = Vec::new();
        let mut i: usize = 0;
        while i < user_ids.len()
            invariant
                i <= user_ids.len(),
                uid_records@.len() == i,
                forall|j: int|
                    0 <= j < i ==> uid_records.deep_view()[j] == (UserIdV {
                        packet_version: Version::default_spec(),
                        id: user_ids.deep_view()[j],
                    }),
            decreases user_ids.len() - i,
        {
            let uid = UserId::from_str(Version::default(), user_ids[i].as_str());
            let ghost uids_before = uid_records.deep_view();
            uid_records.push(uid);
            i = i + 1;
            proof {
                assert(uid_records.deep_view() =~= uids_before.push(uid@));
            }
        }
        let details = KeyDetails::new(
            primary_uid,
            uid_records,
            user_attributes,
            keyflags,
            preferred_symmetric_algorithms,
            preferred_hash_algorithms,
            preferred_compression_algorithms,
            revocation_key,
        );
        proof {
            assert(details@.user_ids =~= details_spec(pv).user_ids);
            assert(details@ == details_spec(pv));
        }

        // Generate each subkey in declared order, continuing the same
        // randomness source.
        let ghost subs0 = subkeys.deep_view();
        let ghost prior_mid = rng.prior();
        let mut remaining = subkeys;
        let mut secret_subkeys: Vec<SecretSubkey> = Vec::new();
        while remaining.len() > 0
            invariant
                secret_subkeys@.len() + remaining@.len() == subs0.len(),
                remaining.deep_view() =~= subs0.skip(secret_subkeys@.len() as int),
                forall|j: int|
                    0 <= j < secret_subkeys@.len() ==> subkey_matches(
                        subs0[j],
                        #[trigger] secret_subkeys.deep_view()[j],
                    ),
                rng.is_seeded() == seeded,
                rng.seed() == seed,
                seeded ==> forall|j: int|
                    0 <= j < secret_subkeys@.len() ==> #[trigger] secret_subkeys.deep_view()[j]
                        == subkey_record_spec(subs0[j], seed, prior_at(subs0, j, prior_mid)),
                seeded ==> rng.prior() == prior_at(
                    subs0,
                    secret_subkeys@.len() as int,
                    prior_mid,
                ),
            decreases remaining@.len(),
        {
            let ghost k = secret_subkeys@.len() as int;
            let ghost rem_before = remaining@;
            let ghost rem_dv_before = remaining.deep_view();
            let sub = remaining.remove(0);
            proof {
                rem_before.remove_ensures(0);
                assert(rem_dv_before[0] == rem_before[0].deep_view());
                assert(sub@ == subs0.skip(k)[0]);
                assert(sub@ == subs0[k]);
                assert forall|m: int|
                    0 <= m < remaining.deep_view().len() implies remaining.deep_view()[m]
                    == subs0.skip(k + 1)[m] by {
                    assert(remaining@[m] == rem_before[m + 1]);
                    assert(remaining.deep_view()[m] == remaining@[m].deep_view());
                    assert(rem_dv_before[m + 1] == rem_before[m + 1].deep_view());
                    assert(rem_dv_before[m + 1] == subs0.skip(k)[m + 1]);
                    assert(subs0.skip(k)[m + 1] == subs0[k + 1 + m]);
                }
                assert(remaining.deep_view() =~= subs0.skip(k + 1));
            }
            let sub_s2k = match sub.s2k {
                Some(v) => v,
                None => S2kParams::new_default(rng),
            };
            let ghost sub_s2kv = sub_s2k@;
            let sub_generated = sub.key_type.generate_with_rng(rng, sub.passphrase, sub_s2k);
            let (sub_public_params, sub_secret_params) = match sub_generated {
                Ok(v) => v,
                Err(e) => {
                    return Err(e);
                },
            };
            let mut sub_flags = KeyFlags::default();
            sub_flags.set_certify(sub.can_certify);
            sub_flags.set_encrypt_comms(sub.can_encrypt);
            sub_flags.set_encrypt_storage(sub.can_encrypt);
            sub_flags.set_sign(sub.can_sign);
            sub_flags.set_authentication(sub.can_authenticate);
            let record = SecretSubkey::new(
                packet::SecretSubkey::new(
                    PublicSubkey::new(
                        sub.packet_version,
                        sub.version,
                        sub.key_type.to_alg(),
                        sub.created_at,
                        expiration_tag(sub.expiration),
                        sub_public_params,
                    ),
                    sub_secret_params,
                ),
                sub_flags,
            );
            proof {
                assert(s2k_resolves(subs0[k].s2k, sub_s2kv));
                assert(subkey_matches(subs0[k], record@));
                assert(seeded ==> record@ == subkey_record_spec(
                    subs0[k],
                    seed,
                    prior_at(subs0, k, prior_mid),
                ));
            }
            let ghost built_before = secret_subkeys.deep_view();
            secret_subkeys.push(record);
            proof {
                assert(secret_subkeys.deep_view() =~= built_before.push(record@));
                assert(secret_subkeys.deep_view()[k] == record@);
            }
        }
        proof {
            assert(subs0.skip(secret_subkeys@.len() as int) =~= Seq::<SubkeyParamsV>::empty());
            assert(secret_subkeys@.len() == subs0.len());
            assert(seeded ==> secret_subkeys.deep_view() =~= subkeys_spec(subs0, seed, prior_mid));
        }

        let assembled = SecretKey::new(primary_key, details, Vec::new(), secret_subkeys);
        proof {
            assert(assembled@.public_subkeys =~= Seq::<PublicSubkeyV>::empty());
            assert(primary_matches(pv, assembled@));
            assert(seeded ==> assembled@ == generate_spec(pv, seed, prior0));
        }
        Ok(assembled)
    }

    /// Generate and assemble the whole key hierarchy from the operating
    /// system's randomness source.
    pub fn generate(self) -> (r: Result<SecretKey, Error>)
        ensures
            r is Ok,
            (match r {
                Ok(k) => primary_matches(self@, k@),
                Err(_) => false,
            }),
    {
        let mut rng = RngSource::system();
        self.generate_with_rng(&mut rng)
    }
}

/// Determinism of generation: from equal parameters, the same seed and the
/// same request history, two generation runs yield identical assembled keys
/// — the aggregate is a pure function of those three, because the sequence
/// of randomness requests is fixed by the fixed order of assembly steps.
pub proof fn lemma_generate_deterministic(
    p1: SecretKeyParamsV,
    p2: SecretKeyParamsV,
    seed: u64,
    prior: Seq<int>,
)
    requires
        p1 == p2,
    ensures
        generate_spec(p1, seed, prior) == generate_spec(p2, seed, prior),
{
}

/// Subkeys appear in the assembled aggregate in the exact order they were
/// declared: one record per declaration, and the record at each position is
/// generated from the declaration at the same position, after everything the
/// earlier subkeys drew.
pub proof fn lemma_subkeys_in_declared_order(p: SecretKeyParamsV, seed: u64, prior: Seq<int>)
    ensures
        generate_spec(p, seed, prior).secret_subkeys.len() == p.subkeys.len(),
        forall|i: int|
            0 <= i < p.subkeys.len() ==> #[trigger] generate_spec(p, seed, prior).secret_subkeys[i]
                == subkey_record_spec(
                p.subkeys[i],
                seed,
                prior_at(p.subkeys, i, prior_after_primary(p, prior)),
            ),
{
}

/// Capability flags on the assembled primary and each subkey match the
/// declared intents exactly: certify, sign and authenticate map one to one,
/// the single can-encrypt intent drives both encryption flags, and a primary
/// never carries authenticate.
pub proof fn lemma_flags_match_intents(p: SecretKeyParamsV, seed: u64, prior: Seq<int>)
    ensures
        generate_spec(p, seed, prior).details.keyflags == flags_spec(
            p.can_certify,
            p.can_sign,
            p.can_encrypt,
            false,
        ),
        forall|i: int|
            0 <= i < p.subkeys.len() ==> (#[trigger] generate_spec(
                p,
                seed,
                prior,
            ).secret_subkeys[i]).keyflags == flags_spec(
                p.subkeys[i].can_certify,
                p.subkeys[i].can_sign,
                p.subkeys[i].can_encrypt,
                p.subkeys[i].can_authenticate,
            ),
{
}

/// Each flag of a compiled flag set comes from exactly one declared intent.
pub proof fn lemma_flags_spec_components(
    certify: bool,
    sign: bool,
    encrypt: bool,
    authenticate: bool,
)
    ensures
        flags_spec(certify, sign, encrypt, authenticate).certify == certify,
        flags_spec(certify, sign, encrypt, authenticate).sign == sign,
        flags_spec(certify, sign, encrypt, authenticate).encrypt_comms == encrypt,
        flags_spec(certify, sign, encrypt, authenticate).encrypt_storage == encrypt,
        flags_spec(certify, sign, encrypt, authenticate).authentication == authenticate,
{
}

/// Unlocking the primary secret record of a key generated with a passphrase
/// yields, under the same passphrase, exactly the raw secret material the
/// source drew; any other passphrase is refused.
pub proof fn lemma_generated_key_unlocks(
    p: SecretKeyParamsV,
    seed: u64,
    prior: Seq<int>,
    attempt: Seq<char>,
)
    requires
        p.passphrase is Some,
    ensures
        ({
            let raw = chacha_draw(
                seed,
                prior_after_s2k(p.s2k, prior).push(public_len_spec(p.key_type) as int),
                secret_len_spec(p.key_type) as int,
            );
            let sp = generate_spec(p, seed, prior).primary_key.secret_params;
            &&& unlock_spec(sp, p.passphrase->0) == Ok::<Seq<u8>, Error>(raw)
            &&& attempt != p.passphrase->0 ==> unlock_spec(sp, attempt) == Err::<Seq<u8>, Error>(
                Error::ProtectionFailure,
            )
        }),
{
    let s2k = resolve_s2k_spec(p.s2k, seed, prior);
    let raw = chacha_draw(
        seed,
        prior_after_s2k(p.s2k, prior).push(public_len_spec(p.key_type) as int),
        secret_len_spec(p.key_type) as int,
    );
    lemma_protect_round_trip(raw, p.passphrase->0, s2k);
    if attempt != p.passphrase->0 {
        lemma_wrong_passphrase_fails(raw, p.passphrase->0, attempt, s2k);
    }
}

/// A key generated without a passphrase carries plain secret material
/// identical to the raw drawn material; one generated with a passphrase
/// carries protected material. There is no fallback either direction.
pub proof fn lemma_secret_material_mode(p: SecretKeyParamsV, seed: u64, prior: Seq<int>)
    ensures
        (p.passphrase is None) <==> (generate_spec(p, seed, prior).primary_key.secret_params
            is Plain),
        p.passphrase is None ==> generate_spec(p, seed, prior).primary_key.secret_params
            == SecretParamsV::Plain(
            chacha_draw(
                seed,
                prior_after_s2k(p.s2k, prior).push(public_len_spec(p.key_type) as int),
                secret_len_spec(p.key_type) as int,
            ),
        ),
{
}

} // verus!
