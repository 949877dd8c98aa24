use vstd::prelude::*;
use rand::RngCore;
use rand::SeedableRng;

verus! {

// The randomness source is an outside collaborator: its values are opaque to
// verification. A seeded source is nevertheless reproducible, which the
// contracts below capture through `chacha_draw`.

#[verifier::external_type_specification]
#[verifier::external_body]
pub struct ExChaCha8Rng(rand_chacha::ChaCha8Rng);

#[verifier::external_type_specification]
#[verifier::external_body]
pub struct ExThreadRng(rand::rngs::ThreadRng);

/// The bytes that a ChaCha8 generator seeded from `seed` hands out for a
/// request of `n` bytes, after earlier requests of the sizes listed in
/// `prior`. The generator is a pure stream cipher, so the bytes of a request
/// depend only on the seed and on the sizes of the requests made before it;
/// they are the same in every process and on every machine.
pub uninterp spec fn chacha_draw(seed: u64, prior: Seq<int>, n: int) -> Seq<u8>;

/// A reproducible randomness source: a ChaCha8 generator expanded from a
/// 64-bit seed, together with the ghost history of the requests made so far.
pub struct SeededRng {
    inner: rand_chacha::ChaCha8Rng,
    seed: Ghost<u64>,
    prior: Ghost<Seq<int>>,
}

impl SeededRng {
    /// The seed this source was expanded from.
    pub closed spec fn spec_seed(self) -> u64 {
        self.seed@
    }

    /// The sizes of the requests served so far.
    pub closed spec fn spec_prior(self) -> Seq<int> {
        self.prior@
    }

    /// Relies on `rand_chacha::ChaCha8Rng::seed_from_u64`: expanding a 64-bit
    /// seed into a generator state is deterministic.
    #[verifier::external_body]
    pub fn from_seed(seed: u64) -> (r: SeededRng)
        ensures
            r.spec_seed() == seed,
            r.spec_prior() == Seq::<int>::empty(),
    {
        SeededRng {
            inner: rand_chacha::ChaCha8Rng::seed_from_u64(seed),
            seed: Ghost(seed),
            prior: Ghost(Seq::empty()),
        }
    }

    /// Relies on `rand_chacha::ChaCha8Rng::fill_bytes`: the generator is a
    /// pure stream cipher, so the bytes filled for one request are a function
    /// of the seed and of the sizes of the requests made before it.
    #[verifier::external_body]
    pub fn draw(&mut self, n: usize) -> (r: Vec<u8>)
        ensures
            r@.len() == n,
            r@ == chacha_draw(old(self).spec_seed(), old(self).spec_prior(), n as int),
            final(self).spec_seed() == old(self).spec_seed(),
            final(self).spec_prior() == old(self).spec_prior().push(n as int),
    {
        let mut buf = vec![0u8; n];
        self.inner.fill_bytes(&mut buf);
        buf
    }
}

/// An operating-system-backed randomness source; nothing is known of the
/// bytes it yields beyond their number.
pub struct SystemRng {
    inner: rand::rngs::ThreadRng,
}

impl SystemRng {
    /// Relies on `rand::thread_rng`: returns a handle to a lazily seeded,
    /// cryptographically secure generator.
    #[verifier::external_body]
    pub fn new() -> (r: SystemRng)
    {
        SystemRng { inner: rand::thread_rng() }
    }

    /// Relies on `rand::rngs::ThreadRng::fill_bytes`: fills the whole buffer
    /// and does not fail under normal operation.
    #[verifier::external_body]
    pub fn draw(&mut self, n: usize) -> (r: Vec<u8>)
        ensures
            r@.len() == n,
    {
        let mut buf = vec![0u8; n];
        self.inner.fill_bytes(&mut buf);
        buf
    }
}

/// The single mutable randomness source threaded by exclusive ownership
/// through primary-key generation and then each subkey's generation.
pub enum RngSource {
    /// Reproducible: same seed and same request sizes give the same bytes.
    Seeded(SeededRng),
    /// Operating-system randomness; not reproducible.
    System(SystemRng),
}

impl RngSource {
    pub closed spec fn is_seeded(self) -> bool {
        match self {
            RngSource::Seeded(_) => true,
            RngSource::System(_) => false,
        }
    }

    /// The seed of a seeded source; immaterial for a system source.
    pub closed spec fn seed(self) -> u64 {
        match self {
            RngSource::Seeded(s) => s.spec_seed(),
            RngSource::System(_) => 0,
        }
    }

    /// The sizes of the requests served so far by a seeded source.
    pub closed spec fn prior(self) -> Seq<int> {
        match self {
            RngSource::Seeded(s) => s.spec_prior(),
            RngSource::System(_) => Seq::empty(),
        }
    }

    pub fn from_seed(seed: u64) -> (r: RngSource)
        ensures
            r.is_seeded(),
            r.seed() == seed,
            r.prior() == Seq::<int>::empty(),
    {
        RngSource::Seeded(SeededRng::from_seed(seed))
    }

    pub fn system() -> (r: RngSource)
        ensures
            !r.is_seeded(),
    {
        RngSource::System(SystemRng::new())
    }

    /// Draw `n` bytes, advancing the source's state.
    pub fn draw(&mut self, n: usize) -> (r: Vec<u8>)
        ensures
            r@.len() == n,
            final(self).is_seeded() == old(self).is_seeded(),
            final(self).seed() == old(self).seed(),
            old(self).is_seeded() ==> r@ == chacha_draw(
                old(self).seed(),
                old(self).prior(),
                n as int,
            ),
            old(self).is_seeded() ==> final(self).prior() == old(self).prior().push(n as int),
    {
        match self {
            RngSource::Seeded(s) => s.draw(n),
            RngSource::System(s) => s.draw(n),
        }
    }
}

} // verus!
