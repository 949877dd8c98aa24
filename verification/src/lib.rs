//! A declarative, validated key-generation and assembly engine for
//! asymmetric key hierarchies in the OpenPGP style.
//!
//! The crate turns user-supplied parameters (algorithm choice, capability
//! flags, identity strings, preferences, an optional passphrase) into a fully
//! formed primary key plus an ordered list of subkeys, each carrying derived
//! key material and capability metadata.
//!
//! The arithmetic of key generation itself (prime search, curve points) and
//! the strength of the key-derivation step are outside this crate: key
//! material is modelled as bytes drawn from the shared randomness source, and
//! the protector is a structural model of passphrase-based protection. What
//! the crate verifies is everything around those collaborators: validation
//! before any generation work, deterministic threading of one randomness
//! source through the primary key and every subkey in declared order,
//! capability-flag compilation, and the self-consistency of the assembled
//! aggregate.

pub mod errors;
pub mod types;
pub mod rng;
pub mod clock;
pub mod secret;
pub mod key_type;
pub mod packet;
pub mod builder;
pub mod composed;
