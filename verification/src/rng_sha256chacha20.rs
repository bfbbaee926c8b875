//! The hash-then-stream strategy: SHA-256 advances the state, and the
//! first 32 bytes of a ChaCha20 keystream keyed by a state are its output.

use vstd::prelude::*;
use crate::env::Env;
use crate::mixer::{marked_if_empty, Mixer, EMPTY_ENTROPY};
use crate::ratchet::{
    advance, advanced, entropy_bytes, joined_input, lemma_advance_input_joined,
};
use rand_chacha::rand_core::{RngCore, SeedableRng};
use sha2::Digest;

verus! {

/// A `sha2::Sha256` hasher. Nothing inside it is visible here.
#[verifier::external_body]
pub struct Sha256Hasher {
    inner: sha2::Sha256,
}

/// The bytes that a hasher has been fed since it was created, joined in
/// the order in which they came.
pub uninterp spec fn sha256_fed(hasher: Sha256Hasher) -> Seq<u8>;

/// The SHA-256 digest of `data`.
pub uninterp spec fn sha256(data: Seq<u8>) -> Seq<u8>;

/// The first 32 bytes that a `ChaCha20Rng` seeded with `seed` produces.
pub uninterp spec fn chacha20_stream(seed: Seq<u8>) -> Seq<u8>;

/// `Sha256::new`, from the `Digest` trait. Believed, not proved: the
/// hasher starts with nothing fed.
#[verifier::external_body]
fn sha256_new() -> (hasher: Sha256Hasher)
    ensures
        sha256_fed(hasher) == Seq::<u8>::empty(),
{
    Sha256Hasher { inner: sha2::Sha256::new() }
}

/// `Sha256::update`, from the `Digest` trait. Believed, not proved: the
/// hasher takes its input as one stream, so that `data` follows what was
/// fed before with nothing in between.
#[verifier::external_body]
fn sha256_update(hasher: &mut Sha256Hasher, data: &[u8])
    ensures
        sha256_fed(*final(hasher)) == sha256_fed(*old(hasher)) + data@,
{
    hasher.inner.update(data);
}

/// `Sha256::finalize`, from the `Digest` trait. Believed, not proved: the
/// 32 bytes returned depend on nothing but the bytes fed.
#[verifier::external_body]
fn sha256_finalize(hasher: Sha256Hasher) -> (digest: [u8; 32])
    ensures
        digest@ == sha256(sha256_fed(hasher)),
{
    hasher.inner.finalize().into()
}

/// `ChaCha20Rng::from_seed`, and `fill_bytes` on the generator it gives,
/// for 32 bytes. Believed, not proved: the bytes are the start of the
/// keystream, and depend on nothing but the seed.
#[verifier::external_body]
fn chacha20_fill(seed: &[u8; 32]) -> (stream: [u8; 32])
    ensures
        stream@ == chacha20_stream(seed@),
{
    let mut stream = [0u8; 32];
    rand_chacha::ChaCha20Rng::from_seed(*seed).fill_bytes(&mut stream[..]);
    stream
}

/// An accumulator that is a SHA-256 hasher. It sees its input joined, so
/// it takes empty entropy as the byte `EMPTY_ENTROPY`. Its output path is
/// not the hash but the stream cipher.
pub struct Sha256ChaCha20 {
    hasher: Sha256Hasher,
    pieces: Ghost<Seq<Seq<u8>>>,
}

impl Mixer for Sha256ChaCha20 {
    closed spec fn wf(&self) -> bool {
        sha256_fed(self.hasher) == self.pieces@.flatten()
    }

    closed spec fn absorbed(&self) -> Seq<Seq<u8>> {
        self.pieces@
    }

    open spec fn entropy_piece(bytes: Seq<u8>) -> Seq<u8> {
        marked_if_empty(bytes)
    }

    open spec fn digest(absorbed: Seq<Seq<u8>>) -> Seq<u8> {
        sha256(absorbed.flatten())
    }

    open spec fn output(state: Seq<u8>) -> Seq<u8> {
        chacha20_stream(state)
    }

    fn new() -> (mixer: Self) {
        Sha256ChaCha20 { hasher: sha256_new(), pieces: Ghost(Seq::empty()) }
    }

    fn absorb(&mut self, bytes: &[u8]) {
        sha256_update(&mut self.hasher, bytes);
        self.pieces = Ghost(self.pieces@.push(bytes@));
        proof {
            old(self).pieces@.lemma_flatten_push(bytes@);
        }
    }

    fn absorb_entropy(&mut self, bytes: &[u8]) {
        if bytes.len() == 0 {
            let mark = [EMPTY_ENTROPY];
            assert(mark@ =~= marked_if_empty(bytes@));
            self.absorb(mark.as_slice());
        } else {
            self.absorb(bytes);
        }
    }

    fn finalize(self) -> (digest: [u8; 32]) {
        sha256_finalize(self.hasher)
    }

    fn derive_output(state: &[u8; 32]) -> (output: [u8; 32]) {
        chacha20_fill(state)
    }
}

/// The step of the ratchet under this strategy: the SHA-256 digest of the
/// seed, the entropy if entropy is present, and the six context fields,
/// joined in that order. Entropy that is present and empty is hashed as
/// the byte `EMPTY_ENTROPY`.
pub fn cycle(seed: &[u8], env: &Env, entropy: &Option<String>) -> (next: [u8; 32])
    ensures
        next@ == sha256(joined_input(seed@, entropy_bytes(*entropy), *env)),
        next@ == advanced::<Sha256ChaCha20>(seed@, entropy_bytes(*entropy), env.context()),
{
    proof {
        lemma_cycle_hashes_joined_input(seed@, entropy_bytes(*entropy), *env);
    }
    advance::<Sha256ChaCha20>(seed, env, entropy)
}

/// The output under this strategy: the start of the ChaCha20 keystream that
/// the seed keys.
pub fn emit(seed: &[u8; 32]) -> (output: [u8; 32])
    ensures
        output@ == chacha20_stream(seed@),
{
    crate::ratchet::derive::<Sha256ChaCha20>(seed)
}

/// Under this strategy the next state is the digest of `joined_input`.
pub proof fn lemma_cycle_hashes_joined_input(state: Seq<u8>, entropy: Option<Seq<u8>>, env: Env)
    ensures
        advanced::<Sha256ChaCha20>(state, entropy, env.context()) == sha256(
            joined_input(state, entropy, env),
        ),
{
    lemma_advance_input_joined::<Sha256ChaCha20>(state, entropy, env);
}

} // verus!
