//! The hash strategy: BLAKE2s with a 256-bit digest.

use vstd::prelude::*;
use crate::env::Env;
use crate::mixer::{marked_if_empty, Mixer, EMPTY_ENTROPY};
use crate::ratchet::{
    advance, advanced, entropy_bytes, joined_input, lemma_advance_input_joined,
};
use blake2::Digest;

verus! {

/// A `blake2::Blake2s256` hasher. Nothing inside it is visible here.
#[verifier::external_body]
pub struct Blake2sHasher {
    inner: blake2::Blake2s256,
}

/// The bytes that a hasher has been fed since it was created, joined in
/// the order in which they came.
pub uninterp spec fn blake2s_fed(hasher: Blake2sHasher) -> Seq<u8>;

/// The BLAKE2s-256 digest of `data`.
pub uninterp spec fn blake2s256(data: Seq<u8>) -> Seq<u8>;

/// `Blake2s256::new`, from the `Digest` trait. Believed, not proved: the
/// hasher starts with nothing fed.
#[verifier::external_body]
fn blake2s_new() -> (hasher: Blake2sHasher)
    ensures
        blake2s_fed(hasher) == Seq::<u8>::empty(),
{
    Blake2sHasher { inner: blake2::Blake2s256::new() }
}

/// `Blake2s256::update`, from the `Digest` trait. Believed, not proved:
/// the hasher takes its input as one stream, so that `data` follows what
/// was fed before with nothing in between.
#[verifier::external_body]
fn blake2s_update(hasher: &mut Blake2sHasher, data: &[u8])
    ensures
        blake2s_fed(*final(hasher)) == blake2s_fed(*old(hasher)) + data@,
{
    hasher.inner.update(data);
}

/// `Blake2s256::finalize`, from the `Digest` trait. Believed, not proved:
/// the 32 bytes returned depend on nothing but the bytes fed.
#[verifier::external_body]
fn blake2s_finalize(hasher: Blake2sHasher) -> (digest: [u8; 32])
    ensures
        digest@ == blake2s256(blake2s_fed(hasher)),
{
    hasher.inner.finalize().into()
}

/// An accumulator that is a BLAKE2s hasher. It sees its input joined, so
/// it takes empty entropy as the byte `EMPTY_ENTROPY`. Its output path is
/// the same hash, of the state alone.
pub struct Blake2s {
    hasher: Blake2sHasher,
    pieces: Ghost<Seq<Seq<u8>>>,
}

impl Mixer for Blake2s {
    closed spec fn wf(&self) -> bool {
        blake2s_fed(self.hasher) == self.pieces@.flatten()
    }

    closed spec fn absorbed(&self) -> Seq<Seq<u8>> {
        self.pieces@
    }

    open spec fn entropy_piece(bytes: Seq<u8>) -> Seq<u8> {
        marked_if_empty(bytes)
    }

    open spec fn digest(absorbed: Seq<Seq<u8>>) -> Seq<u8> {
        blake2s256(absorbed.flatten())
    }

    open spec fn output(state: Seq<u8>) -> Seq<u8> {
        blake2s256(state)
    }

    fn new() -> (mixer: Self) {
        Blake2s { hasher: blake2s_new(), pieces: Ghost(Seq::empty()) }
    }

    fn absorb(&mut self, bytes: &[u8]) {
        blake2s_update(&mut self.hasher, bytes);
        self.pieces = Ghost(self.pieces@.push(bytes@));
        proof {
            old(self).pieces@.lemma_flatten_push(bytes@);
        }
    }

    fn absorb_entropy(&mut self, bytes: &[u8]) {
        if bytes.len() == 0 {
            let mark = [EMPTY_ENTROPY];
            assert(mark@ =~= marked_if_empty(bytes@));
            self.absorb(mark.as_slice());
        } else {
            self.absorb(bytes);
        }
    }

    fn finalize(self) -> (digest: [u8; 32]) {
        blake2s_finalize(self.hasher)
    }

    fn derive_output(state: &[u8; 32]) -> (output: [u8; 32]) {
        let mut fresh = Self::new();
        fresh.absorb(state.as_slice());
        assert(fresh.absorbed() =~= seq![state@]);
        proof {
            seq![state@].lemma_flatten_singleton();
        }
        fresh.finalize()
    }
}

/// The step of the ratchet under this strategy: the BLAKE2s-256 digest of
/// the seed, the entropy if entropy is present, and the six context
/// fields, joined in that order. Entropy that is present and empty is
/// hashed as the byte `EMPTY_ENTROPY`.
pub fn cycle(seed: &[u8], env: &Env, entropy: &Option<String>) -> (next: [u8; 32])
    ensures
        next@ == blake2s256(joined_input(seed@, entropy_bytes(*entropy), *env)),
        next@ == advanced::<Blake2s>(seed@, entropy_bytes(*entropy), env.context()),
{
    proof {
        lemma_cycle_hashes_joined_input(seed@, entropy_bytes(*entropy), *env);
    }
    advance::<Blake2s>(seed, env, entropy)
}

/// The output under this strategy: the BLAKE2s-256 digest of the seed
/// alone.
pub fn emit(seed: &[u8; 32]) -> (output: [u8; 32])
    ensures
        output@ == blake2s256(seed@),
{
    crate::ratchet::derive::<Blake2s>(seed)
}

/// Under this strategy the next state is the digest of `joined_input`.
pub proof fn lemma_cycle_hashes_joined_input(state: Seq<u8>, entropy: Option<Seq<u8>>, env: Env)
    ensures
        advanced::<Blake2s>(state, entropy, env.context()) == blake2s256(
            joined_input(state, entropy, env),
        ),
{
    lemma_advance_input_joined::<Blake2s>(state, entropy, env);
}

/// Under this strategy the output of a state is the digest of an
/// accumulator that absorbed the state and nothing else.
pub proof fn lemma_output_is_digest_of_state_alone(state: Seq<u8>)
    ensures
        Blake2s::output(state) == Blake2s::digest(seq![state]),
{
    seq![state].lemma_flatten_singleton();
}

} // verus!
