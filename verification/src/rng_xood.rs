//! The sponge strategy: Xoodyak in hash mode, squeezed for a key.

use vstd::prelude::*;
use crate::env::Env;
use crate::mixer::Mixer;
use crate::ratchet::{advance, advanced, entropy_bytes};
use xoodyak::XoodyakCommon;

verus! {

/// `xoodyak::XoodyakHash`, the sponge in hash mode. Nothing inside it is
/// visible here.
#[verifier::external_type_specification]
#[verifier::external_body]
pub struct ExXoodyakHash(xoodyak::XoodyakHash);

/// The byte strings that a sponge has absorbed since it was created, one
/// entry for each call of `absorb`, oldest first.
pub uninterp spec fn xoodyak_absorbed(sponge: xoodyak::XoodyakHash) -> Seq<Seq<u8>>;

/// The 32 bytes that `squeeze_key` yields from a hash-mode sponge that has
/// absorbed exactly `absorbed`, in that order.
pub uninterp spec fn xoodyak_key(absorbed: Seq<Seq<u8>>) -> Seq<u8>;

/// `XoodyakHash::new`. Believed, not proved: the sponge starts from a
/// fixed state, with nothing absorbed.
#[verifier::external_body]
fn xoodyak_new() -> (sponge: xoodyak::XoodyakHash)
    ensures
        xoodyak_absorbed(sponge) == Seq::<Seq<u8>>::empty(),
{
    xoodyak::XoodyakHash::new()
}

/// `XoodyakCommon::absorb`. Believed, not proved: the call adds `bytes` to
/// what the sponge has absorbed as one more piece, after the earlier ones
/// and kept apart from them. An empty `bytes` is a piece too: the sponge
/// goes through a round for it.
#[verifier::external_body]
fn xoodyak_absorb(sponge: &mut xoodyak::XoodyakHash, bytes: &[u8])
    ensures
        xoodyak_absorbed(*final(sponge)) == xoodyak_absorbed(*old(sponge)).push(bytes@),
{
    sponge.absorb(bytes);
}

/// `XoodyakCommon::squeeze_key`, for 32 bytes. Believed, not proved: the
/// bytes squeezed depend on nothing but the pieces absorbed and their
/// order. The sponge is used up: what it holds afterwards is not
/// described.
#[verifier::external_body]
fn xoodyak_squeeze_key(sponge: xoodyak::XoodyakHash) -> (key: [u8; 32])
    ensures
        key@ == xoodyak_key(xoodyak_absorbed(sponge)),
{
    let mut sponge = sponge;
    let mut key = [0u8; 32];
    sponge.squeeze_key(&mut key);
    key
}

/// An accumulator that is a Xoodyak sponge. It keeps its pieces apart, so
/// it takes entropy as it is: an empty piece is a piece. Its output path is
/// the sponge again, fresh, fed the state alone.
pub struct Xoodyak {
    sponge: xoodyak::XoodyakHash,
}

impl Mixer for Xoodyak {
    open spec fn wf(&self) -> bool {
        true
    }

    closed spec fn absorbed(&self) -> Seq<Seq<u8>> {
        xoodyak_absorbed(self.sponge)
    }

    open spec fn entropy_piece(bytes: Seq<u8>) -> Seq<u8> {
        bytes
    }

    open spec fn digest(absorbed: Seq<Seq<u8>>) -> Seq<u8> {
        xoodyak_key(absorbed)
    }

    open spec fn output(state: Seq<u8>) -> Seq<u8> {
        xoodyak_key(seq![state])
    }

    fn new() -> (mixer: Self) {
        Xoodyak { sponge: xoodyak_new() }
    }

    fn absorb(&mut self, bytes: &[u8]) {
        xoodyak_absorb(&mut self.sponge, bytes);
    }

    fn absorb_entropy(&mut self, bytes: &[u8]) {
        self.absorb(bytes);
    }

    fn finalize(self) -> (digest: [u8; 32]) {
        xoodyak_squeeze_key(self.sponge)
    }

    fn derive_output(state: &[u8; 32]) -> (output: [u8; 32]) {
        let mut fresh = Self::new();
        fresh.absorb(state.as_slice());
        assert(fresh.absorbed() =~= seq![state@]);
        fresh.finalize()
    }
}

/// The step of the ratchet under this strategy: the key squeezed from a
/// sponge that absorbed the seed, the entropy if entropy is present, and
/// the six context fields, each in a call of its own.
pub fn cycle(seed: &[u8], env: &Env, entropy: &Option<String>) -> (next: [u8; 32])
    ensures
        next@ == xoodyak_key(
            match entropy_bytes(*entropy) {
                Some(bytes) => seq![seed@, bytes] + env.context(),
                None => seq![seed@] + env.context(),
            },
        ),
        next@ == advanced::<Xoodyak>(seed@, entropy_bytes(*entropy), env.context()),
{
    advance::<Xoodyak>(seed, env, entropy)
}

/// The output under this strategy: the key squeezed from a fresh sponge
/// that absorbed the seed alone.
pub fn emit(seed: &[u8; 32]) -> (output: [u8; 32])
    ensures
        output@ == xoodyak_key(seq![seed@]),
{
    crate::ratchet::derive::<Xoodyak>(seed)
}

} // verus!
