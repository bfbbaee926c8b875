//! The mixing primitive: an accumulator that absorbs byte strings and is
//! finalized into a 32-byte digest, with a second path that derives an
//! output from a state.

use vstd::prelude::*;

verus! {

/// The byte that stands for entropy that is present and empty, under a
/// strategy that sees its input joined. No text holds it: the byte occurs
/// in the UTF-8 encoding of no string.
pub const EMPTY_ENTROPY: u8 = 0xff;

/// Entropy as a strategy that sees its input joined takes it: as it is
/// where it has bytes, and as the one byte `EMPTY_ENTROPY` where it has
/// none, so that it is never nothing.
pub open spec fn marked_if_empty(bytes: Seq<u8>) -> Seq<u8> {
    if bytes.len() == 0 {
        seq![EMPTY_ENTROPY]
    } else {
        bytes
    }
}

/// One mixing strategy. An instance is built on one strategy and keeps it:
/// whatever is generic in `Mixer` is decided where the instance is built,
/// never while a request is served.
///
/// The digest of an accumulator depends on the pieces it absorbed and on
/// their order, and on nothing else. Whether it also depends on where one
/// piece ends and the next begins is up to the strategy: a sponge keeps
/// the pieces apart, a one-pass hash sees them joined.
pub trait Mixer: Sized {
    /// What an accumulator must satisfy to be used: `new` establishes it
    /// and `absorb` keeps it.
    spec fn wf(&self) -> bool;

    /// The byte strings absorbed so far, one entry for each call of
    /// `absorb` or `absorb_entropy`, oldest first.
    spec fn absorbed(&self) -> Seq<Seq<u8>>;

    /// The piece that entropy is absorbed as, where it is present. It is
    /// the entropy itself wherever that tells present entropy from absent
    /// entropy; a strategy that would not see an empty piece puts
    /// something in its place.
    spec fn entropy_piece(bytes: Seq<u8>) -> Seq<u8>;

    /// The digest of an accumulator that has absorbed exactly `absorbed`.
    spec fn digest(absorbed: Seq<Seq<u8>>) -> Seq<u8>;

    /// The output derived from `state`.
    spec fn output(state: Seq<u8>) -> Seq<u8>;

    /// A fresh accumulator.
    fn new() -> (mixer: Self)
        ensures
            mixer.wf(),
            mixer.absorbed() == Seq::<Seq<u8>>::empty(),
    ;

    /// Feeds `bytes` into the accumulator, after everything fed before.
    fn absorb(&mut self, bytes: &[u8])
        requires
            old(self).wf(),
        ensures
            final(self).wf(),
            final(self).absorbed() == old(self).absorbed().push(bytes@),
    ;

    /// Feeds entropy that is present into the accumulator, as one piece.
    fn absorb_entropy(&mut self, bytes: &[u8])
        requires
            old(self).wf(),
        ensures
            final(self).wf(),
            final(self).absorbed() == old(self).absorbed().push(Self::entropy_piece(bytes@)),
    ;

    /// Uses the accumulator up and yields the digest of what it absorbed.
    fn finalize(self) -> (digest: [u8; 32])
        requires
            self.wf(),
        ensures
            digest@ == Self::digest(self.absorbed()),
    ;

    /// Derives an output from `state`, without touching any accumulator.
    fn derive_output(state: &[u8; 32]) -> (output: [u8; 32])
        ensures
            output@ == Self::output(state@),
    ;
}

} // verus!
