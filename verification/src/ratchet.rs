//! The ratchet: the one-way step from a state to the next, and the
//! derivation of an output from a state.

use vstd::prelude::*;
use vstd::bytes::{lemma_auto_spec_u64_to_from_le_bytes, spec_u64_to_le_bytes, u64_to_le_bytes};
use vstd::seq_lib::lemma_flatten_concat;
use vstd::utf8::{encode_utf8, encode_utf8_valid_utf8, valid_first_scalar};
use crate::env::Env;
use crate::mixer::{marked_if_empty, Mixer, EMPTY_ENTROPY};

verus! {

/// The bytes of the entropy that a caller supplied, if any. An empty string
/// that was supplied is `Some` of no bytes, not `None`.
pub open spec fn entropy_bytes(entropy: Option<String>) -> Option<Seq<u8>> {
    match entropy {
        Some(text) => Some(encode_utf8(text@)),
        None => None,
    }
}

/// What a step absorbs under the strategy `M`, in order: the state; then
/// the entropy if entropy is present, as the one piece that the strategy
/// takes it as; then the six fields of the context. Without entropy
/// nothing stands between the state and the context.
pub open spec fn advance_input<M: Mixer>(
    state: Seq<u8>,
    entropy: Option<Seq<u8>>,
    context: Seq<Seq<u8>>,
) -> Seq<Seq<u8>> {
    match entropy {
        Some(bytes) => seq![state, M::entropy_piece(bytes)] + context,
        None => seq![state] + context,
    }
}

/// The state that follows `state` when a call with this context and
/// entropy is served.
pub open spec fn advanced<M: Mixer>(
    state: Seq<u8>,
    entropy: Option<Seq<u8>>,
    context: Seq<Seq<u8>>,
) -> Seq<u8> {
    M::digest(advance_input::<M>(state, entropy, context))
}

/// What stands between the state and the context in the joined input: the
/// entropy where it is present and has bytes, the byte `EMPTY_ENTROPY`
/// where it is present and empty, and nothing where it is absent.
pub open spec fn entropy_part(entropy: Option<Seq<u8>>) -> Seq<u8> {
    match entropy {
        Some(bytes) => marked_if_empty(bytes),
        None => Seq::empty(),
    }
}

/// What a step absorbs under a strategy that sees its input joined: the
/// state, the entropy part and the six context fields, end to end.
pub open spec fn joined_input(state: Seq<u8>, entropy: Option<Seq<u8>>, env: Env) -> Seq<u8> {
    state + entropy_part(entropy) + spec_u64_to_le_bytes(env.block.height)
        + spec_u64_to_le_bytes(env.block.time) + encode_utf8(env.block.chain_id@) + encode_utf8(
        env.message.sender.0@,
    ) + encode_utf8(env.contract.address.0@) + encode_utf8(env.contract_code_hash@)
}

/// Whether two optional texts are both absent, or both present with the
/// same characters.
pub open spec fn same_text(a: Option<String>, b: Option<String>) -> bool {
    match (a, b) {
        (Some(x), Some(y)) => x@ == y@,
        (None, None) => true,
        _ => false,
    }
}

/// Whether two environments agree on the six fields that make the context.
pub open spec fn same_context(a: Env, b: Env) -> bool {
    &&& a.block.height == b.block.height
    &&& a.block.time == b.block.time
    &&& a.block.chain_id@ == b.block.chain_id@
    &&& a.message.sender.0@ == b.message.sender.0@
    &&& a.contract.address.0@ == b.contract.address.0@
    &&& a.contract_code_hash@ == b.contract_code_hash@
}

/// Feeds the six fields of the context into `mixer`, in canonical order.
pub fn absorb_context<M: Mixer>(mixer: &mut M, env: &Env)
    requires
        old(mixer).wf(),
    ensures
        final(mixer).wf(),
        final(mixer).absorbed() == old(mixer).absorbed() + env.context(),
{
    let height = u64_to_le_bytes(env.block.height);
    mixer.absorb(height.as_slice());
    let time = u64_to_le_bytes(env.block.time);
    mixer.absorb(time.as_slice());
    mixer.absorb(env.block.chain_id.as_str().as_bytes());
    mixer.absorb(env.message.sender.as_str().as_bytes());
    mixer.absorb(env.contract.address.as_str().as_bytes());
    mixer.absorb(env.contract_code_hash.as_str().as_bytes());
    assert(mixer.absorbed() =~= old(mixer).absorbed() + env.context());
}

/// Computes the state that follows `state`: the digest of the state, of
/// the entropy where entropy is present, and of the context.
/// Nothing is changed in place: the caller keeps `state` and decides what
/// to do with the result.
pub fn advance<M: Mixer>(state: &[u8], env: &Env, entropy: &Option<String>) -> (next: [u8; 32])
    ensures
        next@ == advanced::<M>(state@, entropy_bytes(*entropy), env.context()),
{
    let mut mixer = M::new();
    mixer.absorb(state);
    if let Some(text) = entropy {
        mixer.absorb_entropy(text.as_str().as_bytes());
    }
    absorb_context(&mut mixer, env);
    assert(mixer.absorbed() =~= advance_input::<M>(
        state@,
        entropy_bytes(*entropy),
        env.context(),
    ));
    mixer.finalize()
}

/// Derives the output that belongs to `state`.
pub fn derive<M: Mixer>(state: &[u8; 32]) -> (output: [u8; 32])
    ensures
        output@ == M::output(state@),
{
    M::derive_output(state)
}

/// Joining a list of pieces that starts with `first` gives `first`
/// followed by the rest joined.
proof fn lemma_joined_starts_with(first: Seq<u8>, rest: Seq<Seq<u8>>)
    ensures
        (seq![first] + rest).flatten() == first + rest.flatten(),
{
    lemma_flatten_concat(seq![first], rest);
    seq![first].lemma_flatten_singleton();
}

/// The six fields of the context, joined, are the fields written one after
/// the other.
pub proof fn lemma_context_joined(env: Env)
    ensures
        env.context().flatten() == spec_u64_to_le_bytes(env.block.height) + spec_u64_to_le_bytes(
            env.block.time,
        ) + encode_utf8(env.block.chain_id@) + encode_utf8(env.message.sender.0@) + encode_utf8(
            env.contract.address.0@,
        ) + encode_utf8(env.contract_code_hash@),
{
    let height = spec_u64_to_le_bytes(env.block.height);
    let time = spec_u64_to_le_bytes(env.block.time);
    let chain = encode_utf8(env.block.chain_id@);
    let sender = encode_utf8(env.message.sender.0@);
    let address = encode_utf8(env.contract.address.0@);
    let code = encode_utf8(env.contract_code_hash@);
    let from_code = seq![code];
    let from_address = seq![address] + from_code;
    let from_sender = seq![sender] + from_address;
    let from_chain = seq![chain] + from_sender;
    let from_time = seq![time] + from_chain;
    from_code.lemma_flatten_singleton();
    lemma_joined_starts_with(address, from_code);
    lemma_joined_starts_with(sender, from_address);
    lemma_joined_starts_with(chain, from_sender);
    lemma_joined_starts_with(time, from_chain);
    lemma_joined_starts_with(height, from_time);
    assert(env.context() =~= seq![height] + from_time);
    assert(env.context().flatten() =~= height + time + chain + sender + address + code);
}

/// Under a strategy that takes entropy as `marked_if_empty` does, the
/// pieces that a step absorbs, joined, are `joined_input`.
pub proof fn lemma_advance_input_joined<M: Mixer>(
    state: Seq<u8>,
    entropy: Option<Seq<u8>>,
    env: Env,
)
    requires
        entropy matches Some(bytes) ==> M::entropy_piece(bytes) == marked_if_empty(bytes),
    ensures
        advance_input::<M>(state, entropy, env.context()).flatten() == joined_input(
            state,
            entropy,
            env,
        ),
{
    let context = env.context();
    lemma_context_joined(env);
    match entropy {
        Some(bytes) => {
            let piece = marked_if_empty(bytes);
            let from_piece = seq![piece] + context;
            lemma_joined_starts_with(piece, context);
            lemma_joined_starts_with(state, from_piece);
            assert(advance_input::<M>(state, entropy, context) =~= seq![state] + from_piece);
            assert(state + (piece + context.flatten()) =~= joined_input(state, entropy, env));
        },
        None => {
            lemma_joined_starts_with(state, context);
            assert(state + context.flatten() =~= joined_input(state, entropy, env));
        },
    }
}

/// Determinism. Two steps from the same state, with the same entropy and
/// in environments that agree on the six context fields, lead to the same
/// state, whatever else differs between the environments; and the output
/// of a state is a function of the state.
pub proof fn lemma_same_inputs_same_results<M: Mixer>(
    state_a: Seq<u8>,
    entropy_a: Option<String>,
    env_a: Env,
    state_b: Seq<u8>,
    entropy_b: Option<String>,
    env_b: Env,
)
    requires
        state_a == state_b,
        same_text(entropy_a, entropy_b),
        same_context(env_a, env_b),
    ensures
        advanced::<M>(state_a, entropy_bytes(entropy_a), env_a.context()) == advanced::<M>(
            state_b,
            entropy_bytes(entropy_b),
            env_b.context(),
        ),
        M::output(state_a) == M::output(state_b),
{
    assert(env_a.context() =~= env_b.context());
}

/// A step and a derivation never feed the primitive the same input. The
/// step absorbs at least seven pieces, sixteen bytes of which are the two
/// numbers of the context, where the derivation is fed the state alone:
/// the inputs differ as lists of pieces under every strategy, and they
/// differ joined. Whether the digests differ is up to the primitive.
pub proof fn lemma_step_input_differs_from_state<M: Mixer>(
    state: Seq<u8>,
    entropy: Option<Seq<u8>>,
    env: Env,
)
    ensures
        advance_input::<M>(state, entropy, env.context()).len() >= 7,
        advance_input::<M>(state, entropy, env.context()) != seq![state],
        joined_input(state, entropy, env).len() >= state.len() + 16,
        joined_input(state, entropy, env) != state,
{
    lemma_auto_spec_u64_to_from_le_bytes();
    assert(seq![state].len() == 1);
}

/// Whether entropy was supplied shows in what a step absorbs, for every
/// entropy, the empty one too. Under every strategy the input with
/// entropy differs from the input without as a list of pieces, which is
/// how a sponge sees it. Under a strategy that sees its input joined the
/// two differ joined as well: the entropy part is never nothing. Whether
/// the digests differ is up to the primitive.
pub proof fn lemma_entropy_presence_shows_in_input<M: Mixer>(
    state: Seq<u8>,
    bytes: Seq<u8>,
    env: Env,
)
    ensures
        advance_input::<M>(state, Some(bytes), env.context()) != advance_input::<M>(
            state,
            None,
            env.context(),
        ),
        joined_input(state, Some(bytes), env) != joined_input(state, None, env),
{
    let with = advance_input::<M>(state, Some(bytes), env.context());
    let without = advance_input::<M>(state, None, env.context());
    assert(with.len() == without.len() + 1);
    assert(joined_input(state, Some(bytes), env).len() == joined_input(state, None, env).len()
        + marked_if_empty(bytes).len());
}

/// Entropy that has bytes is hashed as it is: the joined input is the
/// state, the entropy and the six context fields, with nothing added.
pub proof fn lemma_entropy_with_bytes_is_hashed_unmarked(
    state: Seq<u8>,
    bytes: Seq<u8>,
    env: Env,
)
    requires
        bytes.len() > 0,
    ensures
        joined_input(state, Some(bytes), env) == state + bytes + env.context().flatten(),
        joined_input(state, None, env) == state + env.context().flatten(),
{
    lemma_context_joined(env);
    assert(joined_input(state, Some(bytes), env) =~= state + bytes + env.context().flatten());
    assert(joined_input(state, None, env) =~= state + env.context().flatten());
}

/// Empty entropy is hashed as no other text is. The byte that stands for
/// it begins the UTF-8 bytes of no string, so the joined input of a step
/// with empty entropy is the joined input of no step, from the same state
/// and in the same context, whose entropy has bytes.
pub proof fn lemma_empty_entropy_is_hashed_as_no_text(state: Seq<u8>, text: Seq<char>, env: Env)
    requires
        encode_utf8(text).len() > 0,
    ensures
        encode_utf8(text)[0] != EMPTY_ENTROPY,
        joined_input(state, Some(encode_utf8(text)), env) != joined_input(
            state,
            Some(Seq::empty()),
            env,
        ),
{
    let bytes = encode_utf8(text);
    encode_utf8_valid_utf8(text);
    assert(valid_first_scalar(bytes));
    assert(bytes[0] != EMPTY_ENTROPY);
    let with_text = joined_input(state, Some(bytes), env);
    let with_none = joined_input(state, Some(Seq::empty()), env);
    assert(with_text[state.len() as int] == bytes[0]);
    assert(with_none[state.len() as int] == EMPTY_ENTROPY);
}

} // verus!
