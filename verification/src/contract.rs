//! The service around the ratchet: every request loads the state, advances
//! it, writes the new state back, and only then derives an output from it.

use vstd::prelude::*;
use crate::env::{Coin, Env, HumanAddr};
use crate::mixer::Mixer;
use crate::msg::{
    ContractError, HandleMsg, HandleResponse, InitMsg, InitResponse, LogAttribute, QueryMsg,
    RemoteContract, WasmMsg,
};
use crate::ratchet::{
    advance, advance_input, advanced, entropy_bytes, joined_input,
    lemma_entropy_presence_shows_in_input,
};
use crate::storage::Storage;

verus! {

/// The state of an instance that has served nothing yet: 32 zero bytes.
pub open spec fn initial_state() -> Seq<u8> {
    Seq::new(32, |i: int| 0u8)
}

/// What the store holds after a call of `cycle_seed` that found `held`:
/// nothing if nothing was there, else the state that follows.
pub open spec fn cycled<M: Mixer>(
    held: Option<Seq<u8>>,
    entropy: Option<Seq<u8>>,
    context: Seq<Seq<u8>>,
) -> Option<Seq<u8>> {
    match held {
        Some(state) => Some(advanced::<M>(state, entropy, context)),
        None => None,
    }
}

/// What the store holds after `handle` has worked on a request: a request
/// that brings funds changes nothing, any other one advances the state if
/// there is one.
pub open spec fn handled<M: Mixer>(held: Option<Seq<u8>>, env: Env, msg: HandleMsg) -> Option<
    Seq<u8>,
> {
    if env.carries_funds() {
        held
    } else {
        cycled::<M>(held, msg.entropy(), env.context())
    }
}

/// Advances the state in the store by one step and returns the new state.
/// Fails, and leaves the store empty as it was, if the store holds no
/// state.
pub fn cycle_seed<M: Mixer>(storage: &mut Storage, env: &Env, entropy: &Option<String>) -> (res:
    Result<[u8; 32], ContractError>)
    ensures
        final(storage)@ == cycled::<M>(old(storage)@, entropy_bytes(*entropy), env.context()),
        old(storage)@ is Some ==> (res matches Ok(next) && final(storage)@ == Some(next@)),
        old(storage)@ is None ==> (res matches Err(ContractError::NotFound { kind }) && kind@
            == "seed"@),
{
    let next = match storage.get() {
        Some(seed) => advance::<M>(seed.as_slice(), env, entropy),
        None => {
            return Err(ContractError::NotFound { kind: "seed".to_owned() });
        },
    };
    storage.set(next.as_slice());
    Ok(next)
}

/// Advances the state in the store by one step and derives the output of
/// the new state. The new state is in the store before the output exists.
/// Fails, and leaves the store empty as it was, if the store holds no
/// state.
pub fn get_rn<M: Mixer>(storage: &mut Storage, env: &Env, entropy: &Option<String>) -> (res:
    Result<[u8; 32], ContractError>)
    ensures
        final(storage)@ == cycled::<M>(old(storage)@, entropy_bytes(*entropy), env.context()),
        old(storage)@ is Some ==> (res matches Ok(rn) && final(storage)@ matches Some(next)
            && next.len() == 32 && rn@ == M::output(next)),
        old(storage)@ is None ==> (res matches Err(ContractError::NotFound { kind }) && kind@
            == "seed"@),
{
    match cycle_seed::<M>(storage, env, entropy) {
        Ok(next) => Ok(crate::ratchet::derive::<M>(&next)),
        Err(e) => Err(e),
    }
}

/// Packs an output for delivery: one message to `contract_addr`, bound to
/// `callback_code_hash`, that carries `rn` and the token `cb_msg` untouched.
pub fn callback_response(
    rn: [u8; 32],
    cb_msg: String,
    contract_addr: HumanAddr,
    callback_code_hash: String,
) -> (response: HandleResponse)
    ensures
        response.delivers(rn@, cb_msg, contract_addr, callback_code_hash),
{
    let msg = RemoteContract::ReceiveRandom { rn, cb_msg };
    let send: Vec<Coin> = Vec::new();
    let mut messages: Vec<WasmMsg> = Vec::new();
    messages.push(WasmMsg::Execute { contract_addr, callback_code_hash, msg, send });
    let log: Vec<LogAttribute> = Vec::new();
    HandleResponse { messages, log, data: None }
}

/// Serves a request for randomness: no entropy of the requester's is mixed
/// in, and the output of the new state goes to `contract_addr` with the
/// token. Fails, and leaves the store empty as it was, if the store holds
/// no state.
pub fn handle_callback<M: Mixer>(
    storage: &mut Storage,
    env: Env,
    cb_msg: String,
    contract_addr: HumanAddr,
    callback_code_hash: String,
) -> (res: Result<HandleResponse, ContractError>)
    ensures
        final(storage)@ == cycled::<M>(old(storage)@, None, env.context()),
        old(storage)@ is Some ==> (res matches Ok(response) && final(storage)@ matches Some(next)
            && next.len() == 32 && response.delivers(
            M::output(next),
            cb_msg,
            contract_addr,
            callback_code_hash,
        )),
        old(storage)@ is None ==> (res matches Err(ContractError::NotFound { kind }) && kind@
            == "seed"@),
{
    match get_rn::<M>(storage, &env, &None) {
        Ok(rn) => Ok(callback_response(rn, cb_msg, contract_addr, callback_code_hash)),
        Err(e) => Err(e),
    }
}

/// Takes a donation of entropy: the state advances with the entropy mixed
/// in, and nothing is sent to anyone. Fails, and leaves the store empty as
/// it was, if the store holds no state.
pub fn handle_donate<M: Mixer>(storage: &mut Storage, env: Env, entropy: String) -> (res: Result<
    HandleResponse,
    ContractError,
>)
    ensures
        final(storage)@ == cycled::<M>(
            old(storage)@,
            entropy_bytes(Some(entropy)),
            env.context(),
        ),
        old(storage)@ is Some ==> (res matches Ok(response) && final(storage)@ matches Some(next)
            && next.len() == 32 && response.is_empty()),
        old(storage)@ is None ==> (res matches Err(ContractError::NotFound { kind }) && kind@
            == "seed"@),
{
    match cycle_seed::<M>(storage, &env, &Some(entropy)) {
        Ok(_) => Ok(HandleResponse { messages: Vec::new(), log: Vec::new(), data: None }),
        Err(e) => Err(e),
    }
}

/// Sets an instance up: the store holds the initial state afterwards,
/// whatever it held before.
pub fn init(storage: &mut Storage, _env: Env, _msg: InitMsg) -> (res: Result<
    InitResponse,
    ContractError,
>)
    ensures
        final(storage)@ == Some(initial_state()),
        res matches Ok(response) && response.is_empty(),
{
    let seed = [0u8;32];
    storage.set(seed.as_slice());
    assert(seed@ =~= initial_state());
    Ok(InitResponse { messages: Vec::new(), log: Vec::new() })
}

/// Serves one request. A request that brings funds is refused before
/// anything is touched; one that finds no state in the store fails and
/// leaves the store empty; any other advances the state by one step.
pub fn handle<M: Mixer>(storage: &mut Storage, env: Env, msg: HandleMsg) -> (res: Result<
    HandleResponse,
    ContractError,
>)
    ensures
        final(storage)@ == handled::<M>(old(storage)@, env, msg),
        res is Err ==> final(storage)@ == old(storage)@,
        env.carries_funds() ==> res matches Err(ContractError::Unauthorized),
        !env.carries_funds() && old(storage)@ is None ==> (res matches Err(
            ContractError::NotFound { kind },
        ) && kind@ == "seed"@),
        !env.carries_funds() && old(storage)@ is Some ==> (res matches Ok(response)
            && final(storage)@ matches Some(next) && next.len() == 32 && match msg {
            HandleMsg::Callback { cb_msg, callback_code_hash, contract_addr } => {
                response.delivers(M::output(next), cb_msg, contract_addr, callback_code_hash)
            },
            HandleMsg::Donate { .. } => response.is_empty(),
        }),
{
    if !env.message.sent_funds.is_empty() {
        return Err(ContractError::Unauthorized);
    }
    match msg {
        HandleMsg::Callback {
            cb_msg,
            callback_code_hash,
            contract_addr,
        } => handle_callback::<M>(storage, env, cb_msg, contract_addr, callback_code_hash),
        HandleMsg::Donate { entropy } => handle_donate::<M>(storage, env, entropy),
    }
}

/// Refuses: nothing can be read from an instance.
pub fn query(_storage: &Storage, _msg: QueryMsg) -> (res: Result<Vec<u8>, ContractError>)
    ensures
        res matches Err(ContractError::Unauthorized),
{
    Err(ContractError::Unauthorized)
}

/// A donation never feeds the primitive what a request for randomness in
/// the same context feeds it, from whatever state, even when nothing at
/// all is donated: the inputs of the two steps differ as lists of pieces
/// under every strategy, and they differ joined. Whether the states they
/// leave differ is up to the primitive.
pub proof fn lemma_donation_input_differs_from_request_input<M: Mixer>(
    state: Seq<u8>,
    env: Env,
    donation: HandleMsg,
    request: HandleMsg,
)
    requires
        donation is Donate,
        request is Callback,
    ensures
        advance_input::<M>(state, donation.entropy(), env.context()) != advance_input::<M>(
            state,
            request.entropy(),
            env.context(),
        ),
        joined_input(state, donation.entropy(), env) != joined_input(
            state,
            request.entropy(),
            env,
        ),
{
    lemma_entropy_presence_shows_in_input::<M>(state, donation.entropy()->0, env);
}

/// What the store holds after `requests` have been handled one after the
/// other, the first of them on a store that held `held`.
pub open spec fn served<M: Mixer>(held: Option<Seq<u8>>, requests: Seq<(Env, HandleMsg)>)
    -> Option<Seq<u8>>
    decreases requests.len(),
{
    if requests.len() == 0 {
        held
    } else {
        handled::<M>(
            served::<M>(held, requests.drop_last()),
            requests.last().0,
            requests.last().1,
        )
    }
}

/// The state reached from `state` by one ratchet step for each entry of
/// `steps`, in order. A step is the entropy it mixes in, if any, and its
/// context.
pub open spec fn ratcheted<M: Mixer>(
    state: Seq<u8>,
    steps: Seq<(Option<Seq<u8>>, Seq<Seq<u8>>)>,
) -> Seq<u8>
    decreases steps.len(),
{
    if steps.len() == 0 {
        state
    } else {
        advanced::<M>(ratcheted::<M>(state, steps.drop_last()), steps.last().0, steps.last().1)
    }
}

/// The ratchet steps that `requests` ask for: for each request, the
/// entropy it brings and the context it comes in.
pub open spec fn steps_of(requests: Seq<(Env, HandleMsg)>) -> Seq<(Option<Seq<u8>>, Seq<Seq<u8>>)> {
    requests.map_values(|request: (Env, HandleMsg)| (request.1.entropy(), request.0.context()))
}

/// The requests among `requests` that bring no funds, in their order.
pub open spec fn without_funds(requests: Seq<(Env, HandleMsg)>) -> Seq<(Env, HandleMsg)> {
    requests.filter(|request: (Env, HandleMsg)| !request.0.carries_funds())
}

/// One step for each request. After any number of requests without funds
/// on an instance that holds a state, the store holds that state advanced
/// once for each request, in the order of the requests: none is skipped
/// and none counts twice, whether or not two of them are alike. For an
/// instance that was just set up the state is `initial_state()`.
pub proof fn lemma_each_request_advances_once<M: Mixer>(
    state: Seq<u8>,
    requests: Seq<(Env, HandleMsg)>,
)
    requires
        forall|i: int| 0 <= i < requests.len() ==> !(#[trigger] requests[i]).0.carries_funds(),
    ensures
        steps_of(requests).len() == requests.len(),
        served::<M>(Some(state), requests) == Some(ratcheted::<M>(state, steps_of(requests))),
    decreases requests.len(),
{
    if requests.len() > 0 {
        let earlier = requests.drop_last();
        lemma_each_request_advances_once::<M>(state, earlier);
        assert(steps_of(requests).drop_last() =~= steps_of(earlier));
    }
}

/// No step for a request that is refused. After any requests at all, the
/// store of an instance that holds a state holds that state advanced once
/// for each request that brought no funds, as if the others had never
/// come; and the store of an instance that was never set up stays empty.
pub proof fn lemma_refused_requests_leave_no_trace<M: Mixer>(
    state: Seq<u8>,
    requests: Seq<(Env, HandleMsg)>,
)
    ensures
        served::<M>(Some(state), requests) == Some(
            ratcheted::<M>(state, steps_of(without_funds(requests))),
        ),
        served::<M>(None, requests) == None::<Seq<u8>>,
    decreases requests.len(),
{
    reveal(Seq::filter);
    if requests.len() > 0 {
        let earlier = requests.drop_last();
        lemma_refused_requests_leave_no_trace::<M>(state, earlier);
        if !requests.last().0.carries_funds() {
            assert(without_funds(requests).drop_last() =~= without_funds(earlier));
            assert(steps_of(without_funds(requests)).drop_last() =~= steps_of(
                without_funds(earlier),
            ));
        }
    }
}

} // verus!
