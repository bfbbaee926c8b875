//! The messages that the engine takes and the answers that it gives.

use vstd::prelude::*;
use vstd::utf8::encode_utf8;
use crate::env::{Coin, HumanAddr};

verus! {

/// What is sent to the party that asked for randomness.
#[derive(Clone, Debug, PartialEq, Eq)]
pub enum RemoteContract {
    ReceiveRandom {
        /// The 32 bytes of randomness.
        rn: [u8; 32],
        /// The requester's token, handed back as it came.
        cb_msg: String,
    },
}

/// The message that sets an instance up. It carries nothing.
#[derive(Clone, Debug, PartialEq, Eq)]
pub struct InitMsg {}

/// The two requests that change the state.
#[derive(Clone, Debug, PartialEq, Eq)]
pub enum HandleMsg {
    /// Asks for randomness to be delivered to `contract_addr`.
    Callback {
        cb_msg: String,
        callback_code_hash: String,
        contract_addr: HumanAddr,
    },
    /// Gives entropy away, to be mixed into the state.
    Donate {
        entropy: String,
    },
}

impl HandleMsg {
    /// The entropy that the request brings into the ratchet step: the bytes
    /// of a donation, and none for a request for randomness, whose sender
    /// has no say in what is mixed.
    pub open spec fn entropy(&self) -> Option<Seq<u8>> {
        match self {
            HandleMsg::Donate { entropy } => Some(encode_utf8(entropy@)),
            HandleMsg::Callback { .. } => None,
        }
    }
}

/// A read-only request. It carries nothing that could be asked for: no
/// read of the state or of an output is ever served.
#[derive(Clone, Debug, PartialEq, Eq)]
pub struct QueryMsg {}

/// A message that the host is asked to dispatch.
#[derive(Clone, Debug, PartialEq, Eq)]
pub enum WasmMsg {
    /// A call to the instance at `contract_addr`.
    Execute {
        contract_addr: HumanAddr,
        /// The code identity that the destination must have.
        callback_code_hash: String,
        msg: RemoteContract,
        /// The value sent along.
        send: Vec<Coin>,
    },
}

/// One entry of a response's log.
#[derive(Clone, Debug, PartialEq, Eq)]
pub struct LogAttribute {
    pub key: String,
    pub value: String,
    pub encrypted: bool,
}

/// The answer to an `InitMsg`.
#[derive(Clone, Debug, PartialEq, Eq)]
pub struct InitResponse {
    pub messages: Vec<WasmMsg>,
    pub log: Vec<LogAttribute>,
}

impl InitResponse {
    /// Nothing to dispatch and nothing logged.
    pub open spec fn is_empty(&self) -> bool {
        self.messages@.len() == 0 && self.log@.len() == 0
    }
}

/// The answer to a `HandleMsg`.
#[derive(Clone, Debug, PartialEq, Eq)]
pub struct HandleResponse {
    pub messages: Vec<WasmMsg>,
    pub log: Vec<LogAttribute>,
    pub data: Option<Vec<u8>>,
}

impl HandleResponse {
    /// Nothing to dispatch, nothing logged and no data.
    pub open spec fn is_empty(&self) -> bool {
        self.messages@.len() == 0 && self.log@.len() == 0 && self.data is None
    }

    /// The response holds one message and nothing else: a call to
    /// `contract_addr`, bound to `callback_code_hash`, that delivers `rn`
    /// with the token `cb_msg` and sends no value along.
    pub open spec fn delivers(
        &self,
        rn: Seq<u8>,
        cb_msg: String,
        contract_addr: HumanAddr,
        callback_code_hash: String,
    ) -> bool {
        &&& self.messages@.len() == 1
        &&& self.messages@[0] matches WasmMsg::Execute {
            contract_addr: to,
            callback_code_hash: bound_to,
            msg: RemoteContract::ReceiveRandom { rn: delivered, cb_msg: token },
            send,
        }
        &&& to == contract_addr
        &&& bound_to == callback_code_hash
        &&& delivered@ == rn
        &&& token == cb_msg
        &&& send@.len() == 0
        &&& self.log@.len() == 0
        &&& self.data is None
    }
}

/// Why a request was refused.
#[derive(Clone, Debug, PartialEq, Eq)]
pub enum ContractError {
    /// Something that must be in the store is not there; `kind` says what.
    NotFound { kind: String },
    /// The request is not allowed.
    Unauthorized,
}

} // verus!
