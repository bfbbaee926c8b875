//! What the host tells the engine about the call it is serving.

use vstd::prelude::*;
use vstd::bytes::spec_u64_to_le_bytes;
use vstd::utf8::encode_utf8;

verus! {

/// An address in the host's readable form.
#[derive(Clone, Debug, PartialEq, Eq)]
pub struct HumanAddr(pub String);

impl HumanAddr {
    /// The address as a string slice.
    pub fn as_str(&self) -> (s: &str)
        ensures
            s@ == self.0@,
    {
        self.0.as_str()
    }
}

/// An amount of one denomination, attached to a call.
#[derive(Clone, Debug, PartialEq, Eq)]
pub struct Coin {
    pub denom: String,
    pub amount: u128,
}

/// The block in which the call is executed.
#[derive(Clone, Debug, PartialEq, Eq)]
pub struct BlockInfo {
    pub height: u64,
    /// Seconds since the epoch.
    pub time: u64,
    pub chain_id: String,
}

/// Who called, and what value came with the call.
#[derive(Clone, Debug, PartialEq, Eq)]
pub struct MessageInfo {
    pub sender: HumanAddr,
    pub sent_funds: Vec<Coin>,
}

/// The instance that is being called.
#[derive(Clone, Debug, PartialEq, Eq)]
pub struct ContractInfo {
    pub address: HumanAddr,
}

/// The execution context of one call. The host supplies it afresh each
/// time; nothing of it is kept.
#[derive(Clone, Debug, PartialEq, Eq)]
pub struct Env {
    pub block: BlockInfo,
    pub message: MessageInfo,
    pub contract: ContractInfo,
    pub contract_key: Option<String>,
    pub contract_code_hash: String,
}

impl Env {
    /// The context as the mixing primitive sees it: six byte strings in
    /// their canonical order. The two numbers are eight little-endian bytes
    /// each, the strings are their UTF-8 bytes. A field that is empty is
    /// still there, as an empty string.
    pub open spec fn context(&self) -> Seq<Seq<u8>> {
        seq![
            spec_u64_to_le_bytes(self.block.height),
            spec_u64_to_le_bytes(self.block.time),
            encode_utf8(self.block.chain_id@),
            encode_utf8(self.message.sender.0@),
            encode_utf8(self.contract.address.0@),
            encode_utf8(self.contract_code_hash@),
        ]
    }

    /// Whether value is attached to the call.
    pub open spec fn carries_funds(&self) -> bool {
        self.message.sent_funds@.len() > 0
    }
}

} // verus!
