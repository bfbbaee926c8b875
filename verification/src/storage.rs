//! The instance's persistent store, which holds the ratchet state and
//! nothing else.

use vstd::prelude::*;

verus! {

/// The key under which the host keeps the state: the bytes of `seed`.
pub const SEED_KEY: [u8; 4] = [115, 101, 101, 100];

/// The store. It has one slot: empty until the instance is set up, and
/// from then on the current state, each new one written over the last.
pub struct Storage {
    seed: Option<Vec<u8>>,
}

impl View for Storage {
    type V = Option<Seq<u8>>;

    closed spec fn view(&self) -> Option<Seq<u8>> {
        match self.seed {
            Some(bytes) => Some(bytes@),
            None => None,
        }
    }
}

impl Storage {
    /// The store of an instance that was never set up.
    pub fn new() -> (storage: Self)
        ensures
            storage@ is None,
    {
        Storage { seed: None }
    }

    /// The store as the host holds it: `persisted` is what it has under
    /// the key of the state.
    pub fn load(persisted: Option<Vec<u8>>) -> (storage: Self)
        ensures
            storage@ == match persisted {
                Some(bytes) => Some(bytes@),
                None => None,
            },
    {
        Storage { seed: persisted }
    }

    /// The state held, if there is one.
    pub fn get(&self) -> (held: Option<&Vec<u8>>)
        ensures
            match held {
                Some(bytes) => self@ == Some(bytes@),
                None => self@ is None,
            },
    {
        self.seed.as_ref()
    }

    /// Writes `value` over whatever was held.
    pub fn set(&mut self, value: &[u8])
        ensures
            final(self)@ == Some(value@),
    {
        let mut bytes: Vec<u8> = Vec::new();
        bytes.extend_from_slice(value);
        assert(bytes@ =~= value@);
        self.seed = Some(bytes);
    }
}

} // verus!
