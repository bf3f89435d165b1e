//! The per-world registry of channel event bridges: at most one bridge may
//! exist per event type for the lifetime of the world. Each event type is
//! identified by a key the host assigns; attempting to register a key twice
//! is a setup-time programming error, rejected loudly.

use vstd::prelude::*;

use crate::errors::BridgeError;

verus! {

/// Records which event types already have a bridge installed on the world.
pub struct BridgeRegistry {
    keys: Vec<u64>,
}

impl View for BridgeRegistry {
    type V = Seq<u64>;

    closed spec fn view(&self) -> Seq<u64> {
        self.keys@
    }
}

/// No key occurs twice.
pub open spec fn distinct_keys(keys: Seq<u64>) -> bool {
    forall|i: int, j: int| 0 <= i < j < keys.len() ==> keys[i] != keys[j]
}

impl BridgeRegistry {
    /// Well-formed: no event type is registered twice.
    pub open spec fn wf(self) -> bool {
        distinct_keys(self@)
    }

    /// A fresh registry with no bridges installed.
    pub fn new() -> (r: BridgeRegistry)
        ensures
            r.wf(),
            r@ == Seq::<u64>::empty(),
    {
        BridgeRegistry { keys: Vec::new() }
    }

    /// Whether a bridge for this event type is already installed.
    pub fn is_registered(&self, key: u64) -> (r: bool)
        ensures
            r == self@.contains(key),
    {
        let n = self.keys.len();
        let mut i: usize = 0;
        while i < n
            invariant
                n == self@.len(),
                i <= n,
                forall|k: int| 0 <= k < i ==> self@[k] != key,
            decreases n - i,
        {
            if self.keys[i] == key {
                return true;
            }
            i += 1;
        }
        false
    }

    /// Installs a bridge for the event type identified by `key`. Fails with
    /// `DuplicateBridge`, leaving the registry unchanged, if and only if a
    /// bridge for that type is already installed; distinct types register
    /// independently.
    pub fn register(&mut self, key: u64) -> (r: Result<(), BridgeError>)
        requires
            old(self).wf(),
        ensures
            final(self).wf(),
            old(self)@.contains(key) ==> r == Err::<(), BridgeError>(
                BridgeError::DuplicateBridge,
            ) && final(self)@ == old(self)@,
            !old(self)@.contains(key) ==> r == Ok::<(), BridgeError>(()) && final(self)@ == old(
                self,
            )@.push(key),
    {
        if self.is_registered(key) {
            Err(BridgeError::DuplicateBridge)
        } else {
            self.keys.push(key);
            Ok(())
        }
    }
}

/// Law: registration of distinct event types is independent — installing a
/// bridge for one type never blocks a later registration of another type.
pub proof fn lemma_distinct_registration_independent(keys: Seq<u64>, k1: u64, k2: u64)
    requires
        !keys.contains(k1),
        !keys.contains(k2),
        k1 != k2,
    ensures
        !keys.push(k1).contains(k2),
{
    let pushed = keys.push(k1);
    assert forall|i: int| 0 <= i < pushed.len() implies pushed[i] != k2 by {
        if i < keys.len() {
            assert(pushed[i] == keys[i]);
            assert(!keys.contains(k2));
        } else {
            assert(pushed[i] == k1);
        }
    }
}

} // verus!
