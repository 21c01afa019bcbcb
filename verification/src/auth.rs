//! The authorization gate: which identities stand behind the current call.

use crate::types::{Identity, MarketError};
use vstd::prelude::*;

verus! {

/// Whether one of `signers` has the key `key`.
pub open spec fn signed(signers: Seq<Identity>, key: Seq<char>) -> bool {
    exists|i: int| 0 <= i < signers.len() && (#[trigger] signers[i])@ == key
}

/// The identities that authorized the current call. An operation that acts
/// for an identity consults it before it reads or writes anything.
pub struct AuthGate {
    signers: Vec<Identity>,
}

impl View for AuthGate {
    type V = Set<Seq<char>>;

    closed spec fn view(&self) -> Set<Seq<char>> {
        Set::new(|key: Seq<char>| signed(self.signers@, key))
    }
}

impl AuthGate {
    /// A gate that lets nobody through.
    pub fn none() -> (gate: Self)
        ensures
            gate@ == Set::<Seq<char>>::empty(),
    {
        let gate = AuthGate { signers: Vec::new() };
        assert(gate@ =~= Set::<Seq<char>>::empty());
        gate
    }

    /// A gate that lets through `who` and nobody else.
    pub fn signed_by(who: Identity) -> (gate: Self)
        ensures
            gate@ == Set::<Seq<char>>::empty().insert(who@),
    {
        let mut gate = AuthGate::none();
        gate.allow(who);
        gate
    }

    /// Lets `who` through as well.
    pub fn allow(&mut self, who: Identity)
        ensures
            final(self)@ == old(self)@.insert(who@),
    {
        let ghost key = who@;
        self.signers.push(who);
        proof {
            let before = old(self).signers@;
            let after = self.signers@;
            assert forall|k: Seq<char>| signed(after, k) == (k == key || signed(before, k)) by {
                if signed(before, k) {
                    let i = choose|i: int| 0 <= i < before.len() && (#[trigger] before[i])@ == k;
                    assert(after[i]@ == k);
                }
                if k == key {
                    assert(after[before.len() as int]@ == k);
                }
                if signed(after, k) {
                    let i = choose|i: int| 0 <= i < after.len() && (#[trigger] after[i])@ == k;
                    if i < before.len() {
                        assert(before[i]@ == k);
                    }
                }
            }
            assert(self@ =~= old(self)@.insert(key));
        }
    }

    /// Whether `who` authorized the current call.
    pub fn permits(&self, who: &Identity) -> (allowed: bool)
        ensures
            allowed == self@.contains(who@),
    {
        let mut i: usize = 0;
        while i < self.signers.len()
            invariant
                i <= self.signers@.len(),
                forall|j: int| 0 <= j < i ==> (#[trigger] self.signers@[j])@ != who@,
            decreases self.signers@.len() - i,
        {
            if self.signers[i].same_as(who) {
                return true;
            }
            i += 1;
        }
        false
    }

    /// Lets `who` pass or refuses the call as `Unauthorized`.
    pub fn require(&self, who: &Identity) -> (passed: Result<(), MarketError>)
        ensures
            passed == (if self@.contains(who@) {
                Ok::<(), MarketError>(())
            } else {
                Err::<(), MarketError>(MarketError::Unauthorized)
            }),
    {
        if self.permits(who) {
            Ok(())
        } else {
            Err(MarketError::Unauthorized)
        }
    }
}

} // verus!
