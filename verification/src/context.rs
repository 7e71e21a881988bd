//! What the host environment supplies to one invocation: the clock reading
//! at invocation time, and the set of identities whose cryptographic
//! authorization of the current call the host has already verified.
//!
//! The ledger only decides *which* identities must have authorized a call;
//! producing and checking the signatures is the host's work, and its result
//! is handed in here as plain values.

use vstd::prelude::*;

verus! {

/// The per-invocation context the host hands to every operation.
pub struct CallContext {
    timestamp: u64,
    approvals: Vec<String>,
}

/// The specification-level value of a [`CallContext`].
#[verifier::ext_equal]
pub struct CallContextV {
    /// The monotonic clock reading at invocation time.
    pub timestamp: u64,
    /// The identities that authorized the current call.
    pub approvals: Seq<Seq<char>>,
}

impl View for CallContext {
    type V = CallContextV;

    closed spec fn view(&self) -> CallContextV {
        CallContextV {
            timestamp: self.timestamp,
            approvals: self.approvals@.map_values(|s: String| s@),
        }
    }
}

impl CallContext {
    /// A context with the given clock reading and no authorizations.
    pub fn new(timestamp: u64) -> (c: CallContext)
        ensures
            c@.timestamp == timestamp,
            c@.approvals == Seq::<Seq<char>>::empty(),
    {
        let c = CallContext { timestamp, approvals: Vec::new() };
        proof {
            assert(c@.approvals =~= Seq::<Seq<char>>::empty());
        }
        c
    }

    /// Add one identity to the set that authorized this call.
    pub fn approve(&mut self, id: String)
        ensures
            final(self)@.timestamp == old(self)@.timestamp,
            final(self)@.approvals == old(self)@.approvals.push(id@),
    {
        self.approvals.push(id);
        proof {
            assert(self@.approvals =~= old(self)@.approvals.push(self.approvals@.last()@));
        }
    }

    /// The clock reading the host took when the invocation began.
    pub fn timestamp(&self) -> (t: u64)
        ensures
            t == self@.timestamp,
    {
        self.timestamp
    }

    /// Whether `id` is among the identities that authorized this call.
    pub fn approves(&self, id: &String) -> (r: bool)
        ensures
            r == self@.approvals.contains(id@),
    {
        let mut i: usize = 0;
        while i < self.approvals.len()
            invariant
                i <= self.approvals@.len(),
                forall|j: int| 0 <= j < i ==> self.approvals@[j]@ != id@,
            decreases self.approvals@.len() - i,
        {
            if self.approvals[i] == *id {
                proof {
                    assert(self@.approvals[i as int] == id@);
                }
                return true;
            }
            i = i + 1;
        }
        proof {
            assert forall|j: int| 0 <= j < self@.approvals.len() implies self@.approvals[j]
                != id@ by {
                assert(self@.approvals[j] == self.approvals@[j]@);
            }
        }
        false
    }
}

} // verus!
