//! The three parties of the replicated secret sharing, arranged in a ring.
use vstd::prelude::*;

verus! {

#[derive(Clone, Copy, Debug, PartialEq, Eq, Structural)]
pub enum PartyId {
    ID0,
    ID1,
    ID2,
}

impl PartyId {
    /// The next party in the ring ID0 -> ID1 -> ID2 -> ID0.
    pub open spec fn spec_next(self) -> PartyId {
        match self {
            PartyId::ID0 => PartyId::ID1,
            PartyId::ID1 => PartyId::ID2,
            PartyId::ID2 => PartyId::ID0,
        }
    }

    /// The previous party in the ring.
    pub open spec fn spec_prev(self) -> PartyId {
        match self {
            PartyId::ID0 => PartyId::ID2,
            PartyId::ID1 => PartyId::ID0,
            PartyId::ID2 => PartyId::ID1,
        }
    }

    /// The next party in the ring.
    pub fn next(self) -> (p: PartyId)
        ensures
            p == self.spec_next(),
    {
        match self {
            PartyId::ID0 => PartyId::ID1,
            PartyId::ID1 => PartyId::ID2,
            PartyId::ID2 => PartyId::ID0,
        }
    }

    /// The previous party in the ring.
    pub fn prev(self) -> (p: PartyId)
        ensures
            p == self.spec_prev(),
    {
        match self {
            PartyId::ID0 => PartyId::ID2,
            PartyId::ID1 => PartyId::ID0,
            PartyId::ID2 => PartyId::ID1,
        }
    }
}

/// `prev` undoes `next`, and three steps go once round the ring: the three
/// parties `p`, `p.next()`, `p.prev()` are pairwise distinct.
pub proof fn lemma_party_ring(p: PartyId)
    ensures
        p.spec_next().spec_prev() == p,
        p.spec_prev().spec_next() == p,
        p.spec_next().spec_next().spec_next() == p,
        p != p.spec_next() && p != p.spec_prev() && p.spec_next() != p.spec_prev(),
{
}

} // verus!
