//! Peer filtering: accept or reject a connection by its address string.

use vstd::prelude::*;

use crate::wire::{contains_seq, contains_sub};

verus! {

/// A peer filter over address substrings.
///
/// `Accept(items)` admits a peer whose address contains *any* of the
/// items; `Reject(items)` admits a peer whose address contains *none*.
#[derive(Debug, Clone)]
pub enum Filter {
    Accept(Vec<Vec<u8>>),
    Reject(Vec<Vec<u8>>),
}

/// Some item of `items` occurs in `peer`.
pub open spec fn any_contained(items: Seq<Seq<u8>>, peer: Seq<u8>) -> bool {
    exists|i: int| 0 <= i < items.len() && contains_seq(peer, items[i])
}

impl Filter {
    /// What [`Filter::accepts`] decides, at the spec level.
    pub open spec fn accepts_spec(&self, peer: Seq<u8>) -> bool {
        match self {
            Filter::Accept(items) => any_contained(items.deep_view(), peer),
            Filter::Reject(items) => !any_contained(items.deep_view(), peer),
        }
    }

    /// Whether the peer address passes the filter.
    pub fn accepts(&self, peer: &[u8]) -> (r: bool)
        ensures
            r == self.accepts_spec(peer@),
    {
        match self {
            Filter::Accept(items) => {
                let mut i: usize = 0;
                while i < items.len()
                    invariant
                        self.accepts_spec(peer@) == any_contained(items.deep_view(), peer@),
                        i <= items@.len(),
                        forall|j: int|
                            0 <= j < i ==> !contains_seq(peer@, items.deep_view()[j]),
                    decreases items@.len() - i,
                {
                    if contains_sub(peer, items[i].as_slice()) {
                        proof {
                            assert(items.deep_view().len() == items@.len());
                            assert(items.deep_view()[i as int] == items@[i as int]@);
                            assert(0 <= i < items.deep_view().len() && contains_seq(
                                peer@,
                                items.deep_view()[i as int],
                            ));
                            assert(any_contained(items.deep_view(), peer@));
                        }
                        return true;
                    }
                    proof {
                        assert(items.deep_view()[i as int] == items@[i as int]@);
                    }
                    i = i + 1;
                }
                false
            }
            Filter::Reject(items) => {
                let mut i: usize = 0;
                while i < items.len()
                    invariant
                        self.accepts_spec(peer@) == !any_contained(items.deep_view(), peer@),
                        i <= items@.len(),
                        forall|j: int|
                            0 <= j < i ==> !contains_seq(peer@, items.deep_view()[j]),
                    decreases items@.len() - i,
                {
                    if contains_sub(peer, items[i].as_slice()) {
                        proof {
                            assert(items.deep_view().len() == items@.len());
                            assert(items.deep_view()[i as int] == items@[i as int]@);
                            assert(0 <= i < items.deep_view().len() && contains_seq(
                                peer@,
                                items.deep_view()[i as int],
                            ));
                            assert(any_contained(items.deep_view(), peer@));
                        }
                        return false;
                    }
                    proof {
                        assert(items.deep_view()[i as int] == items@[i as int]@);
                    }
                    i = i + 1;
                }
                true
            }
        }
    }

    /// The complement of [`Filter::accepts`].
    pub fn rejects(&self, peer: &[u8]) -> (r: bool)
        ensures
            r == !self.accepts_spec(peer@),
    {
        !self.accepts(peer)
    }
}

/// The default filter rejects nothing.
pub fn default_filter() -> (r: Filter)
    ensures
        r matches Filter::Reject(items) && items@.len() == 0,
        forall|peer: Seq<u8>| r.accepts_spec(peer),
{
    Filter::Reject(Vec::new())
}

} // verus!
