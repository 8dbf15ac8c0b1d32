//! The listing store: a pure persistence layer that owns the id sequence,
//! the listing records, and the per-seller index. No business rule lives
//! here; the lifecycle engine validates before it writes.

use crate::listing::Listing;
use vstd::prelude::*;

verus! {

/// The ids in `pairs` that belong to `seller`, in append order.
pub open spec fn ids_of(pairs: Seq<(u64, u64)>, seller: u64) -> Seq<u64>
    decreases pairs.len(),
{
    if pairs.len() == 0 {
        Seq::empty()
    } else {
        let rest = ids_of(pairs.drop_last(), seller);
        if pairs.last().0 == seller {
            rest.push(pairs.last().1)
        } else {
            rest
        }
    }
}

/// Appending one pair extends exactly its seller's id sequence, by that id.
pub proof fn lemma_ids_of_push(pairs: Seq<(u64, u64)>, p: (u64, u64), seller: u64)
    ensures
        ids_of(pairs.push(p), seller) == if p.0 == seller {
            ids_of(pairs, seller).push(p.1)
        } else {
            ids_of(pairs, seller)
        },
{
    assert(pairs.push(p).drop_last() =~= pairs);
    assert(pairs.push(p).last() == p);
}

/// Keyed storage for listings. Ids are allocated by `next_id` starting at 1
/// and never reused; the record for id `i` sits at position `i - 1`, so the
/// stored listings are exactly those with ids `1 ..= len`. The seller index
/// is an append-only sequence of `(seller, id)` pairs.
pub struct ListingStore {
    next: u64,
    listings: Vec<Listing>,
    seller_index: Vec<(u64, u64)>,
}

impl ListingStore {
    /// The id that the next call of `next_id` returns.
    pub closed spec fn spec_next_id(&self) -> u64 {
        self.next
    }

    /// All stored listings, in id order: the listing with id `i` (counted
    /// from 1) is element `i - 1`.
    pub closed spec fn listings(&self) -> Seq<Listing> {
        self.listings@
    }

    /// The seller index as the sequence of `(seller, id)` pairs in the
    /// order they were appended.
    pub closed spec fn index_pairs(&self) -> Seq<(u64, u64)> {
        self.seller_index@
    }

    /// The stored listing with the given id, or `None`: absence is an
    /// explicit signal, never a default record.
    pub open spec fn spec_get(&self, id: u64) -> Option<Listing> {
        if 1 <= id && id <= self.listings().len() {
            Some(self.listings()[id - 1])
        } else {
            None
        }
    }

    /// The ids recorded for `seller`, in append order.
    pub open spec fn spec_seller_listings(&self, seller: u64) -> Seq<u64> {
        ids_of(self.index_pairs(), seller)
    }

    /// An empty store whose id sequence starts at 1.
    pub fn new() -> (s: ListingStore)
        ensures
            s.spec_next_id() == 1,
            s.listings() == Seq::<Listing>::empty(),
            s.index_pairs() == Seq::<(u64, u64)>::empty(),
    {
        ListingStore { next: 1, listings: Vec::new(), seller_index: Vec::new() }
    }

    /// Atomically hands out the next id and advances the sequence.
    pub fn next_id(&mut self) -> (id: u64)
        requires
            old(self).spec_next_id() < u64::MAX,
        ensures
            id == old(self).spec_next_id(),
            final(self).spec_next_id() == id + 1,
            final(self).listings() == old(self).listings(),
            final(self).index_pairs() == old(self).index_pairs(),
    {
        let id = self.next;
        self.next = self.next + 1;
        id
    }

    /// Writes the record for `id`: replaces the stored one, or appends when
    /// `id` is the first id not stored yet.
    pub fn put(&mut self, id: u64, listing: Listing)
        requires
            1 <= id,
            id <= old(self).listings().len() + 1,
        ensures
            final(self).listings() == if id <= old(self).listings().len() {
                old(self).listings().update(id - 1, listing)
            } else {
                old(self).listings().push(listing)
            },
            final(self).spec_next_id() == old(self).spec_next_id(),
            final(self).index_pairs() == old(self).index_pairs(),
    {
        let pos = (id - 1) as usize;
        if pos < self.listings.len() {
            self.listings.set(pos, listing);
        } else {
            self.listings.push(listing);
        }
    }

    /// Reads the record for `id`.
    pub fn get(&self, id: u64) -> (r: Option<Listing>)
        ensures
            r == self.spec_get(id),
    {
        if 1 <= id && id <= self.listings.len() as u64 {
            Some(self.listings[(id - 1) as usize])
        } else {
            None
        }
    }

    /// Appends `id` to `seller`'s index; no other seller's ids change.
    pub fn append_to_seller_index(&mut self, seller: u64, id: u64)
        ensures
            final(self).index_pairs() == old(self).index_pairs().push((seller, id)),
            final(self).spec_seller_listings(seller) == old(self).spec_seller_listings(
                seller,
            ).push(id),
            forall|s: u64|
                s != seller ==> final(self).spec_seller_listings(s) == old(
                    self,
                ).spec_seller_listings(s),
            final(self).listings() == old(self).listings(),
            final(self).spec_next_id() == old(self).spec_next_id(),
    {
        let ghost pairs = self.seller_index@;
        self.seller_index.push((seller, id));
        proof {
            assert forall|s: u64| true implies ids_of(pairs.push((seller, id)), s) == if seller
                == s {
                ids_of(pairs, s).push(id)
            } else {
                ids_of(pairs, s)
            } by {
                lemma_ids_of_push(pairs, (seller, id), s);
            }
        }
    }

    /// The ids recorded for `seller`, in the order they were appended.
    pub fn seller_listings(&self, seller: u64) -> (r: Vec<u64>)
        ensures
            r@ == self.spec_seller_listings(seller),
    {
        let mut out: Vec<u64> = Vec::new();
        let n = self.seller_index.len();
        let mut i: usize = 0;
        while i < n
            invariant
                i <= n,
                n == self.seller_index.len(),
                out@ == ids_of(self.seller_index@.take(i as int), seller),
            decreases n - i,
        {
            let pair = self.seller_index[i];
            proof {
                assert(self.seller_index@.take(i + 1).drop_last() =~= self.seller_index@.take(
                    i as int,
                ));
                assert(self.seller_index@.take(i + 1).last() == self.seller_index@[i as int]);
            }
            if pair.0 == seller {
                out.push(pair.1);
            }
            i = i + 1;
        }
        proof {
            assert(self.seller_index@.take(n as int) =~= self.seller_index@);
        }
        out
    }
}

} // verus!
