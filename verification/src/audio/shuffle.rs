use rand::seq::SliceRandom;
use rand::thread_rng;
use vstd::prelude::*;

verus! {

/// The positions `0, 1, .., n - 1` in order.
pub open spec fn identity_order(n: nat) -> Seq<u32> {
    Seq::new(n, |i: int| i as u32)
}

/// Whether `p` is a bijection over `0..n`: it has `n` entries, each below
/// `n`, no entry occurs twice, and every position below `n` occurs.
pub open spec fn is_permutation(p: Seq<u32>, n: nat) -> bool {
    &&& p.len() == n
    &&& forall|i: int| 0 <= i < p.len() ==> (#[trigger] p[i]) < n
    &&& forall|i: int, j: int| 0 <= i < p.len() && 0 <= j < p.len() && i != j ==> p[i] != p[j]
    &&& forall|k: u32| k < n ==> #[trigger] p.contains(k)
}

/// A sequence that holds the same entries as the identity order, each as
/// often, is a bijection over `0..n`.
pub proof fn lemma_rearranged_identity_is_permutation(p: Seq<u32>, n: nat)
    requires
        n <= u32::MAX,
        p.to_multiset() == identity_order(n).to_multiset(),
    ensures
        is_permutation(p, n),
{
    broadcast use vstd::seq_lib::group_to_multiset_ensures;

    let id = identity_order(n);
    assert(id.no_duplicates());
    id.lemma_multiset_has_no_duplicates();
    p.lemma_multiset_has_no_duplicates_conv();
    assert(p.len() == p.to_multiset().len());
    assert(id.len() == id.to_multiset().len());
    assert forall|i: int| 0 <= i < p.len() implies (#[trigger] p[i]) < n by {
        assert(p.contains(p[i]));
        assert(id.to_multiset().count(p[i]) > 0);
        assert(id.contains(p[i]));
    }
    assert forall|k: u32| k < n implies #[trigger] p.contains(k) by {
        assert(id[k as int] == k);
        assert(id.contains(k));
        assert(p.to_multiset().count(k) > 0);
    }
}

/// Rearranges `positions` at random with `rand::seq::SliceRandom::shuffle`,
/// driven by `rand::thread_rng`. The shuffle only swaps entries, so whatever
/// the generator yields the vector afterwards holds the same entries as
/// before, each as often; nothing is claimed about their order.
#[verifier::external_body]
fn shuffle_positions(positions: &mut Vec<u32>)
    ensures
        final(positions)@.to_multiset() == old(positions)@.to_multiset(),
{
    positions.shuffle(&mut thread_rng());
}

/// Builds the identity order over `0..n`.
pub fn identity_positions(n: u32) -> (r: Vec<u32>)
    ensures
        r@ == identity_order(n as nat),
{
    let mut positions: Vec<u32> = Vec::new();
    let mut i: u32 = 0;
    while i < n
        invariant
            i <= n,
            positions@ == identity_order(i as nat),
        decreases n - i,
    {
        positions.push(i);
        i += 1;
        assert(positions@ =~= identity_order(i as nat));
    }
    positions
}

/// A reorderable projection of an ordered collection of `n_items` entries:
/// either the identity, or a random permutation of the entries' positions.
#[derive(Debug)]
pub struct ShuffleListModel {
    n_items: u32,
    shuffle: Option<Vec<u32>>,
}

impl ShuffleListModel {
    /// The permutation is a bijection over the positions of the backing
    /// collection whenever one is present.
    #[verifier::type_invariant]
    pub closed spec fn wf(self) -> bool {
        match self.shuffle {
            Some(p) => is_permutation(p@, self.n_items as nat),
            None => true,
        }
    }

    /// Size of the backing collection.
    pub closed spec fn size(self) -> nat {
        self.n_items as nat
    }

    /// Whether a permutation is in force.
    pub closed spec fn is_shuffled(self) -> bool {
        self.shuffle.is_some()
    }

    /// The effective ordering: entry `i` is the backing position shown at
    /// effective position `i`.
    pub closed spec fn order(self) -> Seq<u32> {
        match self.shuffle {
            Some(p) => p@,
            None => identity_order(self.n_items as nat),
        }
    }

    /// The effective ordering is always a bijection over the backing
    /// positions, and it is the identity while no shuffle is in force.
    pub proof fn lemma_order(self)
        requires
            self.wf(),
        ensures
            self.size() <= u32::MAX,
            is_permutation(self.order(), self.size()),
            !self.is_shuffled() ==> self.order() == identity_order(self.size()),
    {
        if self.shuffle.is_none() {
            let id = identity_order(self.n_items as nat);
            assert forall|k: u32| k < self.n_items implies #[trigger] id.contains(k) by {
                assert(id[k as int] == k);
            }
        }
    }

    /// An unshuffled projection of a collection of `n_items` entries.
    pub fn new(n_items: u32) -> (r: ShuffleListModel)
        ensures
            r.wf(),
            r.size() == n_items,
            !r.is_shuffled(),
            r.order() == identity_order(n_items as nat),
    {
        ShuffleListModel { n_items, shuffle: None }
    }

    /// Number of entries of the backing collection.
    pub fn n_items(&self) -> (r: u32)
        ensures
            r == self.size(),
    {
        self.n_items
    }

    pub fn shuffled(&self) -> (r: bool)
        ensures
            r == self.is_shuffled(),
    {
        self.shuffle.is_some()
    }

    /// The backing position shown at effective position `position`, or
    /// nothing when `position` is past the end.
    pub fn item(&self, position: u32) -> (r: Option<u32>)
        ensures
            r == if position < self.size() {
                Some(self.order()[position as int])
            } else {
                None
            },
            r.is_some() ==> r.unwrap() < self.size(),
    {
        proof {
            use_type_invariant(self);
        }
        match &self.shuffle {
            Some(p) => {
                if (position as usize) < p.len() {
                    Some(p[position as usize])
                } else {
                    None
                }
            },
            None => {
                if position < self.n_items {
                    Some(position)
                } else {
                    None
                }
            },
        }
    }

    /// The effective position at which backing position `backing` is
    /// shown, or nothing when `backing` is past the end.
    pub fn position_of(&self, backing: u32) -> (r: Option<u32>)
        ensures
            match r {
                Some(pos) => backing < self.size() && pos < self.size() && self.order()[pos as int]
                    == backing,
                None => backing >= self.size(),
            },
    {
        proof {
            use_type_invariant(self);
        }
        if backing >= self.n_items {
            return None;
        }
        match &self.shuffle {
            Some(p) => {
                let mut i: usize = 0;
                while i < p.len()
                    invariant
                        i <= p.len(),
                        p.len() == self.size(),
                        backing < self.size(),
                        self.order() == p@,
                        forall|j: int| 0 <= j < i ==> p@[j] != backing,
                    decreases p.len() - i,
                {
                    if p[i] == backing {
                        return Some(i as u32);
                    }
                    i += 1;
                }
                proof {
                    assert(p@.contains(backing));
                }
                None
            },
            None => Some(backing),
        }
    }

    /// Tells the projection that the backing collection now has `n_items`
    /// entries. A shuffle in force is regenerated for the new size.
    pub fn set_model(&mut self, n_items: u32)
        ensures
            final(self).wf(),
            final(self).size() == n_items,
            final(self).is_shuffled() == old(self).is_shuffled(),
            is_permutation(final(self).order(), n_items as nat),
    {
        let fresh = if self.shuffle.is_some() {
            Some(Self::random_order(n_items))
        } else {
            None
        };
        *self = ShuffleListModel { n_items, shuffle: fresh };
        proof {
            self.lemma_order();
        }
    }

    /// A fresh random permutation of `0..n`.
    fn random_order(n: u32) -> (r: Vec<u32>)
        ensures
            is_permutation(r@, n as nat),
    {
        let mut positions = identity_positions(n);
        shuffle_positions(&mut positions);
        proof {
            lemma_rearranged_identity_is_permutation(positions@, n as nat);
        }
        positions
    }

    /// Replaces the ordering by a fresh random permutation.
    pub fn reshuffle(&mut self)
        ensures
            final(self).wf(),
            final(self).size() == old(self).size(),
            final(self).is_shuffled(),
            is_permutation(final(self).order(), final(self).size()),
    {
        let n = self.n_items;
        *self = ShuffleListModel { n_items: n, shuffle: Some(Self::random_order(n)) };
    }

    /// Drops the permutation: the ordering is the identity again.
    pub fn unshuffle(&mut self)
        ensures
            final(self).wf(),
            final(self).size() == old(self).size(),
            !final(self).is_shuffled(),
            final(self).order() == identity_order(final(self).size()),
    {
        let n = self.n_items;
        *self = ShuffleListModel { n_items: n, shuffle: None };
    }
}

impl Default for ShuffleListModel {
    /// The projection of an empty collection.
    fn default() -> (r: ShuffleListModel)
        ensures
            r.wf(),
            r.size() == 0,
            !r.is_shuffled(),
    {
        ShuffleListModel::new(0)
    }
}

} // verus!
