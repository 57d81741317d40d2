//! A finite set of strings, kept as a duplicate-free vector.

use vstd::prelude::*;

verus! {

/// A finite set of strings. The elements are stored once each, in insertion
/// order.
pub struct StringSet {
    items: Vec<String>,
}

impl StringSet {
    /// No element is stored twice.
    #[verifier::type_invariant]
    spec fn no_duplicates(self) -> bool {
        forall|i: int, j: int|
            0 <= i < self.items@.len() && 0 <= j < self.items@.len() && i != j
                ==> self.items@[i]@ != self.items@[j]@
    }

    /// The elements, in storage order.
    pub closed spec fn seq(self) -> Seq<Seq<char>> {
        self.items@.map_values(|s: String| s@)
    }

    /// The empty set.
    pub fn new() -> (r: StringSet)
        ensures
            r@ == Set::<Seq<char>>::empty(),
            r.seq().len() == 0,
    {
        let r = StringSet { items: Vec::new() };
        assert(r.seq() =~= Seq::<Seq<char>>::empty());
        assert(r@ =~= Set::<Seq<char>>::empty());
        r
    }

    /// The set of the given strings (duplicates collapse).
    pub fn from_vec(v: Vec<String>) -> (r: StringSet)
        ensures
            forall|x: Seq<char>| #[trigger]
                r@.contains(x) <==> exists|i: int| 0 <= i < v@.len() && v@[i]@ == x,
    {
        let mut r = StringSet::new();
        let mut i: usize = 0;
        while i < v.len()
            invariant
                i <= v@.len(),
                forall|x: Seq<char>| #[trigger]
                    r@.contains(x) <==> exists|k: int| 0 <= k < i && v@[k]@ == x,
            decreases v@.len() - i,
        {
            let s = v[i].clone();
            r.insert(s);
            assert forall|x: Seq<char>| #[trigger]
                r@.contains(x) <==> exists|k: int| 0 <= k < i + 1 && v@[k]@ == x by {
                if x == v@[i as int]@ {
                    assert(0 <= i < i + 1 && v@[i as int]@ == x);
                }
                if exists|k: int| 0 <= k < i + 1 && v@[k]@ == x {
                    let k = choose|k: int| 0 <= k < i + 1 && v@[k]@ == x;
                    if k < i {
                        assert(exists|k2: int| 0 <= k2 < i && v@[k2]@ == x);
                    }
                }
            }
            i = i + 1;
        }
        r
    }

    /// Number of elements.
    pub fn len(&self) -> (r: usize)
        ensures
            r == self.seq().len(),
            r == self@.len(),
    {
        proof {
            use_type_invariant(self);
            self.seq().unique_seq_to_set();
        }
        self.items.len()
    }

    /// Whether the set is empty.
    pub fn is_empty(&self) -> (r: bool)
        ensures
            r == (self@ == Set::<Seq<char>>::empty()),
    {
        let n = self.len();
        if n == 0 {
            assert(self@ =~= Set::<Seq<char>>::empty());
        } else {
            assert(self@.contains(self.seq()[0]));
        }
        n == 0
    }

    /// The element stored at position `i`.
    pub fn get(&self, i: usize) -> (r: &String)
        requires
            i < self.seq().len(),
        ensures
            r@ == self.seq()[i as int],
            self@.contains(r@),
    {
        assert(self.seq().contains(self.seq()[i as int]));
        &self.items[i]
    }

    /// Membership test.
    pub fn contains(&self, x: &str) -> (r: bool)
        ensures
            r == self@.contains(x@),
    {
        let mut i: usize = 0;
        while i < self.items.len()
            invariant
                i <= self.items@.len(),
                forall|k: int| 0 <= k < i ==> self.items@[k]@ != x@,
            decreases self.items@.len() - i,
        {
            if crate::util::text::str_eq(self.items[i].as_str(), x) {
                assert(self.seq()[i as int] == x@);
                return true;
            }
            i = i + 1;
        }
        proof {
            if self.seq().contains(x@) {
                let k = choose|k: int| 0 <= k < self.seq().len() && self.seq()[k] == x@;
                assert(self.items@[k]@ == x@);
            }
        }
        false
    }

    /// Adds `x`; does nothing when it is already present.
    pub fn insert(&mut self, x: String)
        ensures
            final(self)@ == old(self)@.insert(x@),
            final(self).seq() == (if old(self)@.contains(x@) {
                old(self).seq()
            } else {
                old(self).seq().push(x@)
            }),
    {
        let present = self.contains(x.as_str());
        if !present {
            proof {
                use_type_invariant(&*self);
            }
            let ghost old_seq = self.seq();
            let ghost old_items = self.items@;
            assert forall|k: int| 0 <= k < old_items.len() implies old_items[k]@ != x@ by {
                assert(old_seq[k] == old_items[k]@);
                assert(old_seq.contains(old_seq[k]));
            }
            let mut items: Vec<String> = Vec::new();
            std::mem::swap(&mut items, &mut self.items);
            assert(items@ == old_items);
            items.push(x);
            self.items = items;
            assert(self.seq() =~= old_seq.push(x@));
            proof {
                old_seq.lemma_push_to_set_commute(x@);
            }
        } else {
            assert(old(self)@.insert(x@) =~= old(self)@);
        }
    }

    /// Adds every element of `other`.
    pub fn extend(&mut self, other: &StringSet)
        ensures
            final(self)@ == old(self)@.union(other@),
    {
        let n = other.len();
        let mut i: usize = 0;
        while i < n
            invariant
                n == other.seq().len(),
                i <= n,
                self@ == old(self)@.union(other.seq().take(i as int).to_set()),
            decreases n - i,
        {
            let s = other.get(i).clone();
            let ghost before = self@;
            self.insert(s);
            assert(other.seq().take(i + 1) =~= other.seq().take(i as int).push(other.seq()[i as int]));
            proof {
                other.seq().take(i as int).lemma_push_to_set_commute(other.seq()[i as int]);
            }
            assert(self@ =~= old(self)@.union(other.seq().take(i + 1).to_set()));
            i = i + 1;
        }
        assert(other.seq().take(n as int) =~= other.seq());
    }

    /// A copy with the same elements.
    pub fn copy(&self) -> (r: StringSet)
        ensures
            r@ == self@,
            r.seq() == self.seq(),
    {
        proof {
            use_type_invariant(self);
        }
        let mut items: Vec<String> = Vec::new();
        let mut i: usize = 0;
        while i < self.items.len()
            invariant
                i <= self.items@.len(),
                items@.len() == i,
                forall|k: int| 0 <= k < i ==> #[trigger] items@[k]@ == self.items@[k]@,
            decreases self.items@.len() - i,
        {
            items.push(self.items[i].clone());
            i = i + 1;
        }
        assert(items@.map_values(|s: String| s@) =~= self.seq());
        let r = StringSet { items };
        r
    }

    /// The elements as a vector, in storage order.
    pub fn to_vec(&self) -> (r: Vec<String>)
        ensures
            r@.map_values(|s: String| s@) == self.seq(),
    {
        let c = self.copy();
        c.items
    }
}

impl View for StringSet {
    type V = Set<Seq<char>>;

    open spec fn view(&self) -> Set<Seq<char>> {
        self.seq().to_set()
    }
}

} // verus!
