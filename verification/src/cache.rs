use vstd::prelude::*;

verus! {

/// The bounded session/key cache used at request intake: a capacity-bounded
/// map from a session id to its cryptographic material, evicting the
/// least-recently-used entry once the capacity is exceeded.
///
/// Viewed as the sequence of (session id, material) pairs from most to least
/// recently used; ids are unique and the sequence never exceeds the capacity.
pub struct LruStore {
    entries: Vec<(u128, Vec<u8>)>,
    capacity: usize,
}

spec fn entry_views(s: Seq<(u128, Vec<u8>)>) -> Seq<(u128, Seq<u8>)> {
    s.map_values(|e: (u128, Vec<u8>)| (e.0, e.1@))
}

spec fn unique_keys(s: Seq<(u128, Seq<u8>)>) -> bool {
    forall|i: int, j: int| 0 <= i < j < s.len() ==> (#[trigger] s[i]).0 != (#[trigger] s[j]).0
}

pub open spec fn contains_key(s: Seq<(u128, Seq<u8>)>, id: u128) -> bool {
    exists|i: int| 0 <= i < s.len() && (#[trigger] s[i]).0 == id
}

impl View for LruStore {
    type V = Seq<(u128, Seq<u8>)>;

    closed spec fn view(&self) -> Seq<(u128, Seq<u8>)> {
        entry_views(self.entries@)
    }
}

impl LruStore {
    /// The fixed capacity the cache was made with.
    pub closed spec fn cap(&self) -> nat {
        self.capacity as nat
    }

    /// Internal consistency: ids unique, never more entries than capacity.
    pub closed spec fn inv(&self) -> bool {
        &&& unique_keys(self@)
        &&& self@.len() <= self.cap()
        &&& self.cap() >= 1
    }

    /// An empty cache of the given capacity.
    pub fn new(capacity: usize) -> (store: LruStore)
        requires
            capacity >= 1,
        ensures
            store.inv(),
            store@ == Seq::<(u128, Seq<u8>)>::empty(),
            store.cap() == capacity,
    {
        let store = LruStore { entries: Vec::new(), capacity };
        proof {
            assert(store@ =~= Seq::<(u128, Seq<u8>)>::empty());
        }
        store
    }

    fn find_index(&self, id: u128) -> (r: Option<usize>)
        ensures
            match r {
                Some(i) => i < self@.len() && self@[i as int].0 == id,
                None => !contains_key(self@, id),
            },
    {
        let n = self.entries.len();
        let mut i: usize = 0;
        while i < n
            invariant
                i <= n,
                n == self.entries@.len(),
                self@.len() == self.entries@.len(),
                forall|j: int| 0 <= j < i ==> (#[trigger] self@[j]).0 != id,
                forall|j: int|
                    0 <= j < self@.len() ==> (#[trigger] self@[j]) == (
                    self.entries@[j].0,
                    self.entries@[j].1@,
                ),
            decreases n - i,
        {
            if self.entries[i].0 == id {
                return Some(i);
            }
            i = i + 1;
        }
        None
    }

    /// Inserts or refreshes an entry, making it the most recently used. An
    /// id already cached keeps a single entry, now carrying the new material
    /// in front; a fresh id is put in front, and when the cache would then
    /// exceed its capacity the least-recently-used entry (the last one) is
    /// evicted.
    pub fn insert(&mut self, id: u128, material: Vec<u8>)
        requires
            old(self).inv(),
        ensures
            final(self).inv(),
            final(self).cap() == old(self).cap(),
            contains_key(old(self)@, id) ==> {
                let i = choose|i: int| 0 <= i < old(self)@.len() && old(self)@[i].0 == id;
                final(self)@ == seq![(id, material@)] + old(self)@.remove(i)
            },
            !contains_key(old(self)@, id) && old(self)@.len() < old(self).cap() ==> final(self)@
                == seq![(id, material@)] + old(self)@,
            !contains_key(old(self)@, id) && old(self)@.len() == old(self).cap() ==> final(self)@
                == (seq![(id, material@)] + old(self)@).drop_last(),
    {
        match self.find_index(id) {
            Some(i) => {
                let ghost pre = self@;
                self.entries.remove(i);
                proof {
                    assert(self@ =~= pre.remove(i as int));
                    let w = choose|w: int| 0 <= w < pre.len() && pre[w].0 == id;
                    assert(pre[w] == pre[i as int]);
                    if w != i {
                        assert(false);
                    }
                }
                let ghost removed = self@;
                self.entries.insert(0, (id, material));
                proof {
                    assert(self@ =~= seq![(id, material@)] + removed);
                }
            },
            None => {
                let ghost pre = self@;
                if self.entries.len() == self.capacity {
                    let evict_at = self.entries.len() - 1;
                    self.entries.remove(evict_at);
                    proof {
                        assert(self@ =~= pre.drop_last());
                    }
                }
                let ghost kept = self@;
                self.entries.insert(0, (id, material));
                proof {
                    assert(self@ =~= seq![(id, material@)] + kept);
                    if pre.len() == old(self).cap() {
                        assert(self@ =~= (seq![(id, material@)] + pre).drop_last());
                    }
                    assert forall|i: int, j: int|
                        0 <= i < j < self@.len() implies (#[trigger] self@[i]).0 != (
                    #[trigger] self@[j]).0 by {
                        if i > 0 {
                            assert(self@[i] == kept[i - 1]);
                        }
                        assert(self@[j] == kept[j - 1]);
                        if i == 0 {
                            assert(!contains_key(pre, id));
                            if pre.len() == old(self).cap() {
                                assert(kept[j - 1] == pre[j - 1]);
                            }
                        }
                    }
                }
            },
        }
    }

    /// Looks a session id up; a hit returns its material and makes the entry
    /// the most recently used, a miss changes nothing.
    pub fn get(&mut self, id: u128) -> (r: Option<Vec<u8>>)
        requires
            old(self).inv(),
        ensures
            final(self).inv(),
            final(self).cap() == old(self).cap(),
            match r {
                Some(material) => {
                    let i = choose|i: int| 0 <= i < old(self)@.len() && old(self)@[i].0 == id;
                    contains_key(old(self)@, id) && material@ == old(self)@[i].1 && final(self)@
                        == seq![(id, material@)] + old(self)@.remove(i)
                },
                None => !contains_key(old(self)@, id) && final(self)@ == old(self)@,
            },
    {
        match self.find_index(id) {
            Some(i) => {
                let material = self.entries[i].1.clone();
                let ghost pre = self@;
                proof {
                    assert(pre[i as int].1 == material@);
                }
                self.entries.remove(i);
                proof {
                    assert(self@ =~= pre.remove(i as int));
                    let w = choose|w: int| 0 <= w < pre.len() && pre[w].0 == id;
                    assert(pre[w] == pre[i as int]);
                    if w != i {
                        assert(false);
                    }
                }
                let ghost removed = self@;
                self.entries.insert(0, (id, material.clone()));
                proof {
                    assert(self@ =~= seq![(id, material@)] + removed);
                }
                Some(material)
            },
            None => None,
        }
    }

    /// How many sessions are cached.
    pub fn len(&self) -> (n: usize)
        ensures
            n == self@.len(),
    {
        self.entries.len()
    }
}

} // verus!
