use vstd::prelude::*;

verus! {

/// The circuit-to-key-file map: built once at startup from the circuit
/// folder, read-only afterwards. Maps each circuit name to the absolute path
/// of its proving key material. Viewed as a map from name text to path text.
pub struct CircuitMap {
    entries: Vec<(String, String)>,
}

spec fn unique_names(s: Seq<(String, String)>) -> bool {
    forall|i: int, j: int| 0 <= i < j < s.len() ==> (#[trigger] s[i]).0@ != (#[trigger] s[j]).0@
}

spec fn map_of(s: Seq<(String, String)>) -> Map<Seq<char>, Seq<char>>
    decreases s.len(),
{
    if s.len() == 0 {
        Map::empty()
    } else {
        map_of(s.drop_last()).insert(s.last().0@, s.last().1@)
    }
}

proof fn lemma_map_of_contains(s: Seq<(String, String)>, name: Seq<char>)
    ensures
        map_of(s).dom().contains(name) <==> exists|i: int|
            0 <= i < s.len() && (#[trigger] s[i]).0@ == name,
    decreases s.len(),
{
    if s.len() > 0 {
        lemma_map_of_contains(s.drop_last(), name);
        if s.last().0@ == name {
            assert(s[s.len() - 1].0@ == name);
        } else if map_of(s).dom().contains(name) {
            let i = choose|i: int|
                0 <= i < s.drop_last().len() && (#[trigger] s.drop_last()[i]).0@ == name;
            assert(s[i].0@ == name);
        } else {
            assert forall|i: int| 0 <= i < s.len() implies (#[trigger] s[i]).0@ != name by {
                if i < s.len() - 1 {
                    assert(s.drop_last()[i].0@ != name);
                }
            }
        }
    }
}

proof fn lemma_map_of_index(s: Seq<(String, String)>, i: int)
    requires
        unique_names(s),
        0 <= i < s.len(),
    ensures
        map_of(s).dom().contains(s[i].0@),
        map_of(s)[s[i].0@] == s[i].1@,
    decreases s.len(),
{
    if i == s.len() - 1 {
        assert(s[i] == s.last());
    } else {
        assert(forall|j: int, k: int|
            0 <= j < k < s.drop_last().len() ==> (#[trigger] s.drop_last().index(j)).0@ != (
            #[trigger] s.drop_last().index(k)).0@);
        lemma_map_of_index(s.drop_last(), i);
        assert(s.drop_last()[i] == s[i]);
        assert(s[i].0@ != s.last().0@);
    }
}

impl View for CircuitMap {
    type V = Map<Seq<char>, Seq<char>>;

    closed spec fn view(&self) -> Map<Seq<char>, Seq<char>> {
        map_of(self.entries@)
    }
}

impl CircuitMap {
    /// Internal consistency: circuit names are unique.
    pub closed spec fn inv(&self) -> bool {
        unique_names(self.entries@)
    }

    /// An empty map.
    pub fn new() -> (map: CircuitMap)
        ensures
            map.inv(),
            map@ == Map::<Seq<char>, Seq<char>>::empty(),
    {
        CircuitMap { entries: Vec::new() }
    }

    fn find_index(&self, name: &String) -> (r: Option<usize>)
        requires
            self.inv(),
        ensures
            match r {
                Some(i) => i < self.entries@.len() && self.entries@[i as int].0@ == name@
                    && self@.dom().contains(name@) && self@[name@] == self.entries@[i as int].1@,
                None => !self@.dom().contains(name@),
            },
    {
        let n = self.entries.len();
        let mut i: usize = 0;
        while i < n
            invariant
                self.inv(),
                i <= n,
                n == self.entries@.len(),
                forall|j: int| 0 <= j < i ==> (#[trigger] self.entries@[j]).0@ != name@,
            decreases n - i,
        {
            if self.entries[i].0 == *name {
                proof {
                    lemma_map_of_index(self.entries@, i as int);
                }
                return Some(i);
            }
            i = i + 1;
        }
        proof {
            lemma_map_of_contains(self.entries@, name@);
        }
        None
    }

    /// Whether a circuit of this name is known.
    pub fn contains(&self, name: &String) -> (b: bool)
        requires
            self.inv(),
        ensures
            b == self@.dom().contains(name@),
    {
        self.find_index(name).is_some()
    }

    /// Adds a circuit and its key-file path. Every circuit is registered
    /// once, at startup.
    pub fn insert(&mut self, name: String, path: String)
        requires
            old(self).inv(),
            !old(self)@.dom().contains(name@),
        ensures
            final(self).inv(),
            final(self)@ == old(self)@.insert(name@, path@),
    {
        proof {
            lemma_map_of_contains(self.entries@, name@);
        }
        let ghost pre = self.entries@;
        self.entries.push((name, path));
        proof {
            assert(self.entries@.drop_last() =~= pre);
        }
    }

    /// The key-file path registered for this circuit name, if any.
    pub fn get(&self, name: &String) -> (r: Option<String>)
        requires
            self.inv(),
        ensures
            match r {
                Some(path) => self@.dom().contains(name@) && path@ == self@[name@],
                None => !self@.dom().contains(name@),
            },
    {
        match self.find_index(name) {
            Some(i) => Some(self.entries[i].1.clone()),
            None => None,
        }
    }
}

} // verus!
