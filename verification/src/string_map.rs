//! A map from text keys to text values, kept as a list of pairs whose keys are distinct.
use vstd::prelude::*;

verus! {

/// The text views of a list of pairs of strings.
pub open spec fn pair_views(pairs: Seq<(String, String)>) -> Seq<(Seq<char>, Seq<char>)> {
    pairs.map_values(|p: (String, String)| (p.0@, p.1@))
}

/// No key occurs twice among the pairs.
pub open spec fn keys_distinct(pv: Seq<(Seq<char>, Seq<char>)>) -> bool {
    forall|i: int, j: int|
        0 <= i < pv.len() && 0 <= j < pv.len() && i != j ==> #[trigger] pv[i].0 != #[trigger] pv[j].0
}

/// Whether some pair has key `k`.
pub open spec fn has_key(pv: Seq<(Seq<char>, Seq<char>)>, k: Seq<char>) -> bool {
    exists|i: int| 0 <= i < pv.len() && #[trigger] pv[i].0 == k
}

/// The map that a list of pairs with distinct keys stands for.
pub open spec fn map_of_pairs(pv: Seq<(Seq<char>, Seq<char>)>) -> Map<Seq<char>, Seq<char>> {
    Map::new(
        |k: Seq<char>| has_key(pv, k),
        |k: Seq<char>| pv[choose|i: int| 0 <= i < pv.len() && #[trigger] pv[i].0 == k].1,
    )
}

/// A pair of the list is an entry of the map it stands for.
pub proof fn lemma_map_of_pairs_index(pv: Seq<(Seq<char>, Seq<char>)>, i: int)
    requires
        keys_distinct(pv),
        0 <= i < pv.len(),
    ensures
        map_of_pairs(pv).contains_key(pv[i].0),
        map_of_pairs(pv)[pv[i].0] == pv[i].1,
{
    let k = pv[i].0;
    assert(has_key(pv, k));
    let j = choose|j: int| 0 <= j < pv.len() && #[trigger] pv[j].0 == k;
    assert(pv[j].0 == k);
    assert(j == i);
}

/// Adding a pair with a new key to the list adds that entry to the map.
pub proof fn lemma_map_of_pairs_push(pv: Seq<(Seq<char>, Seq<char>)>, p: (Seq<char>, Seq<char>))
    requires
        keys_distinct(pv.push(p)),
    ensures
        map_of_pairs(pv.push(p)) == map_of_pairs(pv).insert(p.0, p.1),
{
    let np = pv.push(p);
    assert(keys_distinct(pv)) by {
        assert forall|a: int, b: int|
            0 <= a < pv.len() && 0 <= b < pv.len() && a != b implies #[trigger] pv[a].0
            != #[trigger] pv[b].0 by {
            assert(np[a] == pv[a] && np[b] == pv[b]);
        }
    }
    assert forall|k: Seq<char>| has_key(np, k) == (has_key(pv, k) || k == p.0) by {
        if has_key(pv, k) {
            let j = choose|j: int| 0 <= j < pv.len() && #[trigger] pv[j].0 == k;
            assert(np[j].0 == k);
        }
        if has_key(np, k) {
            let j = choose|j: int| 0 <= j < np.len() && #[trigger] np[j].0 == k;
            assert(j < pv.len() ==> pv[j].0 == k);
        }
        if k == p.0 {
            assert(np[pv.len() as int].0 == k);
        }
    }
    assert forall|k: Seq<char>| #[trigger] map_of_pairs(np).contains_key(k) implies map_of_pairs(np)[k]
        == map_of_pairs(pv).insert(p.0, p.1)[k] by {
        let j = choose|j: int| 0 <= j < np.len() && #[trigger] np[j].0 == k;
        lemma_map_of_pairs_index(np, j);
        if j < pv.len() {
            assert(np[j] == pv[j]);
            lemma_map_of_pairs_index(pv, j);
            assert(pv[j].0 != p.0) by {
                assert(np[pv.len() as int] == p);
            }
        }
    }
    assert(map_of_pairs(np) =~= map_of_pairs(pv).insert(p.0, p.1));
}

/// A map from strings to strings, as `HashMap<String, String>` holds it, with its
/// entries in the order in which their keys were first inserted.
#[derive(Debug)]
pub struct StringMap {
    entries: Vec<(String, String)>,
}

impl StringMap {
    /// The entries, by their text.
    pub closed spec fn pairs(self) -> Seq<(Seq<char>, Seq<char>)> {
        pair_views(self.entries@)
    }

    #[verifier::type_invariant]
    spec fn inv(self) -> bool {
        keys_distinct(self.pairs())
    }
}

impl Clone for StringMap {
    /// A copy with the same entries in the same order.
    fn clone(&self) -> (r: StringMap)
        ensures
            r.pairs() == self.pairs(),
            r@ == self@,
    {
        proof {
            use_type_invariant(self);
        }
        let n = self.entries.len();
        let mut entries: Vec<(String, String)> = Vec::new();
        let mut i: usize = 0;
        while i < n
            invariant
                n == self.entries@.len(),
                i <= n,
                pair_views(entries@) == pair_views(self.entries@).take(i as int),
            decreases n - i,
        {
            let k = self.entries[i].0.clone();
            let v = self.entries[i].1.clone();
            assert(k@ == self.entries@[i as int].0@ && v@ == self.entries@[i as int].1@);
            let ghost before = entries@;
            entries.push((k, v));
            assert(entries@ == before.push((k, v)));
            assert(pair_views(entries@) =~= pair_views(before).push((k@, v@)));
            assert(pair_views(entries@) =~= pair_views(self.entries@).take(i + 1));
            i = i + 1;
        }
        assert(pair_views(self.entries@).take(n as int) =~= pair_views(self.entries@));
        StringMap { entries }
    }
}

impl View for StringMap {
    type V = Map<Seq<char>, Seq<char>>;

    open spec fn view(&self) -> Map<Seq<char>, Seq<char>> {
        map_of_pairs(self.pairs())
    }
}

impl StringMap {
    /// An empty map.
    pub fn new() -> (m: StringMap)
        ensures
            m@ == Map::<Seq<char>, Seq<char>>::empty(),
    {
        let m = StringMap { entries: Vec::new() };
        assert(m@ =~= Map::<Seq<char>, Seq<char>>::empty());
        m
    }

    /// Whether the map has no entry.
    pub fn is_empty(&self) -> (r: bool)
        ensures
            r == (self@ == Map::<Seq<char>, Seq<char>>::empty()),
    {
        proof {
            use_type_invariant(self);
        }
        if self.entries.len() == 0 {
            assert(self@ =~= Map::<Seq<char>, Seq<char>>::empty());
            true
        } else {
            proof {
                lemma_map_of_pairs_index(self.pairs(), 0);
            }
            false
        }
    }

    /// The entries, in insertion order; no key occurs twice among them.
    pub fn entries(&self) -> (r: &Vec<(String, String)>)
        ensures
            keys_distinct(pair_views(r@)),
            map_of_pairs(pair_views(r@)) == self@,
    {
        proof {
            use_type_invariant(self);
        }
        &self.entries
    }

    fn find(&self, key: &String) -> (r: Option<usize>)
        ensures
            match r {
                Some(i) => i < self.pairs().len() && self.pairs()[i as int].0 == key@,
                None => !has_key(self.pairs(), key@),
            },
    {
        let n = self.entries.len();
        let mut i: usize = 0;
        while i < n
            invariant
                n == self.entries@.len(),
                i <= n,
                forall|j: int| 0 <= j < i ==> #[trigger] self.pairs()[j].0 != key@,
            decreases n - i,
        {
            if self.entries[i].0 == *key {
                return Some(i);
            }
            i = i + 1;
        }
        None
    }

    /// The value stored under `key`, if any.
    pub fn get(&self, key: &str) -> (r: Option<&String>)
        ensures
            match r {
                Some(v) => self@.contains_key(key@) && v@ == self@[key@],
                None => !self@.contains_key(key@),
            },
    {
        proof {
            use_type_invariant(self);
        }
        let k = String::from_str(key);
        match self.find(&k) {
            Some(i) => {
                proof {
                    lemma_map_of_pairs_index(self.pairs(), i as int);
                }
                Some(&self.entries[i].1)
            },
            None => None,
        }
    }

    /// Stores `value` under `key`, in place of any value stored there before.
    pub fn insert(&mut self, key: String, value: String)
        ensures
            final(self)@ == old(self)@.insert(key@, value@),
    {
        proof {
            use_type_invariant(&*self);
        }
        let ghost old_pv = self.pairs();
        let found = self.find(&key);
        let mut entries: Vec<(String, String)> = Vec::new();
        std::mem::swap(&mut entries, &mut self.entries);
        assert(pair_views(entries@) == old_pv);
        let ghost kv = key@;
        let ghost vv = value@;
        match found {
            Some(i) => {
                entries.set(i, (key, value));
                let ghost new_pv = pair_views(entries@);
                assert(new_pv =~= old_pv.update(i as int, (kv, vv)));
                assert(keys_distinct(new_pv));
                assert(map_of_pairs(new_pv) =~= map_of_pairs(old_pv).insert(kv, vv)) by {
                    assert forall|k: Seq<char>| has_key(new_pv, k) == (has_key(old_pv, k) || k == kv) by {
                        if has_key(old_pv, k) {
                            let j = choose|j: int| 0 <= j < old_pv.len() && #[trigger] old_pv[j].0 == k;
                            assert(new_pv[j].0 == k);
                        }
                        if has_key(new_pv, k) {
                            let j = choose|j: int| 0 <= j < new_pv.len() && #[trigger] new_pv[j].0 == k;
                            assert(old_pv[j].0 == k || j == i);
                        }
                        if k == kv {
                            assert(new_pv[i as int].0 == k);
                        }
                    }
                    assert forall|k: Seq<char>| #[trigger] map_of_pairs(new_pv).contains_key(k) implies
                        map_of_pairs(new_pv)[k] == map_of_pairs(old_pv).insert(kv, vv)[k] by {
                        let j = choose|j: int| 0 <= j < new_pv.len() && #[trigger] new_pv[j].0 == k;
                        lemma_map_of_pairs_index(new_pv, j);
                        if j != i {
                            lemma_map_of_pairs_index(old_pv, j);
                        }
                    }
                }
            },
            None => {
                entries.push((key, value));
                let ghost new_pv = pair_views(entries@);
                assert(new_pv =~= old_pv.push((kv, vv)));
                assert(keys_distinct(new_pv)) by {
                    assert forall|a: int, b: int|
                        0 <= a < new_pv.len() && 0 <= b < new_pv.len() && a != b implies #[trigger] new_pv[a].0
                        != #[trigger] new_pv[b].0 by {
                        if a == old_pv.len() {
                            assert(old_pv[b].0 != kv);
                        } else if b == old_pv.len() {
                            assert(old_pv[a].0 != kv);
                        }
                    }
                }
                assert(map_of_pairs(new_pv) =~= map_of_pairs(old_pv).insert(kv, vv)) by {
                    assert forall|k: Seq<char>| has_key(new_pv, k) == (has_key(old_pv, k) || k == kv) by {
                        if has_key(old_pv, k) {
                            let j = choose|j: int| 0 <= j < old_pv.len() && #[trigger] old_pv[j].0 == k;
                            assert(new_pv[j].0 == k);
                        }
                        if has_key(new_pv, k) {
                            let j = choose|j: int| 0 <= j < new_pv.len() && #[trigger] new_pv[j].0 == k;
                            assert(j < old_pv.len() ==> old_pv[j].0 == k);
                        }
                        if k == kv {
                            assert(new_pv[old_pv.len() as int].0 == k);
                        }
                    }
                    assert forall|k: Seq<char>| #[trigger] map_of_pairs(new_pv).contains_key(k) implies
                        map_of_pairs(new_pv)[k] == map_of_pairs(old_pv).insert(kv, vv)[k] by {
                        let j = choose|j: int| 0 <= j < new_pv.len() && #[trigger] new_pv[j].0 == k;
                        lemma_map_of_pairs_index(new_pv, j);
                        if j < old_pv.len() {
                            lemma_map_of_pairs_index(old_pv, j);
                        }
                    }
                }
            },
        }
        self.entries = entries;
    }
}

} // verus!
