use std::collections::HashMap;
use vstd::hash_map::StringHashMap;
use vstd::prelude::*;
use vstd::std_specs::hash::spec_hash_map_iter;
use vstd::std_specs::iter::IteratorSpec;

verus! {

broadcast use vstd::std_specs::hash::group_hash_axioms;

/// The map that results from dropping every key bound to `v`.
pub open spec fn drop_value(m: Map<u64, Seq<char>>, v: Seq<char>) -> Map<u64, Seq<char>> {
    m.restrict(m.dom().filter(|j: u64| m[j] != v))
}

/// What a bidirectional insert of `k <-> v` makes of the relation `m`:
/// the old value of `k` and the old key of `v` are both forgotten first.
pub open spec fn bimap_insert(m: Map<u64, Seq<char>>, k: u64, v: Seq<char>) -> Map<u64, Seq<char>> {
    drop_value(m.remove(k), v).insert(k, v)
}

/// No two keys of `m` share a value.
pub open spec fn injective(m: Map<u64, Seq<char>>) -> bool {
    forall|i: u64, j: u64|
        #![trigger m[i], m[j]]
        m.contains_key(i) && m.contains_key(j) && m[i] == m[j] ==> i == j
}

/// Whether some key of `m` is bound to `v`.
pub open spec fn has_value(m: Map<u64, Seq<char>>, v: Seq<char>) -> bool {
    exists|k: u64| m.contains_key(k) && #[trigger] m[k] == v
}

/// `s` lists every binding of `m` exactly once.
pub open spec fn lists(s: Seq<(u64, Seq<char>)>, m: Map<u64, Seq<char>>) -> bool {
    &&& s.len() == m.dom().len()
    &&& forall|i: int| 0 <= i < s.len() ==> m.contains_key(#[trigger] s[i].0) && m[s[i].0] == s[i].1
    &&& forall|k: u64| #[trigger] m.contains_key(k) ==> exists|i: int| 0 <= i < s.len() && #[trigger] s[i].0 == k
    &&& forall|i: int, j: int| 0 <= i < s.len() && 0 <= j < s.len() && i != j ==> #[trigger] s[i].0 != #[trigger] s[j].0
}

/// The relation obtained by inserting the pairs of `s`, in order, into `m`.
pub open spec fn insert_all(m: Map<u64, Seq<char>>, s: Seq<(u64, Seq<char>)>) -> Map<u64, Seq<char>>
    decreases s.len(),
{
    if s.len() == 0 {
        m
    } else {
        bimap_insert(insert_all(m, s.drop_last()), s.last().0, s.last().1)
    }
}

/// The keys of the first `n` pairs of `s`.
pub open spec fn first_keys(s: Seq<(u64, Seq<char>)>, n: int) -> Set<u64> {
    Set::new(|k: u64| exists|i: int| 0 <= i < n && #[trigger] s[i].0 == k)
}

/// Inserting, one by one, a listing of a one-to-one relation rebuilds it:
/// after the first `n` pairs the map holds exactly their bindings.
pub proof fn lemma_insert_listing_prefix(s: Seq<(u64, Seq<char>)>, m: Map<u64, Seq<char>>, n: int)
    requires
        lists(s, m),
        injective(m),
        0 <= n <= s.len(),
    ensures
        insert_all(Map::empty(), s.take(n)) == m.restrict(first_keys(s, n)),
    decreases n,
{
    if n == 0 {
        assert(s.take(0) =~= Seq::<(u64, Seq<char>)>::empty());
        assert(m.restrict(first_keys(s, 0)) =~= Map::empty());
    } else {
        lemma_insert_listing_prefix(s, m, n - 1);
        let prev = m.restrict(first_keys(s, n - 1));
        assert(s.take(n).drop_last() =~= s.take(n - 1));
        assert(s.take(n).last() == s[n - 1]);
        let k = s[n - 1].0;
        let v = s[n - 1].1;
        assert(m.contains_key(k) && m[k] == v);
        assert(!prev.contains_key(k)) by {
            if prev.contains_key(k) {
                let i = choose|i: int| 0 <= i < n - 1 && #[trigger] s[i].0 == k;
                assert(s[i].0 != s[n - 1].0);
            }
        }
        assert(prev.remove(k) =~= prev);
        assert(drop_value(prev, v) =~= prev) by {
            assert forall|j: u64| prev.contains_key(j) implies prev[j] != v by {
                assert(m[j] == prev[j]);
                if m[j] == v {
                    assert(j == k);
                }
            }
        }
        assert forall|j: u64| first_keys(s, n).contains(j) <==> first_keys(s, n - 1).insert(k).contains(j) by {
            if first_keys(s, n).contains(j) {
                let i = choose|i: int| 0 <= i < n && #[trigger] s[i].0 == j;
                if i < n - 1 {
                    assert(first_keys(s, n - 1).contains(j));
                }
            }
            if first_keys(s, n - 1).contains(j) {
                let i = choose|i: int| 0 <= i < n - 1 && #[trigger] s[i].0 == j;
                assert(0 <= i < n && s[i].0 == j);
            }
            if j == k {
                assert(0 <= n - 1 < n && s[n - 1].0 == j);
            }
        }
        assert(m.restrict(first_keys(s, n)) =~= prev.insert(k, v));
    }
}

/// Inserting a whole listing of a one-to-one relation into an empty map
/// gives that relation back.
pub proof fn lemma_insert_listing(s: Seq<(u64, Seq<char>)>, m: Map<u64, Seq<char>>)
    requires
        lists(s, m),
        injective(m),
    ensures
        insert_all(Map::empty(), s) == m,
{
    lemma_insert_listing_prefix(s, m, s.len() as int);
    assert(s.take(s.len() as int) =~= s);
    assert forall|k: u64| m.contains_key(k) implies first_keys(s, s.len() as int).contains(k) by {
        let i = choose|i: int| 0 <= i < s.len() && #[trigger] s[i].0 == k;
    }
    assert(m.restrict(first_keys(s, s.len() as int)) =~= m);
}

/// A one-to-one relation between order ids and delivery ids, searchable in
/// both directions.
pub struct BiMap {
    forward: HashMap<u64, String>,
    backward: StringHashMap<u64>,
}

impl View for BiMap {
    type V = Map<u64, Seq<char>>;

    closed spec fn view(&self) -> Map<u64, Seq<char>> {
        self.forward@.map_values(|s: String| s@)
    }
}

impl BiMap {
    /// The two directions describe the same relation.
    #[verifier::type_invariant]
    spec fn well_formed(&self) -> bool {
        BiMap::directions_agree(self.forward, self.backward)
    }

    /// `forward` and `backward` are inverse to each other.
    spec fn directions_agree(forward: HashMap<u64, String>, backward: StringHashMap<u64>) -> bool {
        &&& forall|k: u64| #[trigger]
            forward@.contains_key(k) ==> {
                &&& backward@.contains_key(forward@[k]@)
                &&& backward@[forward@[k]@] == k
            }
        &&& forall|s: Seq<char>| #[trigger]
            backward@.contains_key(s) ==> {
                &&& forward@.contains_key(backward@[s])
                &&& forward@[backward@[s]]@ == s
            }
    }

    /// A well-formed map never binds two keys to one value.
    proof fn lemma_injective(&self)
        requires
            self.well_formed(),
        ensures
            injective(self@),
            self@.dom().finite(),
    {
        assert forall|i: u64, j: u64|
            #![trigger self@[i], self@[j]]
            self@.contains_key(i) && self@.contains_key(j) && self@[i] == self@[j] implies i == j by {
            assert(self.backward@[self.forward@[i]@] == i);
            assert(self.backward@[self.forward@[j]@] == j);
        }
        assert(self.forward@.dom().finite());
        assert(self@.dom() =~= self.forward@.dom());
    }

    /// Creates an empty map.
    pub fn new() -> (result: Self)
        ensures
            injective(result@),
            result@ == Map::<u64, Seq<char>>::empty(),
    {
        let result = BiMap { forward: HashMap::new(), backward: StringHashMap::new() };
        assert(result@ =~= Map::<u64, Seq<char>>::empty());
        result
    }

    /// Binds `k` to `v`, forgetting any previous value of `k` and any
    /// previous key of `v`.
    pub fn insert(&mut self, k: u64, v: String)
        ensures
            injective(final(self)@),
            final(self)@ == bimap_insert(old(self)@, k, v@),
    {
        let ghost m0 = self@;
        let (mut forward, mut backward) = self.take_directions();
        if let Some(old_v) = forward.get(&k) {
            backward.remove(old_v.as_str());
        }
        let mut old_key: Option<u64> = None;
        if let Some(old_k) = backward.get(v.as_str()) {
            old_key = Some(*old_k);
        }
        if let Some(old_k) = old_key {
            forward.remove(&old_k);
        }
        forward.insert(k, v.clone());
        backward.insert(v, k);
        *self = BiMap { forward, backward };
        proof {
            assert(self@ =~= bimap_insert(m0, k, v@));
            use_type_invariant(&*self);
            self.lemma_injective();
        }
    }

    /// Moves both directions out, leaving the map empty; the directions
    /// taken describe the relation the map held.
    fn take_directions(&mut self) -> (result: (HashMap<u64, String>, StringHashMap<u64>))
        ensures
            final(self)@ == Map::<u64, Seq<char>>::empty(),
            result.0@.map_values(|s: String| s@) == old(self)@,
            BiMap::directions_agree(result.0, result.1),
    {
        proof {
            use_type_invariant(&*self);
        }
        let mut taken = BiMap::new();
        std::mem::swap(self, &mut taken);
        proof {
            use_type_invariant(&taken);
        }
        let BiMap { forward, backward } = taken;
        (forward, backward)
    }

    /// The value bound to `k`, if any.
    pub fn get_by_key(&self, k: &u64) -> (result: Option<&String>)
        ensures
            injective(self@),
            match result {
                Some(v) => self@.contains_key(*k) && self@[*k] == v@,
                None => !self@.contains_key(*k),
            },
    {
        proof {
            use_type_invariant(self);
            self.lemma_injective();
        }
        self.forward.get(k)
    }

    /// The key bound to `v`, if any.
    pub fn get_by_value(&self, v: &String) -> (result: Option<&u64>)
        ensures
            injective(self@),
            match result {
                Some(k) => self@.contains_key(*k) && self@[*k] == v@,
                None => !has_value(self@, v@),
            },
    {
        proof {
            use_type_invariant(self);
            self.lemma_injective();
        }
        let result = self.backward.get(v.as_str());
        proof {
            if has_value(self@, v@) {
                let k = choose|k: u64| self@.contains_key(k) && #[trigger] self@[k] == v@;
                assert(self.forward@.contains_key(k));
            }
        }
        result
    }

    /// Removes the binding of `k`, returning `k` itself when it was bound.
    pub fn remove_by_key(&mut self, k: &u64) -> (result: Option<u64>)
        ensures
            injective(final(self)@),
            final(self)@ == old(self)@.remove(*k),
            result == (if old(self)@.contains_key(*k) { Some(*k) } else { None::<u64> }),
    {
        let ghost m0 = self@;
        let (mut forward, mut backward) = self.take_directions();
        let result = match forward.remove(k) {
            Some(v) => {
                backward.remove(v.as_str());
                Some(*k)
            },
            None => None,
        };
        *self = BiMap { forward, backward };
        proof {
            assert(self@ =~= m0.remove(*k));
            use_type_invariant(&*self);
            self.lemma_injective();
        }
        result
    }

    /// Removes the binding whose value is `v`, if there is one.
    pub fn remove_by_value(&mut self, v: &String)
        ensures
            injective(final(self)@),
            final(self)@ == drop_value(old(self)@, v@),
    {
        let ghost m0 = self@;
        let (mut forward, mut backward) = self.take_directions();
        let mut old_key: Option<u64> = None;
        if let Some(k) = backward.get(v.as_str()) {
            old_key = Some(*k);
        }
        if let Some(k) = old_key {
            backward.remove(v.as_str());
            forward.remove(&k);
        }
        *self = BiMap { forward, backward };
        proof {
            assert(self@ =~= drop_value(m0, v@));
            use_type_invariant(&*self);
            self.lemma_injective();
        }
    }

    /// Whether `k` is bound.
    pub fn contains_key(&self, k: &u64) -> (result: bool)
        ensures
            injective(self@),
            result == self@.contains_key(*k),
    {
        proof {
            use_type_invariant(self);
            self.lemma_injective();
        }
        self.forward.contains_key(k)
    }

    /// Whether some key is bound to `v`.
    pub fn contains_value(&self, v: &String) -> (result: bool)
        ensures
            injective(self@),
            result == has_value(self@, v@),
    {
        proof {
            use_type_invariant(self);
            self.lemma_injective();
        }
        let result = self.backward.contains_key(v.as_str());
        proof {
            if result {
                let k = self.backward@[v@];
                assert(self@.contains_key(k) && self@[k] == v@);
            }
            if has_value(self@, v@) {
                let k = choose|k: u64| self@.contains_key(k) && #[trigger] self@[k] == v@;
                assert(self.forward@.contains_key(k));
            }
        }
        result
    }

    /// Every binding once, in the order in which the hash table holds them.
    pub fn entries(&self) -> (result: Vec<(u64, String)>)
        ensures
            lists(result@.map_values(|p: (u64, String)| (p.0, p.1@)), self@),
    {
        let mut out: Vec<(u64, String)> = Vec::new();
        let ghost raw = spec_hash_map_iter(&self.forward).remaining();
        for pair in it: self.forward.iter()
            invariant
                it.seq() == raw,
                out@.len() == it.index(),
                forall|i: int| 0 <= i < it.index() ==> (#[trigger] out@[i]).0 == *raw[i].0 && out@[i].1 == *raw[i].1,
        {
            out.push((*pair.0, pair.1.clone()));
        }
        proof {
            let s = out@.map_values(|p: (u64, String)| (p.0, p.1@));
            assert(self.forward@.dom().finite());
            assert(self@.dom() =~= self.forward@.dom());
            assert forall|i: int| 0 <= i < s.len() implies self@.contains_key(#[trigger] s[i].0) && self@[s[i].0] == s[i].1 by {
                assert(out@[i].0 == *raw[i].0);
                assert(self.forward@.contains_key(*raw[i].0));
            }
            assert forall|k: u64| #[trigger] self@.contains_key(k) implies exists|i: int| 0 <= i < s.len() && #[trigger] s[i].0 == k by {
                let v = self.forward@[k];
                assert(self.forward@.contains_key(k));
                assert(raw.contains((&k, &self.forward@[k])));
                let i = choose|i: int| 0 <= i < raw.len() && raw[i] == (&k, &v);
                assert(out@[i].0 == k);
                assert(s[i].0 == k);
            }
            assert forall|i: int, j: int| 0 <= i < s.len() && 0 <= j < s.len() && i != j implies #[trigger] s[i].0 != #[trigger] s[j].0 by {
                assert(out@[i].0 == *raw[i].0);
                assert(out@[j].0 == *raw[j].0);
                assert(self.forward@.contains_key(*raw[i].0));
                assert(self.forward@.contains_key(*raw[j].0));
                if s[i].0 == s[j].0 {
                    assert(*raw[i].1 == self.forward@[*raw[i].0]);
                    assert(*raw[j].1 == self.forward@[*raw[j].0]);
                    assert(raw[i] == raw[j]);
                }
            }
        }
        out
    }

    /// Builds the map by inserting the pairs in order, as repeated calls of
    /// [`BiMap::insert`] would.
    pub fn from_entries(entries: Vec<(u64, String)>) -> (result: BiMap)
        ensures
            injective(result@),
            result@ == insert_all(Map::empty(), entries@.map_values(|p: (u64, String)| (p.0, p.1@))),
    {
        let ghost s = entries@.map_values(|p: (u64, String)| (p.0, p.1@));
        let mut result = BiMap::new();
        let mut i: usize = 0;
        let n = entries.len();
        while i < n
            invariant
                n == s.len(),
                i <= n,
                s == entries@.map_values(|p: (u64, String)| (p.0, p.1@)),
                result@ == insert_all(Map::empty(), s.take(i as int)),
            decreases n - i,
        {
            proof {
                assert(s.take(i + 1).drop_last() =~= s.take(i as int));
                assert(s.take(i + 1).last() == s[i as int]);
            }
            result.insert(entries[i].0, entries[i].1.clone());
            i = i + 1;
        }
        proof {
            assert(s.take(n as int) =~= s);
            use_type_invariant(&result);
            result.lemma_injective();
        }
        result
    }

    /// The bound keys, each once, in the order in which the hash table holds them.
    pub fn keys(&self) -> (result: Vec<u64>)
        ensures
            injective(self@),
            result@.len() == self@.dom().len(),
            result@.no_duplicates(),
            result@.to_set() == self@.dom(),
    {
        proof {
            use_type_invariant(self);
            self.lemma_injective();
        }
        let entries = self.entries();
        let ghost s = entries@.map_values(|p: (u64, String)| (p.0, p.1@));
        let mut out: Vec<u64> = Vec::new();
        for i in 0..entries.len()
            invariant
                s == entries@.map_values(|p: (u64, String)| (p.0, p.1@)),
                out@.len() == i,
                forall|j: int| 0 <= j < i ==> #[trigger] out@[j] == s[j].0,
        {
            out.push(entries[i].0);
        }
        proof {
            assert(lists(s, self@));
            assert forall|a: int, b: int| 0 <= a < out@.len() && 0 <= b < out@.len() && a != b implies out@[a] != out@[b] by {
                assert(s[a].0 != s[b].0);
            }
            assert forall|k: u64| out@.to_set().contains(k) <==> self@.dom().contains(k) by {
                if self@.contains_key(k) {
                    let j = choose|j: int| 0 <= j < s.len() && #[trigger] s[j].0 == k;
                    assert(out@[j] == k);
                }
                if out@.to_set().contains(k) {
                    let j = choose|j: int| 0 <= j < out@.len() && out@[j] == k;
                    assert(s[j].0 == k);
                }
            }
        }
        out
    }

    /// The bound values, each once, in the order in which the hash table holds them.
    pub fn values(&self) -> (result: Vec<String>)
        ensures
            injective(self@),
            result@.len() == self@.dom().len(),
            forall|j: int| 0 <= j < result@.len() ==> has_value(self@, (#[trigger] result@[j])@),
            forall|k: u64| #[trigger] self@.contains_key(k) ==> exists|j: int| 0 <= j < result@.len() && (#[trigger] result@[j])@ == self@[k],
            forall|a: int, b: int| 0 <= a < result@.len() && 0 <= b < result@.len() && a != b ==> (#[trigger] result@[a])@ != (#[trigger] result@[b])@,
    {
        proof {
            use_type_invariant(self);
            self.lemma_injective();
        }
        let entries = self.entries();
        let ghost s = entries@.map_values(|p: (u64, String)| (p.0, p.1@));
        let mut out: Vec<String> = Vec::new();
        for i in 0..entries.len()
            invariant
                s == entries@.map_values(|p: (u64, String)| (p.0, p.1@)),
                out@.len() == i,
                forall|j: int| 0 <= j < i ==> (#[trigger] out@[j])@ == s[j].1,
        {
            out.push(entries[i].1.clone());
        }
        proof {
            assert(lists(s, self@));
            self.lemma_injective();
            assert forall|j: int| 0 <= j < out@.len() implies has_value(self@, (#[trigger] out@[j])@) by {
                assert(self@.contains_key(s[j].0) && self@[s[j].0] == out@[j]@);
            }
            assert forall|k: u64| #[trigger] self@.contains_key(k) implies exists|j: int| 0 <= j < out@.len() && (#[trigger] out@[j])@ == self@[k] by {
                let j = choose|j: int| 0 <= j < s.len() && #[trigger] s[j].0 == k;
                assert(out@[j]@ == self@[k]);
            }
            assert forall|a: int, b: int| 0 <= a < out@.len() && 0 <= b < out@.len() && a != b implies (#[trigger] out@[a])@ != (#[trigger] out@[b])@ by {
                assert(s[a].0 != s[b].0);
                assert(self@[s[a].0] == out@[a]@);
                assert(self@[s[b].0] == out@[b]@);
            }
        }
        out
    }
}

impl Clone for BiMap {
    /// Copies the map by inserting its bindings into an empty one.
    fn clone(&self) -> (result: Self)
        ensures
            injective(result@),
            result@ == self@,
    {
        proof {
            use_type_invariant(self);
        }
        let entries = self.entries();
        let result = BiMap::from_entries(entries);
        proof {
            self.lemma_injective();
            lemma_insert_listing(entries@.map_values(|p: (u64, String)| (p.0, p.1@)), self@);
        }
        result
    }
}

impl Default for BiMap {
    /// An empty map.
    fn default() -> (result: Self)
        ensures
            injective(result@),
            result@ == Map::<u64, Seq<char>>::empty(),
    {
        BiMap::new()
    }
}

/// After inserting `k <-> v`, `k` is bound to `v`, `v` belongs to `k` alone,
/// and every other binding survives unless it used `k` or `v`.
pub proof fn lemma_insert_binds_both_ways(m: Map<u64, Seq<char>>, k: u64, v: Seq<char>)
    ensures
        bimap_insert(m, k, v).contains_key(k),
        bimap_insert(m, k, v)[k] == v,
        forall|j: u64| #[trigger] bimap_insert(m, k, v).contains_key(j) && bimap_insert(m, k, v)[j] == v ==> j == k,
        forall|j: u64| j != k ==> (#[trigger] bimap_insert(m, k, v).contains_key(j) <==> m.contains_key(j) && m[j] != v),
        forall|j: u64| j != k && #[trigger] bimap_insert(m, k, v).contains_key(j) ==> bimap_insert(m, k, v)[j] == m[j],
{
}

/// Looking up by key and looking up by value invert each other in a
/// one-to-one relation: `k` is bound to `v` exactly when `v` is bound and
/// `k` is the only key bound to it. So `get_by_key(k)` gives `v` exactly
/// when `get_by_value(v)` gives `k`.
pub proof fn lemma_lookups_invert(m: Map<u64, Seq<char>>, k: u64, v: Seq<char>)
    requires
        injective(m),
    ensures
        (m.contains_key(k) && m[k] == v) <==> (has_value(m, v) && forall|j: u64|
            #[trigger] m.contains_key(j) && m[j] == v ==> j == k),
{
    if m.contains_key(k) && m[k] == v {
        assert(has_value(m, v));
    }
    if has_value(m, v) && forall|j: u64| #[trigger] m.contains_key(j) && m[j] == v ==> j == k {
        let j = choose|j: u64| m.contains_key(j) && #[trigger] m[j] == v;
        assert(m.contains_key(j));
    }
}

/// Inserting keeps a relation one-to-one.
pub proof fn lemma_insert_keeps_injective(m: Map<u64, Seq<char>>, k: u64, v: Seq<char>)
    requires
        injective(m),
    ensures
        injective(bimap_insert(m, k, v)),
{
}

/// Removing a key also frees its value: no key is bound to it afterwards.
pub proof fn lemma_remove_by_key_frees_value(m: Map<u64, Seq<char>>, k: u64)
    requires
        injective(m),
        m.contains_key(k),
    ensures
        !has_value(m.remove(k), m[k]),
{
    if has_value(m.remove(k), m[k]) {
        let j = choose|j: u64| m.remove(k).contains_key(j) && #[trigger] m.remove(k)[j] == m[k];
        assert(m[j] == m[k]);
    }
}

/// Removing by value unbinds the key that held it and nothing else.
pub proof fn lemma_remove_by_value_frees_key(m: Map<u64, Seq<char>>, k: u64)
    requires
        injective(m),
        m.contains_key(k),
    ensures
        drop_value(m, m[k]) == m.remove(k),
{
    assert(drop_value(m, m[k]) =~= m.remove(k));
}

/// Removing `k` undoes the insertion of a fresh pair `k <-> v`.
pub proof fn lemma_remove_undoes_fresh_insert(m: Map<u64, Seq<char>>, k: u64, v: Seq<char>)
    requires
        !m.contains_key(k),
        !has_value(m, v),
    ensures
        bimap_insert(m, k, v).remove(k) == m,
        drop_value(bimap_insert(m, k, v), v) == m,
{
    assert forall|j: u64| m.contains_key(j) implies m[j] != v by {
        if m[j] == v {
            assert(has_value(m, v));
        }
    }
    assert(bimap_insert(m, k, v).remove(k) =~= m);
    assert(drop_value(bimap_insert(m, k, v), v) =~= m);
}

} // verus!
