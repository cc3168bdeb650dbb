//! A map from parameter names to parameter values, both strings.
use vstd::prelude::*;
use vstd::std_specs::cmp::PartialEqSpecImpl;

verus! {

/// The map that a sequence of key/value pairs describes; a later pair wins
/// over an earlier one with the same key.
pub open spec fn pairs_to_map(pairs: Seq<(Seq<char>, Seq<char>)>) -> Map<Seq<char>, Seq<char>>
    decreases pairs.len(),
{
    if pairs.len() == 0 {
        Map::empty()
    } else {
        pairs_to_map(pairs.drop_last()).insert(pairs.last().0, pairs.last().1)
    }
}

/// No key occurs twice.
pub open spec fn distinct_keys(pairs: Seq<(Seq<char>, Seq<char>)>) -> bool {
    forall|i: int, j: int| 0 <= i < j < pairs.len() ==> #[trigger] pairs[i].0 != #[trigger] pairs[j].0
}

/// The names and values of `entries`, as character sequences.
pub open spec fn pair_views(entries: Seq<(String, String)>) -> Seq<(Seq<char>, Seq<char>)> {
    entries.map_values(|e: (String, String)| (e.0@, e.1@))
}

proof fn lemma_contains_key(pairs: Seq<(Seq<char>, Seq<char>)>, k: Seq<char>)
    ensures
        pairs_to_map(pairs).contains_key(k) <==> exists|i: int| 0 <= i < pairs.len() && pairs[i].0 == k,
    decreases pairs.len(),
{
    if pairs.len() > 0 {
        let shorter = pairs.drop_last();
        lemma_contains_key(shorter, k);
        if pairs_to_map(shorter).contains_key(k) {
            let i = choose|i: int| 0 <= i < shorter.len() && shorter[i].0 == k;
            assert(pairs[i].0 == k);
        }
        if exists|i: int| 0 <= i < pairs.len() && pairs[i].0 == k {
            let i = choose|i: int| 0 <= i < pairs.len() && pairs[i].0 == k;
            if i < pairs.len() - 1 {
                assert(shorter[i].0 == k);
            }
        }
    }
}

proof fn lemma_value_at(pairs: Seq<(Seq<char>, Seq<char>)>, i: int)
    requires
        distinct_keys(pairs),
        0 <= i < pairs.len(),
    ensures
        pairs_to_map(pairs).contains_key(pairs[i].0),
        pairs_to_map(pairs)[pairs[i].0] == pairs[i].1,
    decreases pairs.len(),
{
    let shorter = pairs.drop_last();
    if i < pairs.len() - 1 {
        assert(distinct_keys(shorter)) by {
            assert forall|a: int, b: int| 0 <= a < b < shorter.len() implies #[trigger] shorter[a].0
                != #[trigger] shorter[b].0 by {
                assert(shorter[a] == pairs[a] && shorter[b] == pairs[b]);
            }
        }
        lemma_value_at(shorter, i);
        assert(shorter[i] == pairs[i]);
        assert(pairs[i].0 != pairs[pairs.len() - 1].0);
    }
}

proof fn lemma_update_value(pairs: Seq<(Seq<char>, Seq<char>)>, j: int, v: Seq<char>)
    requires
        0 <= j < pairs.len(),
        distinct_keys(pairs),
    ensures
        pairs_to_map(pairs.update(j, (pairs[j].0, v))) == pairs_to_map(pairs).insert(pairs[j].0, v),
        distinct_keys(pairs.update(j, (pairs[j].0, v))),
    decreases pairs.len(),
{
    let k = pairs[j].0;
    let updated = pairs.update(j, (k, v));
    let shorter = pairs.drop_last();
    assert(distinct_keys(shorter)) by {
        assert forall|a: int, b: int| 0 <= a < b < shorter.len() implies #[trigger] shorter[a].0
            != #[trigger] shorter[b].0 by {
            assert(shorter[a] == pairs[a] && shorter[b] == pairs[b]);
        }
    }
    assert(distinct_keys(updated)) by {
        assert forall|a: int, b: int| 0 <= a < b < updated.len() implies #[trigger] updated[a].0
            != #[trigger] updated[b].0 by {
            assert(updated[a].0 == pairs[a].0 && updated[b].0 == pairs[b].0);
        }
    }
    if j == pairs.len() - 1 {
        assert(updated.drop_last() =~= shorter);
        assert(pairs_to_map(updated) =~= pairs_to_map(pairs).insert(k, v));
    } else {
        lemma_update_value(shorter, j, v);
        assert(updated.drop_last() =~= shorter.update(j, (k, v)));
        assert(pairs.last().0 != k);
        assert(pairs_to_map(updated) =~= pairs_to_map(pairs).insert(k, v));
    }
}

/// Reading a parameter just set gives the value set; setting a parameter
/// leaves every other name as it was, present or absent, with its value.
pub proof fn lemma_read_after_write(
    before: Map<Seq<char>, Seq<char>>,
    key: Seq<char>,
    value: Seq<char>,
    other: Seq<char>,
)
    ensures
        before.insert(key, value).contains_key(key),
        before.insert(key, value)[key] == value,
        other != key ==> (before.insert(key, value).contains_key(other) <==> before.contains_key(other)),
        other != key && before.contains_key(other) ==> before.insert(key, value)[other] == before[other],
{
}

/// Named string parameters of a filter; each name has one value. Two sets of
/// parameters are equal when they map the same names to the same values.
#[derive(Debug)]
pub struct FilterParameters {
    entries: Vec<(String, String)>,
}

impl FilterParameters {
    /// The map from names to values.
    pub closed spec fn as_map(&self) -> Map<Seq<char>, Seq<char>> {
        pairs_to_map(pair_views(self.entries@))
    }

    #[verifier::type_invariant]
    closed spec fn well_formed(&self) -> bool {
        distinct_keys(pair_views(self.entries@))
    }

    /// No parameter.
    pub fn new() -> (p: FilterParameters)
        ensures
            p@ == Map::<Seq<char>, Seq<char>>::empty(),
    {
        let p = FilterParameters { entries: Vec::new() };
        assert(pair_views(p.entries@) =~= Seq::empty());
        p
    }

    /// The index of the entry named `key`, if any.
    fn position(&self, key: &String) -> (r: Option<usize>)
        ensures
            match r {
                Some(i) => i < self.entries@.len() && self.entries@[i as int].0@ == key@,
                None => !self@.contains_key(key@),
            },
    {
        let ghost pairs = pair_views(self.entries@);
        let mut i: usize = 0;
        while i < self.entries.len()
            invariant
                i <= self.entries.len(),
                pairs == pair_views(self.entries@),
                forall|m: int| 0 <= m < i ==> pairs[m].0 != key@,
            decreases self.entries.len() - i,
        {
            if self.entries[i].0 == *key {
                return Some(i);
            }
            assert(pairs[i as int].0 == self.entries@[i as int].0@);
            i = i + 1;
        }
        proof {
            lemma_contains_key(pairs, key@);
        }
        None
    }

    /// Whether a parameter is named `key`.
    pub fn contains_key(&self, key: &str) -> (b: bool)
        ensures
            b == self@.contains_key(key@),
    {
        let key = key.to_owned();
        match self.position(&key) {
            Some(i) => {
                proof {
                    use_type_invariant(self);
                    lemma_value_at(pair_views(self.entries@), i as int);
                }
                true
            },
            None => false,
        }
    }

    /// The value of the parameter named `key`.
    pub fn get(&self, key: &str) -> (r: Option<&String>)
        ensures
            r is Some <==> self@.contains_key(key@),
            r matches Some(v) ==> v@ == self@[key@],
    {
        let key = key.to_owned();
        match self.position(&key) {
            Some(i) => {
                proof {
                    use_type_invariant(self);
                    lemma_value_at(pair_views(self.entries@), i as int);
                }
                Some(&self.entries[i].1)
            },
            None => None,
        }
    }

    /// Sets the parameter `key` to `value`, replacing any earlier value.
    pub fn insert(&mut self, key: String, value: String)
        ensures
            final(self)@ == old(self)@.insert(key@, value@),
    {
        proof {
            use_type_invariant(&*self);
        }
        let found = self.position(&key);
        let mut entries: Vec<(String, String)> = Vec::new();
        std::mem::swap(&mut entries, &mut self.entries);
        let ghost pairs = pair_views(entries@);
        match found {
            Some(i) => {
                let ghost k = pairs[i as int].0;
                entries.set(i, (key, value));
                proof {
                    lemma_update_value(pairs, i as int, value@);
                    assert(pair_views(entries@) =~= pairs.update(i as int, (k, value@)));
                }
            },
            None => {
                entries.push((key, value));
                proof {
                    assert(pair_views(entries@).drop_last() =~= pairs);
                    assert forall|a: int, b: int|
                        0 <= a < b < pair_views(entries@).len() implies #[trigger] pair_views(
                        entries@,
                    )[a].0 != #[trigger] pair_views(entries@)[b].0 by {
                        if b == pairs.len() {
                            lemma_contains_key(pairs, key@);
                            assert(pairs[a].0 == pair_views(entries@)[a].0);
                        } else {
                            assert(pairs[a].0 == pair_views(entries@)[a].0);
                            assert(pairs[b].0 == pair_views(entries@)[b].0);
                        }
                    }
                }
            },
        }
        self.entries = entries;
    }

    /// Whether every parameter of `self` is in `other` with the same value.
    pub fn is_included_in(&self, other: &FilterParameters) -> (b: bool)
        ensures
            b == self@.submap_of(other@),
    {
        proof {
            use_type_invariant(self);
        }
        let ghost pairs = pair_views(self.entries@);
        let mut i: usize = 0;
        while i < self.entries.len()
            invariant
                i <= self.entries.len(),
                pairs == pair_views(self.entries@),
                distinct_keys(pairs),
                forall|m: int| 0 <= m < i ==> other@.contains_key(#[trigger] pairs[m].0) && other@[pairs[m].0] == pairs[m].1,
            decreases self.entries.len() - i,
        {
            let key = self.entries[i].0.as_str();
            assert(pairs[i as int] == (self.entries@[i as int].0@, self.entries@[i as int].1@));
            match other.get(key) {
                Some(value) => {
                    if *value != self.entries[i].1 {
                        proof {
                            lemma_value_at(pairs, i as int);
                        }
                        return false;
                    }
                },
                None => {
                    proof {
                        lemma_value_at(pairs, i as int);
                    }
                    return false;
                },
            }
            i = i + 1;
        }
        assert forall|k: Seq<char>| #[trigger] self@.contains_key(k) implies other@.contains_key(k) && other@[k] == self@[k] by {
            lemma_contains_key(pairs, k);
            let m = choose|m: int| 0 <= m < pairs.len() && pairs[m].0 == k;
            lemma_value_at(pairs, m);
        }
        true
    }

    /// Every parameter once, as a name and a value.
    pub fn entries(&self) -> (r: &Vec<(String, String)>)
        ensures
            pairs_to_map(pair_views(r@)) == self@,
            distinct_keys(pair_views(r@)),
    {
        proof {
            use_type_invariant(self);
        }
        &self.entries
    }
}

impl Clone for FilterParameters {
    fn clone(&self) -> (r: FilterParameters)
        ensures
            r@ == self@,
    {
        proof {
            use_type_invariant(self);
        }
        let mut entries: Vec<(String, String)> = Vec::new();
        let mut i: usize = 0;
        while i < self.entries.len()
            invariant
                i <= self.entries.len(),
                entries@.len() == i,
                forall|m: int| 0 <= m < i ==> entries@[m] == self.entries@[m],
            decreases self.entries.len() - i,
        {
            let key = self.entries[i].0.clone();
            let value = self.entries[i].1.clone();
            entries.push((key, value));
            i = i + 1;
        }
        assert(entries@ =~= self.entries@);
        FilterParameters { entries }
    }
}

impl PartialEq for FilterParameters {
    fn eq(&self, other: &FilterParameters) -> (r: bool) {
        let r = self.is_included_in(other) && other.is_included_in(self);
        proof {
            if r {
                assert(self@.dom() =~= other@.dom());
                assert(self@ =~= other@);
            }
        }
        r
    }
}

impl PartialEqSpecImpl for FilterParameters {
    open spec fn obeys_eq_spec() -> bool {
        true
    }

    open spec fn eq_spec(&self, other: &FilterParameters) -> bool {
        self@ == other@
    }
}

impl View for FilterParameters {
    type V = Map<Seq<char>, Seq<char>>;

    open spec fn view(&self) -> Map<Seq<char>, Seq<char>> {
        self.as_map()
    }
}

} // verus!
