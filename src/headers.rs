//! A set of request headers: names mapped to values, each name at most once.

use vstd::prelude::*;

verus! {

/// The mapping that a list of (name, value) pairs stands for.
pub open spec fn pairs_map(s: Seq<(Seq<char>, Seq<char>)>) -> Map<Seq<char>, Seq<char>>
    decreases s.len(),
{
    if s.len() == 0 {
        Map::empty()
    } else {
        pairs_map(s.drop_last()).insert(s.last().0, s.last().1)
    }
}

/// No name occurs twice in the list.
pub open spec fn names_unique(s: Seq<(Seq<char>, Seq<char>)>) -> bool {
    forall|i: int, j: int| 0 <= i < j < s.len() ==> s[i].0 != s[j].0
}

proof fn lemma_pairs_map_at(s: Seq<(Seq<char>, Seq<char>)>, i: int)
    requires
        names_unique(s),
        0 <= i < s.len(),
    ensures
        pairs_map(s).contains_key(s[i].0),
        pairs_map(s)[s[i].0] == s[i].1,
    decreases s.len(),
{
    if i < s.len() - 1 {
        let t = s.drop_last();
        assert(names_unique(t));
        assert(t[i] == s[i]);
        lemma_pairs_map_at(t, i);
    }
}

proof fn lemma_pairs_map_absent(s: Seq<(Seq<char>, Seq<char>)>, k: Seq<char>)
    requires
        forall|i: int| 0 <= i < s.len() ==> s[i].0 != k,
    ensures
        !pairs_map(s).contains_key(k),
    decreases s.len(),
{
    if s.len() > 0 {
        let t = s.drop_last();
        assert forall|i: int| 0 <= i < t.len() implies t[i].0 != k by {
            assert(t[i] == s[i]);
        }
        lemma_pairs_map_absent(t, k);
    }
}

/// The text of each (name, value) pair of `v`.
pub open spec fn pairs_of(v: Seq<(String, String)>) -> Seq<(Seq<char>, Seq<char>)> {
    v.map_values(|e: (String, String)| (e.0@, e.1@))
}

/// Header names mapped to header values. A name is held at most once; the
/// order of the headers carries no meaning.
pub struct HeaderSet {
    entries: Vec<(String, String)>,
}

impl HeaderSet {
    /// The headers as (name, value) pairs of text, in the order they were added.
    pub closed spec fn pairs(&self) -> Seq<(Seq<char>, Seq<char>)> {
        pairs_of(self.entries@)
    }

    #[verifier::type_invariant]
    spec fn inv(&self) -> bool {
        names_unique(self.pairs())
    }

    /// An empty set of headers.
    pub(crate) fn new() -> (r: HeaderSet)
        ensures
            r@ == Map::<Seq<char>, Seq<char>>::empty(),
    {
        let r = HeaderSet { entries: Vec::new() };
        assert(r.pairs() =~= Seq::<(Seq<char>, Seq<char>)>::empty());
        r
    }

    /// The set with the header `name` added, for a name not held yet.
    pub(crate) fn with(self, name: String, value: String) -> (r: HeaderSet)
        requires
            !self@.contains_key(name@),
        ensures
            r@ == self@.insert(name@, value@),
    {
        proof {
            use_type_invariant(&self);
            let s = self.pairs();
            assert forall|i: int| 0 <= i < s.len() implies s[i].0 != name@ by {
                lemma_pairs_map_at(s, i);
            }
        }
        let ghost before = self.pairs();
        let mut entries = self.entries;
        entries.push((name, value));
        let ghost after = before.push((name@, value@));
        assert(pairs_of(entries@) =~= after);
        assert(after.drop_last() =~= before);
        assert(names_unique(after)) by {
            assert forall|i: int, j: int| 0 <= i < j < after.len() implies after[i].0 != after[j].0 by {
                if j < before.len() {
                    assert(after[i] == before[i] && after[j] == before[j]);
                }
            }
        }
        HeaderSet { entries }
    }

    /// The value of the header `name`, if the set holds it.
    pub fn get(&self, name: &str) -> (r: Option<&String>)
        ensures
            match r {
                Some(v) => self@.contains_key(name@) && self@[name@] == v@,
                None => !self@.contains_key(name@),
            },
    {
        proof {
            use_type_invariant(self);
        }
        let key = name.to_string();
        let mut i: usize = 0;
        while i < self.entries.len()
            invariant
                i <= self.entries@.len(),
                key@ == name@,
                names_unique(self.pairs()),
                forall|j: int| 0 <= j < i ==> self.pairs()[j].0 != name@,
            decreases self.entries@.len() - i,
        {
            if self.entries[i].0 == key {
                proof {
                    lemma_pairs_map_at(self.pairs(), i as int);
                }
                return Some(&self.entries[i].1);
            }
            i = i + 1;
        }
        proof {
            lemma_pairs_map_absent(self.pairs(), name@);
        }
        None
    }
}

impl View for HeaderSet {
    type V = Map<Seq<char>, Seq<char>>;

    /// The headers as a mapping from name to value.
    closed spec fn view(&self) -> Map<Seq<char>, Seq<char>> {
        pairs_map(self.pairs())
    }
}

} // verus!
