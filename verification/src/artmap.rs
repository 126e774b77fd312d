//! The artefact map: resolved artefact name → resolved value.
//!
//! Built once per run by the resolver and read-only afterwards. Artefact
//! names are unique, so the map is kept as a vector of entries with distinct
//! names; its view is the mathematical map from name to value.

use vstd::prelude::*;

verus! {

#[derive(Debug)]
struct ArtEntry {
    name: String,
    value: String,
}

/// The mathematical content of a sequence of entries.
spec fn entries_map(s: Seq<ArtEntry>) -> Map<Seq<char>, Seq<char>>
    decreases s.len(),
{
    if s.len() == 0 {
        Map::<Seq<char>, Seq<char>>::empty()
    } else {
        entries_map(s.drop_last()).insert(s.last().name@, s.last().value@)
    }
}

proof fn lemma_entry_in_dom(s: Seq<ArtEntry>, i: int)
    requires
        0 <= i < s.len(),
    ensures
        entries_map(s).dom().contains(s[i].name@),
    decreases s.len(),
{
    if i < s.len() - 1 {
        lemma_entry_in_dom(s.drop_last(), i);
        assert(s.drop_last()[i] == s[i]);
    }
}

proof fn lemma_entry_value(s: Seq<ArtEntry>, i: int)
    requires
        0 <= i < s.len(),
        forall|p: int, q: int| 0 <= p < q < s.len() ==> s[p].name@ != s[q].name@,
    ensures
        entries_map(s)[s[i].name@] == s[i].value@,
    decreases s.len(),
{
    if i == s.len() - 1 {
    } else {
        lemma_entry_value(s.drop_last(), i);
        assert(s.drop_last()[i] == s[i]);
        assert(s.last().name@ != s[i].name@);
    }
}

proof fn lemma_name_absent(s: Seq<ArtEntry>, k: Seq<char>)
    requires
        forall|i: int| 0 <= i < s.len() ==> s[i].name@ != k,
    ensures
        !entries_map(s).dom().contains(k),
    decreases s.len(),
{
    if s.len() > 0 {
        assert forall|i: int| 0 <= i < s.drop_last().len() implies s.drop_last()[i].name@
            != k by {
            assert(s.drop_last()[i] == s[i]);
        }
        lemma_name_absent(s.drop_last(), k);
        assert(s[s.len() - 1].name@ != k);
    }
}

/// The resolved artefact paths of a run: a map from artefact name to either
/// a concrete path, the unavailable sentinel, or an operator-supplied value.
#[derive(Debug)]
pub struct ArtifactMap {
    entries: Vec<ArtEntry>,
}

impl View for ArtifactMap {
    type V = Map<Seq<char>, Seq<char>>;

    closed spec fn view(&self) -> Map<Seq<char>, Seq<char>> {
        entries_map(self.entries@)
    }
}

impl ArtifactMap {
    #[verifier::type_invariant]
    spec fn wf(self) -> bool {
        forall|i: int, j: int|
            0 <= i < j < self.entries@.len() ==> self.entries@[i].name@ != self.entries@[j].name@
    }

    /// An empty map.
    pub fn new() -> (r: Self)
        ensures
            r@ == Map::<Seq<char>, Seq<char>>::empty(),
    {
        ArtifactMap { entries: Vec::new() }
    }

    /// Record the resolution of one artefact. Names are unique per run, so
    /// an entry is only ever added for a name not yet present.
    pub fn insert(&mut self, name: String, value: String)
        requires
            !old(self)@.dom().contains(name@),
        ensures
            final(self)@ == old(self)@.insert(name@, value@),
    {
        proof {
            use_type_invariant(&*self);
            assert forall|i: int| 0 <= i < self.entries@.len() implies self.entries@[i].name@
                != name@ by {
                if self.entries@[i].name@ == name@ {
                    lemma_entry_in_dom(self.entries@, i);
                }
            }
        }
        let mut v: Vec<ArtEntry> = Vec::new();
        core::mem::swap(&mut v, &mut self.entries);
        v.push(ArtEntry { name, value });
        proof {
            assert(v@.drop_last() =~= old(self).entries@);
        }
        core::mem::swap(&mut self.entries, &mut v);
    }

    /// Look up the resolved value of an artefact name.
    pub fn get(&self, name: &String) -> (r: Option<&String>)
        ensures
            match r {
                Some(v) => self@.dom().contains(name@) && v@ == self@[name@],
                None => !self@.dom().contains(name@),
            },
    {
        let n = self.entries.len();
        let mut i: usize = 0;
        while i < n
            invariant
                n == self.entries@.len(),
                i <= n,
                forall|j: int| 0 <= j < i ==> self.entries@[j].name@ != name@,
            decreases n - i,
        {
            if self.entries[i].name == *name {
                proof {
                    use_type_invariant(&*self);
                    lemma_entry_in_dom(self.entries@, i as int);
                    lemma_entry_value(self.entries@, i as int);
                }
                return Some(&self.entries[i].value);
            }
            i += 1;
        }
        proof {
            lemma_name_absent(self.entries@, name@);
        }
        None
    }

    /// Whether the map holds an entry for `name`.
    pub fn contains_key(&self, name: &String) -> (r: bool)
        ensures
            r == self@.dom().contains(name@),
    {
        self.get(name).is_some()
    }
}

} // verus!
