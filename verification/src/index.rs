//! An index from function names to their definition sites.

use vstd::prelude::*;
use crate::types::{FnDefinition, FnDefinitionView};

verus! {

/// Function names, each with the definitions found under it, in the order found.
///
/// Names are kept in the order they were first added; every listed name has at least
/// one definition.
pub struct DefinitionIndex {
    names: Vec<String>,
    defs: Vec<Vec<FnDefinition>>,
}

/// The definitions listed under `name` in a flat list of (name, definition) pairs, in order.
pub open spec fn grouped(pairs: Seq<(Seq<char>, FnDefinitionView)>, name: Seq<char>) -> Seq<FnDefinitionView>
    decreases pairs.len(),
{
    if pairs.len() == 0 {
        Seq::empty()
    } else {
        let rest = grouped(pairs.drop_last(), name);
        if pairs.last().0 == name {
            rest.push(pairs.last().1)
        } else {
            rest
        }
    }
}

/// The names of a flat list of pairs, each once, in order of first appearance.
pub open spec fn first_appearances(pairs: Seq<(Seq<char>, FnDefinitionView)>) -> Seq<Seq<char>>
    decreases pairs.len(),
{
    if pairs.len() == 0 {
        Seq::empty()
    } else {
        let rest = first_appearances(pairs.drop_last());
        if rest.contains(pairs.last().0) {
            rest
        } else {
            rest.push(pairs.last().0)
        }
    }
}

/// The view of a list of (name, definition) pairs.
pub open spec fn pairs_view(pairs: Seq<(String, FnDefinition)>) -> Seq<(Seq<char>, FnDefinitionView)> {
    pairs.map_values(|p: (String, FnDefinition)| (p.0@, p.1@))
}

impl DefinitionIndex {
    /// The names, in order of first addition.
    pub closed spec fn names(&self) -> Seq<Seq<char>> {
        self.names.deep_view()
    }

    /// The definitions listed under the `i`-th name.
    pub closed spec fn defs_at(&self, i: int) -> Seq<FnDefinitionView> {
        self.defs.deep_view()[i]
    }

    /// The names are distinct, each with a non-empty list of definitions.
    pub closed spec fn wf(&self) -> bool {
        &&& self.names.len() == self.defs.len()
        &&& self.names.deep_view().no_duplicates()
        &&& forall|i: int| 0 <= i < self.defs.len() ==> #[trigger] self.defs[i].len() > 0
    }

    /// The definitions recorded under `name`, if any.
    pub open spec fn lookup(&self, name: Seq<char>) -> Option<Seq<FnDefinitionView>> {
        if self.names().contains(name) {
            Some(self.defs_at(self.names().index_of(name)))
        } else {
            None
        }
    }

    /// An index with no names.
    pub fn new() -> (r: DefinitionIndex)
        ensures
            r.wf(),
            r.names() == Seq::<Seq<char>>::empty(),
    {
        let r = DefinitionIndex { names: Vec::new(), defs: Vec::new() };
        proof {
            assert(r.names.deep_view() =~= Seq::<Seq<char>>::empty());
        }
        r
    }

    /// Number of distinct names.
    pub fn len(&self) -> (n: usize)
        requires
            self.wf(),
        ensures
            n == self.names().len(),
    {
        self.names.len()
    }

    /// Position of `name` among the names, if present.
    fn position(&self, name: &str) -> (r: Option<usize>)
        requires
            self.wf(),
        ensures
            r matches Some(i) ==> i < self.names().len() && self.names()[i as int] == name@,
            r is None ==> !self.names().contains(name@),
    {
        let mut i: usize = 0;
        while i < self.names.len()
            invariant
                i <= self.names.len(),
                self.names.len() == self.defs.len(),
                forall|k: int| 0 <= k < i ==> self.names.deep_view()[k] != name@,
            decreases self.names.len() - i,
        {
            if crate::text::str_eq(self.names[i].as_str(), name) {
                return Some(i);
            }
            i = i + 1;
        }
        None
    }

    proof fn lemma_index_of(&self, i: int)
        requires
            self.wf(),
            0 <= i < self.names().len(),
        ensures
            self.names().index_of(self.names()[i]) == i,
            self.lookup(self.names()[i]) == Some(self.defs_at(i)),
    {
        let s = self.names();
        assert(s.contains(s[i]));
        let j = s.index_of(s[i]);
        assert(s[j] == s[i]);
    }

    /// The names of a well-formed index are distinct.
    pub proof fn lemma_names_distinct(&self)
        requires
            self.wf(),
        ensures
            self.names().no_duplicates(),
    {
    }

    /// A copy of the definitions `defs`.
    fn copy_definitions(defs: &Vec<FnDefinition>) -> (r: Vec<FnDefinition>)
        ensures
            r.deep_view() == defs.deep_view(),
    {
        let mut r: Vec<FnDefinition> = Vec::new();
        let mut j: usize = 0;
        while j < defs.len()
            invariant
                j <= defs.len(),
                r.deep_view() == defs.deep_view().take(j as int),
            decreases defs.len() - j,
        {
            let ghost prev = r.deep_view();
            r.push(defs[j].duplicate());
            proof {
                assert(r.deep_view() =~= prev.push(defs[j as int]@));
                assert(defs.deep_view().take(j + 1) =~= defs.deep_view().take(j as int).push(defs[j as int]@));
            }
            j = j + 1;
        }
        proof {
            assert(defs.deep_view().take(defs.len() as int) =~= defs.deep_view());
        }
        r
    }

    /// A copy of the index, with the same names and the same definitions under each.
    pub fn duplicate(&self) -> (r: DefinitionIndex)
        requires
            self.wf(),
        ensures
            r.wf(),
            r.names() == self.names(),
            forall|name: Seq<char>| #[trigger] r.lookup(name) == self.lookup(name),
    {
        let mut names: Vec<String> = Vec::new();
        let mut defs: Vec<Vec<FnDefinition>> = Vec::new();
        let mut i: usize = 0;
        while i < self.names.len()
            invariant
                i <= self.names.len(),
                self.wf(),
                names.len() == i,
                defs.len() == i,
                names.deep_view() == self.names.deep_view().take(i as int),
                defs.deep_view() == self.defs.deep_view().take(i as int),
                forall|k: int| 0 <= k < i ==> #[trigger] defs[k].len() > 0,
            decreases self.names.len() - i,
        {
            let ghost pn = names.deep_view();
            let ghost pd = defs.deep_view();
            let ghost old_defs = defs@;
            names.push(self.names[i].clone());
            let copied = DefinitionIndex::copy_definitions(&self.defs[i]);
            proof {
                assert(self.defs[i as int].len() > 0);
                assert(copied.deep_view().len() == self.defs[i as int].deep_view().len());
            }
            defs.push(copied);
            proof {
                assert forall|k: int| 0 <= k < i + 1 implies #[trigger] defs[k].len() > 0 by {
                    if k < i {
                        assert(defs[k] == old_defs[k]);
                    }
                }
            }
            proof {
                assert(names.deep_view() =~= pn.push(self.names[i as int]@));
                assert(self.names.deep_view().take(i + 1) =~= self.names.deep_view().take(i as int).push(
                    self.names[i as int]@,
                ));
                assert(defs.deep_view() =~= pd.push(self.defs[i as int].deep_view()));
                assert(self.defs.deep_view().take(i + 1) =~= self.defs.deep_view().take(i as int).push(
                    self.defs[i as int].deep_view(),
                ));
                assert(defs[i as int].deep_view().len() == self.defs[i as int].deep_view().len());
            }
            i = i + 1;
        }
        proof {
            assert(self.names.deep_view().take(i as int) =~= self.names.deep_view());
            assert(self.defs.deep_view().take(i as int) =~= self.defs.deep_view());
        }
        DefinitionIndex { names, defs }
    }

    /// The definitions recorded under `name`, if any.
    pub fn get(&self, name: &str) -> (r: Option<&Vec<FnDefinition>>)
        requires
            self.wf(),
        ensures
            r matches Some(v) ==> self.lookup(name@) == Some(v.deep_view()),
            r is None ==> self.lookup(name@) is None,
    {
        match self.position(name) {
            Some(i) => {
                proof {
                    self.lemma_index_of(i as int);
                }
                Some(&self.defs[i])
            },
            None => None,
        }
    }

    /// The names, in order of first addition.
    pub fn keys(&self) -> (r: Vec<String>)
        requires
            self.wf(),
        ensures
            r.deep_view() == self.names(),
            r.deep_view().no_duplicates(),
    {
        let mut r: Vec<String> = Vec::new();
        let mut i: usize = 0;
        while i < self.names.len()
            invariant
                i <= self.names.len(),
                r@.len() == i,
                forall|k: int| 0 <= k < i ==> #[trigger] r@[k]@ == self.names@[k]@,
            decreases self.names.len() - i,
        {
            r.push(self.names[i].clone());
            i = i + 1;
        }
        proof {
            assert(r.deep_view() =~= self.names.deep_view());
        }
        r
    }

    /// Records `def` under `name`, after the definitions already there.
    pub fn insert(&mut self, name: String, def: FnDefinition)
        requires
            old(self).wf(),
        ensures
            final(self).wf(),
            old(self).names().contains(name@) ==> final(self).names() == old(self).names(),
            !old(self).names().contains(name@) ==> final(self).names() == old(self).names().push(name@),
            final(self).lookup(name@) == Some(
                match old(self).lookup(name@) {
                    Some(v) => v,
                    None => Seq::empty(),
                }.push(def@),
            ),
            forall|other: Seq<char>|
                other != name@ ==> #[trigger] final(self).lookup(other) == old(self).lookup(other),
    {
        let ghost old_self = *self;
        match self.position(name.as_str()) {
            Some(i) => {
                proof {
                    old_self.lemma_index_of(i as int);
                }
                let mut list = self.defs.remove(i);
                let ghost before = list.deep_view();
                list.push(def);
                let ghost after = list.deep_view();
                proof {
                    assert(after =~= before.push(def@));
                    assert(before == old_self.defs_at(i as int));
                }
                self.defs.insert(i, list);
                proof {
                    assert forall|k: int| 0 <= k < self.defs.len() implies #[trigger] self.defs.deep_view()[k]
                        == old_self.defs.deep_view().update(i as int, old_self.defs_at(i as int).push(def@))[k] by {
                        if k != i {
                            assert(self.defs@[k] == old_self.defs@[k]);
                        }
                    }
                    assert(self.names() == old_self.names());
                    assert(self.defs.deep_view() =~= old_self.defs.deep_view().update(
                        i as int,
                        old_self.defs_at(i as int).push(def@),
                    ));
                    assert forall|k: int| 0 <= k < self.defs.len() implies #[trigger] self.defs[k].len()
                        > 0 by {
                        if k != i {
                            assert(self.defs[k] == old_self.defs[k]);
                        }
                    }
                    self.lemma_index_of(i as int);
                    assert forall|other: Seq<char>| other != name@ implies #[trigger] self.lookup(other)
                        == old_self.lookup(other) by {
                        if self.names().contains(other) {
                            let k = self.names().index_of(other);
                            old_self.lemma_index_of(k);
                            self.lemma_index_of(k);
                        }
                    }
                }
            },
            None => {
                let mut list: Vec<FnDefinition> = Vec::new();
                list.push(def);
                self.names.push(name);
                self.defs.push(list);
                proof {
                    let n = old_self.names().len() as int;
                    assert(self.names() =~= old_self.names().push(name@));
                    assert forall|k: int| 0 <= k < self.defs.len() implies #[trigger] self.defs.deep_view()[k]
                        == old_self.defs.deep_view().push(seq![def@])[k] by {
                        if k < n {
                            assert(self.defs@[k] == old_self.defs@[k]);
                        } else {
                            assert(self.defs@[k].deep_view() =~= seq![def@]);
                        }
                    }
                    assert(self.defs.deep_view() =~= old_self.defs.deep_view().push(seq![def@]));
                    assert(self.names().no_duplicates()) by {
                        assert forall|a: int, b: int| 0 <= a < b < self.names().len() implies self.names()[a]
                            != self.names()[b] by {
                            if b == n {
                                assert(old_self.names().contains(self.names()[a]));
                            }
                        }
                    }
                    assert forall|k: int| 0 <= k < self.defs.len() implies #[trigger] self.defs[k].len()
                        > 0 by {
                        if k < n {
                            assert(self.defs[k] == old_self.defs[k]);
                        }
                    }
                    assert(self.names()[n] == name@);
                    self.lemma_index_of(n);
                    assert(self.defs_at(n) =~= Seq::<FnDefinitionView>::empty().push(def@));
                    assert forall|other: Seq<char>| other != name@ implies #[trigger] self.lookup(other)
                        == old_self.lookup(other) by {
                        if old_self.names().contains(other) {
                            let k = old_self.names().index_of(other);
                            old_self.lemma_index_of(k);
                            assert(self.names()[k] == other);
                            self.lemma_index_of(k);
                        }
                        if self.names().contains(other) {
                            let k = self.names().index_of(other);
                            assert(self.names()[k] == other);
                            assert(k < n);
                            assert(old_self.names()[k] == other);
                        }
                    }
                }
            },
        }
    }

    /// Groups (name, definition) pairs: under each name, the definitions paired with it,
    /// in the order given; names in order of first appearance.
    pub fn from_pairs(pairs: Vec<(String, FnDefinition)>) -> (r: DefinitionIndex)
        ensures
            r.wf(),
            r.names() == first_appearances(pairs_view(pairs@)),
            forall|name: Seq<char>|
                #[trigger] r.lookup(name) == if grouped(pairs_view(pairs@), name).len() == 0 {
                    None
                } else {
                    Some(grouped(pairs_view(pairs@), name))
                },
    {
        let ghost pv = pairs_view(pairs@);
        let mut r = DefinitionIndex::new();
        let mut i: usize = 0;
        proof {
            assert(pv.take(0) =~= Seq::empty());
            assert(first_appearances(pv.take(0)) == Seq::<Seq<char>>::empty());
        }
        while i < pairs.len()
            invariant
                r.wf(),
                i <= pairs.len(),
                pv == pairs_view(pairs@),
                r.names() == first_appearances(pv.take(i as int)),
                forall|name: Seq<char>|
                    #[trigger] r.lookup(name) == if grouped(pv.take(i as int), name).len() == 0 {
                        None
                    } else {
                        Some(grouped(pv.take(i as int), name))
                    },
            decreases pairs.len() - i,
        {
            let ghost old_r = r;
            let name = pairs[i].0.clone();
            let def = pairs[i].1.duplicate();
            proof {
                assert((name@, def@) == pv[i as int]);
                assert(pv.take(i + 1).drop_last() =~= pv.take(i as int));
                assert(pv.take(i + 1).last() == pv[i as int]);
                lemma_grouped_nonempty_iff_named(pv.take(i as int), name@);
            }
            r.insert(name, def);
            proof {
                assert forall|n: Seq<char>| #[trigger] r.lookup(n) == if grouped(pv.take(i + 1), n).len() == 0 {
                    None
                } else {
                    Some(grouped(pv.take(i + 1), n))
                } by {
                    if n != name@ {
                        assert(r.lookup(n) == old_r.lookup(n));
                    }
                }
            }
            i = i + 1;
        }
        proof {
            assert(pv.take(pairs.len() as int) =~= pv);
        }
        r
    }
}

proof fn lemma_grouped_nonempty_iff_named(pairs: Seq<(Seq<char>, FnDefinitionView)>, name: Seq<char>)
    ensures
        grouped(pairs, name).len() > 0 <==> first_appearances(pairs).contains(name),
    decreases pairs.len(),
{
    if pairs.len() > 0 {
        lemma_grouped_nonempty_iff_named(pairs.drop_last(), name);
        let rest = first_appearances(pairs.drop_last());
        if !rest.contains(pairs.last().0) {
            if rest.push(pairs.last().0).contains(name) && name != pairs.last().0 {
                let k = choose|k: int| 0 <= k < rest.len() + 1 && rest.push(pairs.last().0)[k] == name;
                assert(rest[k] == name);
            }
            if rest.contains(name) {
                let k = choose|k: int| 0 <= k < rest.len() && rest[k] == name;
                assert(rest.push(pairs.last().0)[k] == name);
            }
            assert(rest.push(pairs.last().0)[rest.len() as int] == pairs.last().0);
        }
    }
}

/// Law: a name is listed by the grouping exactly when some pair carries it.
pub proof fn lemma_grouping_lists_exactly_the_named(pairs: Seq<(Seq<char>, FnDefinitionView)>, name: Seq<char>)
    ensures
        first_appearances(pairs).contains(name) <==> exists|i: int| 0 <= i < pairs.len() && #[trigger] pairs[i].0 == name,
        first_appearances(pairs).no_duplicates(),
    decreases pairs.len(),
{
    if pairs.len() > 0 {
        let init = pairs.drop_last();
        lemma_grouping_lists_exactly_the_named(init, name);
        lemma_grouping_lists_exactly_the_named(init, pairs.last().0);
        let rest = first_appearances(init);
        if exists|i: int| 0 <= i < pairs.len() && #[trigger] pairs[i].0 == name {
            let i = choose|i: int| 0 <= i < pairs.len() && #[trigger] pairs[i].0 == name;
            if i < init.len() {
                assert(init[i].0 == name);
            }
        }
        if exists|i: int| 0 <= i < init.len() && #[trigger] init[i].0 == name {
            let i = choose|i: int| 0 <= i < init.len() && #[trigger] init[i].0 == name;
            assert(pairs[i].0 == name);
        }
        if exists|i: int| 0 <= i < init.len() && #[trigger] init[i].0 == pairs.last().0 {
            let i = choose|i: int| 0 <= i < init.len() && #[trigger] init[i].0 == pairs.last().0;
            assert(pairs[i].0 == pairs.last().0);
        }
        if !rest.contains(pairs.last().0) {
            let s = rest.push(pairs.last().0);
            assert(s[rest.len() as int] == pairs.last().0);
            if s.contains(name) && name != pairs.last().0 {
                let k = choose|k: int| 0 <= k < s.len() && s[k] == name;
                assert(rest[k] == name);
            }
            if rest.contains(name) {
                let k = choose|k: int| 0 <= k < rest.len() && rest[k] == name;
                assert(s[k] == name);
            }
            assert(s.no_duplicates()) by {
                assert forall|a: int, b: int| 0 <= a < b < s.len() implies s[a] != s[b] by {
                    if b == rest.len() {
                        assert(rest.contains(s[a]));
                    }
                }
            }
        }
    }
}

} // verus!
