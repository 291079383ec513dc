//! The entries of a routing answer, by the names of their tables.

use crate::meta_client::types::RouteEntry;
use vstd::prelude::*;

verus! {

/// The entries of a routing answer. There is at most one for each name.
#[derive(Debug)]
pub struct RouteEntries {
    pairs: Vec<(String, RouteEntry)>,
}

/// The last entry for each of the names.
spec fn entries_by_name(pairs: Seq<(String, RouteEntry)>) -> Map<Seq<char>, RouteEntry>
    decreases pairs.len(),
{
    if pairs.len() == 0 {
        Map::empty()
    } else {
        entries_by_name(pairs.drop_last()).insert(pairs.last().0@, pairs.last().1)
    }
}

/// No name occurs twice.
pub open spec fn names_differ(pairs: Seq<(String, RouteEntry)>) -> bool {
    forall|i: int, j: int|
        0 <= i < j < pairs.len() ==> (#[trigger] pairs[i]).0@ != (#[trigger] pairs[j]).0@
}

/// The entries by name are those of the pairs.
proof fn lemma_entries_by_name(pairs: Seq<(String, RouteEntry)>)
    requires
        names_differ(pairs),
    ensures
        entries_by_name(pairs).dom().finite(),
        entries_by_name(pairs).len() == pairs.len(),
        forall|i: int|
            0 <= i < pairs.len() ==> entries_by_name(pairs).contains_key(
                (#[trigger] pairs[i]).0@,
            ) && entries_by_name(pairs)[pairs[i].0@] == pairs[i].1,
        forall|name: Seq<char>| #[trigger]
            entries_by_name(pairs).contains_key(name) ==> exists|i: int|
                0 <= i < pairs.len() && (#[trigger] pairs[i]).0@ == name,
    decreases pairs.len(),
{
    if pairs.len() > 0 {
        let init = pairs.drop_last();
        lemma_entries_by_name(init);
        assert forall|i: int| 0 <= i < pairs.len() implies entries_by_name(pairs).contains_key(
            (#[trigger] pairs[i]).0@,
        ) && entries_by_name(pairs)[pairs[i].0@] == pairs[i].1 by {
            if i < init.len() {
                assert(pairs[i] == init[i]);
            }
        }
        assert forall|name: Seq<char>| #[trigger]
            entries_by_name(pairs).contains_key(name) implies exists|i: int|
            0 <= i < pairs.len() && (#[trigger] pairs[i]).0@ == name by {
            if entries_by_name(init).contains_key(name) {
                let i = choose|i: int| 0 <= i < init.len() && (#[trigger] init[i]).0@ == name;
                assert(pairs[i].0@ == name);
            } else {
                assert(pairs[pairs.len() - 1].0@ == name);
            }
        }
        assert(!entries_by_name(init).contains_key(pairs.last().0@)) by {
            if entries_by_name(init).contains_key(pairs.last().0@) {
                let i = choose|i: int|
                    0 <= i < init.len() && (#[trigger] init[i]).0@ == pairs.last().0@;
                assert(pairs[i].0@ == pairs[pairs.len() - 1].0@);
            }
        }
    }
}

/// Another entry in the place of one with the same name takes over that name.
proof fn lemma_entry_is_replaced(
    pairs: Seq<(String, RouteEntry)>,
    n: int,
    pair: (String, RouteEntry),
)
    requires
        names_differ(pairs),
        0 <= n < pairs.len(),
        pairs[n].0@ == pair.0@,
    ensures
        entries_by_name(pairs.update(n, pair)) == entries_by_name(pairs).insert(pair.0@, pair.1),
    decreases pairs.len(),
{
    let init = pairs.drop_last();
    if n == init.len() {
        assert(pairs.update(n, pair).drop_last() =~= init);
    } else {
        assert(pairs.update(n, pair).drop_last() =~= init.update(n, pair));
        assert(pairs[n].0@ != pairs[pairs.len() - 1].0@);
        lemma_entry_is_replaced(init, n, pair);
    }
    assert(entries_by_name(pairs.update(n, pair)) =~= entries_by_name(pairs).insert(
        pair.0@,
        pair.1,
    ));
}

impl View for RouteEntries {
    type V = Map<Seq<char>, RouteEntry>;

    closed spec fn view(&self) -> Map<Seq<char>, RouteEntry> {
        entries_by_name(self.pairs@)
    }
}

impl RouteEntries {
    #[verifier::type_invariant]
    spec fn wf(self) -> bool {
        names_differ(self.pairs@)
    }

    /// No entry, with room for `capacity` of them.
    pub fn with_capacity(capacity: usize) -> (entries: Self)
        ensures
            entries@ == Map::<Seq<char>, RouteEntry>::empty(),
    {
        RouteEntries { pairs: Vec::with_capacity(capacity) }
    }

    /// How many entries there are.
    pub fn len(&self) -> (n: usize)
        ensures
            n == self@.len(),
    {
        proof {
            use_type_invariant(self);
            lemma_entries_by_name(self.pairs@);
        }
        self.pairs.len()
    }

    /// All entries with their names, each once.
    pub fn as_slice(&self) -> (pairs: &[(String, RouteEntry)])
        ensures
            pairs@.len() == self@.len(),
            names_differ(pairs@),
            forall|i: int|
                0 <= i < pairs@.len() ==> self@.contains_key((#[trigger] pairs@[i]).0@)
                    && self@[pairs@[i].0@] == pairs@[i].1,
            forall|name: Seq<char>| #[trigger]
                self@.contains_key(name) ==> exists|i: int|
                    0 <= i < pairs@.len() && (#[trigger] pairs@[i]).0@ == name,
    {
        proof {
            use_type_invariant(self);
            lemma_entries_by_name(self.pairs@);
        }
        self.pairs.as_slice()
    }

    /// Where the entry for `name` stands.
    fn position(&self, name: &String) -> (position: Option<usize>)
        ensures
            match position {
                Some(i) => i < self.pairs@.len() && self.pairs@[i as int].0@ == name@,
                None => forall|i: int|
                    0 <= i < self.pairs@.len() ==> (#[trigger] self.pairs@[i]).0@ != name@,
            },
    {
        for i in 0..self.pairs.len()
            invariant
                forall|j: int| 0 <= j < i ==> (#[trigger] self.pairs@[j]).0@ != name@,
        {
            if self.pairs[i].0 == *name {
                return Some(i);
            }
        }
        None
    }

    /// The entry for `name`, if there is one.
    pub fn get(&self, name: &String) -> (entry: Option<&RouteEntry>)
        ensures
            match entry {
                Some(entry) => self@.contains_key(name@) && *entry == self@[name@],
                None => !self@.contains_key(name@),
            },
    {
        proof {
            use_type_invariant(self);
            lemma_entries_by_name(self.pairs@);
        }
        match self.position(name) {
            Some(i) => Some(&self.pairs[i].1),
            None => None,
        }
    }

    /// Whether there is an entry for `name`.
    pub fn contains_key(&self, name: &String) -> (b: bool)
        ensures
            b == self@.contains_key(name@),
    {
        self.get(name).is_some()
    }

    /// Makes `entry` the entry for `name`.
    pub fn insert(&mut self, name: String, entry: RouteEntry)
        ensures
            final(self)@ == old(self)@.insert(name@, entry),
    {
        proof {
            use_type_invariant(&*self);
        }
        let position = self.position(&name);
        let mut pairs: Vec<(String, RouteEntry)> = Vec::new();
        std::mem::swap(&mut pairs, &mut self.pairs);
        let ghost before = pairs@;
        match position {
            Some(i) => {
                pairs.set(i, (name, entry));
                proof {
                    lemma_entry_is_replaced(before, i as int, (name, entry));
                }
            },
            None => {
                pairs.push((name, entry));
                assert(pairs@.drop_last() =~= before);
            },
        }
        self.pairs = pairs;
    }
}

impl Clone for RouteEntries {
    fn clone(&self) -> (entries: Self)
        ensures
            entries@.dom() == self@.dom(),
            forall|name: Seq<char>| #[trigger]
                self@.contains_key(name) ==> entries@[name]@ == self@[name]@,
    {
        proof {
            use_type_invariant(self);
            lemma_entries_by_name(self.pairs@);
        }
        let mut pairs: Vec<(String, RouteEntry)> = Vec::with_capacity(self.pairs.len());
        for i in 0..self.pairs.len()
            invariant
                pairs@.len() == i,
                forall|j: int|
                    0 <= j < i ==> (#[trigger] pairs@[j]).0@ == self.pairs@[j].0@ && pairs@[j].1@
                        == self.pairs@[j].1@,
        {
            pairs.push((self.pairs[i].0.clone(), self.pairs[i].1.clone()));
        }
        assert(names_differ(pairs@));
        proof {
            lemma_entries_by_name(pairs@);
        }
        let entries = RouteEntries { pairs };
        assert forall|name: Seq<char>| #[trigger]
            self@.contains_key(name) == entries@.contains_key(name) by {
            if self@.contains_key(name) {
                let j = choose|j: int|
                    0 <= j < self.pairs@.len() && (#[trigger] self.pairs@[j]).0@ == name;
                assert(entries.pairs@[j].0@ == name);
            }
            if entries@.contains_key(name) {
                let j = choose|j: int|
                    0 <= j < entries.pairs@.len() && (#[trigger] entries.pairs@[j]).0@ == name;
                assert(self.pairs@[j].0@ == name);
            }
        }
        assert(entries@.dom() =~= self@.dom());
        entries
    }
}

} // verus!
