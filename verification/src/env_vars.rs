//! Environment-variable overlays: finite maps from variable name to value.

use vstd::prelude::*;
use vstd::string::StringExecFns;

verus! {

/// A set of environment variables, each name bound to exactly one value.
///
/// The view is the map from names to values.
#[derive(Debug)]
pub struct EnvVars {
    entries: Vec<(String, String)>,
}

/// The names of a sequence of entries, in order.
pub open spec fn entry_names(entries: Seq<(String, String)>) -> Seq<Seq<char>> {
    Seq::new(entries.len(), |i: int| entries[i].0@)
}

/// Whether the entry at position `i` carries `name`.
pub open spec fn binds_at(entries: Seq<(String, String)>, i: int, name: Seq<char>) -> bool {
    0 <= i < entries.len() && entries[i].0@ == name
}

/// The map that a sequence of entries stands for: a name is bound when some
/// entry carries it, and (names being distinct) to that entry's value.
pub open spec fn entries_map(entries: Seq<(String, String)>) -> Map<Seq<char>, Seq<char>> {
    Map::new(
        |name: Seq<char>| exists|i: int| binds_at(entries, i, name),
        |name: Seq<char>| entries[choose|i: int| binds_at(entries, i, name)].1@,
    )
}

/// With distinct names, every entry is bound in the map to its own value.
pub proof fn lemma_entries_map(entries: Seq<(String, String)>)
    requires
        entry_names(entries).no_duplicates(),
    ensures
        forall|i: int, name: Seq<char>| #[trigger]
            binds_at(entries, i, name) ==> entries_map(entries).contains_key(name)
                && entries_map(entries)[name] == entries[i].1@,
        forall|name: Seq<char>| #[trigger]
            entries_map(entries).contains_key(name) ==> binds_at(
                entries,
                choose|i: int| binds_at(entries, i, name),
                name,
            ),
{
    let names = entry_names(entries);
    assert forall|i: int, name: Seq<char>| #[trigger]
        binds_at(entries, i, name) implies entries_map(entries).contains_key(name)
        && entries_map(entries)[name] == entries[i].1@ by {
        let j = choose|j: int| binds_at(entries, j, name);
        assert(names[i] == names[j]);
    }
}

/// Appending an entry with a fresh name binds that name and changes nothing else.
pub proof fn lemma_entries_map_push(entries: Seq<(String, String)>, entry: (String, String))
    requires
        entry_names(entries).no_duplicates(),
        forall|i: int| !binds_at(entries, i, entry.0@),
    ensures
        entry_names(entries.push(entry)).no_duplicates(),
        entries_map(entries.push(entry)) == entries_map(entries).insert(entry.0@, entry.1@),
{
    let after = entries.push(entry);
    let target = entries_map(entries).insert(entry.0@, entry.1@);
    assert forall|i: int, j: int|
        0 <= i < after.len() && 0 <= j < after.len() && i != j implies entry_names(after)[i]
        != entry_names(after)[j] by {
        assert(!binds_at(entries, i, entry.0@) && !binds_at(entries, j, entry.0@));
        if i < entries.len() && j < entries.len() {
            assert(entry_names(entries)[i] != entry_names(entries)[j]);
        }
    }
    lemma_entries_map(entries);
    lemma_entries_map(after);
    assert forall|k: Seq<char>| entries_map(after).contains_key(k) implies #[trigger]
        target.contains_key(k) && entries_map(after)[k] == target[k] by {
        let j = choose|j: int| binds_at(after, j, k);
        if k != entry.0@ {
            assert(binds_at(entries, j, k));
        } else {
            assert(binds_at(after, entries.len() as int, k));
        }
    }
    assert forall|k: Seq<char>| #[trigger] target.contains_key(k) implies entries_map(
        after,
    ).contains_key(k) by {
        if k != entry.0@ {
            let j = choose|j: int| binds_at(entries, j, k);
            assert(binds_at(after, j, k));
        } else {
            assert(binds_at(after, entries.len() as int, k));
        }
    }
}

/// Replacing an entry by one of the same name rebinds that name and changes
/// nothing else.
pub proof fn lemma_entries_map_update(
    entries: Seq<(String, String)>,
    i: int,
    entry: (String, String),
)
    requires
        entry_names(entries).no_duplicates(),
        binds_at(entries, i, entry.0@),
    ensures
        entry_names(entries.update(i, entry)).no_duplicates(),
        entries_map(entries.update(i, entry)) == entries_map(entries).insert(entry.0@, entry.1@),
{
    let after = entries.update(i, entry);
    let target = entries_map(entries).insert(entry.0@, entry.1@);
    assert(entry_names(after) =~= entry_names(entries));
    lemma_entries_map(entries);
    lemma_entries_map(after);
    assert forall|k: Seq<char>| entries_map(after).contains_key(k) implies #[trigger]
        target.contains_key(k) && entries_map(after)[k] == target[k] by {
        let j = choose|j: int| binds_at(after, j, k);
        if k != entry.0@ {
            assert(binds_at(entries, j, k));
        } else {
            assert(binds_at(after, i, k));
        }
    }
    assert forall|k: Seq<char>| #[trigger] target.contains_key(k) implies entries_map(
        after,
    ).contains_key(k) by {
        if k != entry.0@ {
            let j = choose|j: int| binds_at(entries, j, k);
            assert(binds_at(after, j, k));
        } else {
            assert(binds_at(after, i, k));
        }
    }
}

/// With distinct names, the map binds exactly as many names as there are
/// entries.
pub proof fn lemma_entries_map_dom(entries: Seq<(String, String)>)
    requires
        entry_names(entries).no_duplicates(),
    ensures
        entries_map(entries).dom().finite(),
        entries_map(entries).dom().len() == entries.len(),
{
    let names = entry_names(entries);
    names.unique_seq_to_set();
    assert forall|k: Seq<char>| names.to_set().contains(k) == entries_map(entries).dom().contains(
        k,
    ) by {
        if names.to_set().contains(k) {
            let i = choose|i: int| 0 <= i < names.len() && names[i] == k;
            assert(binds_at(entries, i, k));
        }
        if entries_map(entries).dom().contains(k) {
            let i = choose|i: int| binds_at(entries, i, k);
            assert(names[i] == k);
        }
    }
    assert(names.to_set() =~= entries_map(entries).dom());
}

/// The map that a sequence of bindings builds up when they are made one
/// after the other: where a name is bound more than once, the last binding
/// stands.
pub open spec fn bindings_map(pairs: Seq<(String, String)>) -> Map<Seq<char>, Seq<char>>
    decreases pairs.len(),
{
    if pairs.len() == 0 {
        Map::empty()
    } else {
        bindings_map(pairs.drop_last()).insert(pairs.last().0@, pairs.last().1@)
    }
}

/// Where no name is bound twice, making the bindings one after the other
/// gives the map that the entries stand for.
pub proof fn lemma_bindings_of_entries(entries: Seq<(String, String)>)
    requires
        entry_names(entries).no_duplicates(),
    ensures
        bindings_map(entries) == entries_map(entries),
    decreases entries.len(),
{
    if entries.len() > 0 {
        let front = entries.drop_last();
        let last = entries.last();
        assert(entry_names(front) =~= entry_names(entries).drop_last());
        assert forall|i: int| !binds_at(front, i, last.0@) by {
            if binds_at(front, i, last.0@) {
                assert(entry_names(entries)[i] == entry_names(entries)[entries.len() - 1]);
            }
        }
        lemma_bindings_of_entries(front);
        lemma_entries_map_push(front, last);
        assert(front.push(last) =~= entries);
    }
}

impl View for EnvVars {
    type V = Map<Seq<char>, Seq<char>>;

    closed spec fn view(&self) -> Map<Seq<char>, Seq<char>> {
        entries_map(self.entries@)
    }
}

impl EnvVars {
    #[verifier::type_invariant]
    spec fn names_distinct(self) -> bool {
        entry_names(self.entries@).no_duplicates()
    }

    /// No variables.
    pub fn new() -> (vars: EnvVars)
        ensures
            vars@ == Map::<Seq<char>, Seq<char>>::empty(),
    {
        let vars = EnvVars { entries: Vec::new() };
        vars
    }

    /// The variables that `pairs` bind, made in order: a later pair replaces
    /// the value of an earlier pair of the same name.
    pub fn from_vec(pairs: Vec<(String, String)>) -> (vars: EnvVars)
        ensures
            vars@ == bindings_map(pairs@),
    {
        let ghost all = pairs@;
        let mut vars = EnvVars::new();
        for pair in each: pairs.into_iter()
            invariant
                each.seq() == all,
                vars@ == bindings_map(all.take(each.index() as int)),
        {
            assert(all.take(each.index() + 1).drop_last() =~= all.take(each.index() as int));
            vars.insert(pair.0, pair.1);
        }
        assert(all.take(all.len() as int) =~= all);
        vars
    }

    /// The position of the entry that carries `name`, if there is one.
    fn position(&self, name: &String) -> (found: Option<usize>)
        ensures
            match found {
                Some(i) => binds_at(self.entries@, i as int, name@),
                None => forall|i: int| !binds_at(self.entries@, i, name@),
            },
    {
        let mut i: usize = 0;
        while i < self.entries.len()
            invariant
                i <= self.entries@.len(),
                forall|j: int| 0 <= j < i ==> self.entries@[j].0@ != name@,
            decreases self.entries@.len() - i,
        {
            if self.entries[i].0 == *name {
                return Some(i);
            }
            i += 1;
        }
        None
    }

    /// Whether `name` is bound.
    pub fn contains_key(&self, name: &str) -> (bound: bool)
        ensures
            bound == self@.contains_key(name@),
    {
        let name = String::from_str(name);
        self.position(&name).is_some()
    }

    /// The value bound to `name`, if any.
    pub fn get(&self, name: &str) -> (value: Option<&String>)
        ensures
            match value {
                Some(v) => self@.contains_key(name@) && v@ == self@[name@],
                None => !self@.contains_key(name@),
            },
    {
        proof {
            use_type_invariant(self);
            lemma_entries_map(self.entries@);
        }
        let name = String::from_str(name);
        match self.position(&name) {
            Some(i) => Some(&self.entries[i].1),
            None => None,
        }
    }

    /// Binds `name` to `value`, replacing any value it had.
    pub fn insert(&mut self, name: String, value: String)
        ensures
            final(self)@ == old(self)@.insert(name@, value@),
    {
        proof {
            use_type_invariant(&*self);
        }
        let ghost before = self.entries@;
        let found = self.position(&name);
        let mut entries: Vec<(String, String)> = Vec::new();
        std::mem::swap(&mut self.entries, &mut entries);
        match found {
            Some(i) => {
                proof {
                    lemma_entries_map_update(before, i as int, (name, value));
                }
                entries.set(i, (name, value));
            },
            None => {
                proof {
                    lemma_entries_map_push(before, (name, value));
                }
                entries.push((name, value));
            },
        }
        std::mem::swap(&mut self.entries, &mut entries);
    }

    /// Lays `other` over these variables: every name bound in `other` takes
    /// the value it has there, and every other name keeps its value.
    pub fn overlay(&mut self, other: &EnvVars)
        ensures
            final(self)@ == old(self)@.union_prefer_right(other@),
    {
        proof {
            use_type_invariant(other);
        }
        let ghost base = self@;
        let mut i: usize = 0;
        while i < other.entries.len()
            invariant
                i <= other.entries@.len(),
                entry_names(other.entries@).no_duplicates(),
                self@ == base.union_prefer_right(entries_map(other.entries@.take(i as int))),
            decreases other.entries@.len() - i,
        {
            let name = other.entries[i].0.clone();
            let value = other.entries[i].1.clone();
            proof {
                let all = other.entries@;
                let done = all.take(i as int);
                assert(all.take(i + 1) =~= done.push(all[i as int]));
                assert(entry_names(done) =~= entry_names(all).take(i as int));
                assert forall|j: int| !binds_at(done, j, all[i as int].0@) by {
                    if binds_at(done, j, all[i as int].0@) {
                        assert(entry_names(all)[j] == entry_names(all)[i as int]);
                    }
                }
                lemma_entries_map_push(done, all[i as int]);
            }
            self.insert(name, value);
            i += 1;
        }
        assert(other.entries@.take(i as int) =~= other.entries@);
    }

    /// The number of variables.
    pub fn len(&self) -> (n: usize)
        ensures
            self@.dom().finite(),
            n == self@.dom().len(),
    {
        proof {
            use_type_invariant(self);
            lemma_entries_map_dom(self.entries@);
        }
        self.entries.len()
    }

    /// Whether there are no variables.
    pub fn is_empty(&self) -> (empty: bool)
        ensures
            empty == (self@ == Map::<Seq<char>, Seq<char>>::empty()),
    {
        proof {
            use_type_invariant(self);
            lemma_entries_map(self.entries@);
            if self.entries@.len() > 0 {
                assert(binds_at(self.entries@, 0, self.entries@[0].0@));
            } else {
                assert(self@ =~= Map::<Seq<char>, Seq<char>>::empty());
            }
        }
        self.entries.len() == 0
    }

    /// The variables as `(name, value)` pairs, one pair for each name.
    pub fn to_vec(&self) -> (pairs: Vec<(String, String)>)
        ensures
            entry_names(pairs@).no_duplicates(),
            entries_map(pairs@) == self@,
            bindings_map(pairs@) == self@,
            pairs@.len() == self@.dom().len(),
    {
        proof {
            use_type_invariant(self);
            lemma_entries_map_dom(self.entries@);
            lemma_bindings_of_entries(self.entries@);
        }
        let mut pairs: Vec<(String, String)> = Vec::new();
        let mut i: usize = 0;
        while i < self.entries.len()
            invariant
                i <= self.entries@.len(),
                pairs@ == self.entries@.take(i as int),
            decreases self.entries@.len() - i,
        {
            let name = self.entries[i].0.clone();
            let value = self.entries[i].1.clone();
            pairs.push((name, value));
            i += 1;
        }
        assert(pairs@ =~= self.entries@);
        pairs
    }
}

impl Clone for EnvVars {
    fn clone(&self) -> (copy: EnvVars)
        ensures
            copy@ == self@,
    {
        EnvVars { entries: self.to_vec() }
    }
}

} // verus!
