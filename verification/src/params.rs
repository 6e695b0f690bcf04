//! The parameters of a request to the VK API: a map from names to values, in
//! which setting a name again replaces its value.

use vstd::prelude::*;

verus! {

/// Request parameters. Each name occurs once.
pub struct Params {
    entries: Vec<(String, String)>,
}

/// Some entry has the name `key`.
pub open spec fn has_name(entries: Seq<(String, String)>, key: Seq<char>) -> bool {
    exists|i: int| 0 <= i < entries.len() && entries[i].0@ == key
}

/// A position of the name `key`.
pub open spec fn name_index(entries: Seq<(String, String)>, key: Seq<char>) -> int {
    choose|i: int| 0 <= i < entries.len() && entries[i].0@ == key
}

/// No name occurs twice.
pub open spec fn names_distinct(entries: Seq<(String, String)>) -> bool {
    forall|i: int, j: int|
        0 <= i < entries.len() && 0 <= j < entries.len() && i != j ==> entries[i].0@ != entries[j].0@
}

/// The map that the entries stand for.
pub open spec fn entries_map(entries: Seq<(String, String)>) -> Map<Seq<char>, Seq<char>> {
    Map::new(
        |k: Seq<char>| has_name(entries, k),
        |k: Seq<char>| entries[name_index(entries, k)].1@,
    )
}

impl View for Params {
    type V = Map<Seq<char>, Seq<char>>;

    closed spec fn view(&self) -> Map<Seq<char>, Seq<char>> {
        entries_map(self.entries@)
    }
}

impl Params {
    #[verifier::type_invariant]
    closed spec fn wf(&self) -> bool {
        names_distinct(self.entries@)
    }

    /// The entries, each name once, in the order in which names were first set.
    pub closed spec fn spec_entries(&self) -> Seq<(String, String)> {
        self.entries@
    }

    /// No parameters.
    pub fn new() -> (p: Params)
        ensures
            p@ == Map::<Seq<char>, Seq<char>>::empty(),
    {
        let p = Params { entries: Vec::new() };
        assert(p@ =~= Map::<Seq<char>, Seq<char>>::empty());
        p
    }

    /// Sets the parameter `key` to `value`, replacing any value it had.
    pub fn insert(&mut self, key: &str, value: String)
        ensures
            final(self)@ == old(self)@.insert(key@, value@),
    {
        proof {
            use_type_invariant(&*self);
        }
        let ghost before = self.entries@;
        let mut entries: Vec<(String, String)> = Vec::new();
        std::mem::swap(&mut entries, &mut self.entries);
        let name = String::from_str(key);
        let mut i: usize = 0;
        while i < entries.len()
            invariant
                name@ == key@,
                entries@ == before,
                names_distinct(before),
                old(self)@ == entries_map(before),
                i <= before.len(),
                forall|j: int| 0 <= j < i ==> before[j].0@ != key@,
            decreases entries.len() - i,
        {
            if entries[i].0 == name {
                let ghost v = value@;
                entries.set(i, (name, value));
                proof {
                    let after = entries@;
                    assert(names_distinct(after));
                    assert forall|k: Seq<char>| #[trigger] has_name(after, k) == has_name(before, k) by {
                        if has_name(before, k) {
                            let m = name_index(before, k);
                            assert(after[m].0@ == k);
                        }
                        if has_name(after, k) {
                            let m = name_index(after, k);
                            assert(before[m].0@ == k);
                        }
                    }
                    assert forall|k: Seq<char>| has_name(after, k) implies
                        #[trigger] entries_map(after)[k] == entries_map(before).insert(key@, v)[k] by {
                        let m = name_index(after, k);
                        if k == key@ {
                            assert(m == i);
                        } else {
                            let m2 = name_index(before, k);
                            assert(m2 == m);
                        }
                    }
                    assert(entries_map(after) =~= entries_map(before).insert(key@, v));
                }
                self.entries = entries;
                return;
            }
            i = i + 1;
        }
        let ghost v = value@;
        entries.push((name, value));
        proof {
            let after = entries@;
            let n = before.len() as int;
            assert(after[n].0@ == key@);
            assert(names_distinct(after));
            assert forall|k: Seq<char>| #[trigger] has_name(after, k) == (has_name(before, k) || k == key@) by {
                if has_name(before, k) {
                    let m = name_index(before, k);
                    assert(after[m].0@ == k);
                }
                if has_name(after, k) && k != key@ {
                    let m = name_index(after, k);
                    assert(before[m].0@ == k);
                }
            }
            assert forall|k: Seq<char>| has_name(after, k) implies
                #[trigger] entries_map(after)[k] == entries_map(before).insert(key@, v)[k] by {
                let m = name_index(after, k);
                if k == key@ {
                    assert(m == n);
                } else {
                    let m2 = name_index(before, k);
                    assert(m2 == m);
                }
            }
            assert(entries_map(after) =~= entries_map(before).insert(key@, v));
        }
        self.entries = entries;
    }

    /// The value of the parameter `key`, if it is set.
    pub fn get(&self, key: &str) -> (r: Option<&String>)
        ensures
            match r {
                Some(v) => self@.contains_key(key@) && self@[key@] == v@,
                None => !self@.contains_key(key@),
            },
    {
        proof {
            use_type_invariant(self);
        }
        let name = String::from_str(key);
        let mut i: usize = 0;
        while i < self.entries.len()
            invariant
                name@ == key@,
                i <= self.entries@.len(),
                names_distinct(self.entries@),
                forall|j: int| 0 <= j < i ==> self.entries@[j].0@ != key@,
            decreases self.entries.len() - i,
        {
            if self.entries[i].0 == name {
                assert(has_name(self.entries@, key@));
                assert(name_index(self.entries@, key@) == i);
                return Some(&self.entries[i].1);
            }
            i = i + 1;
        }
        None
    }

    /// The parameters as name and value pairs, each name once.
    pub fn entries(&self) -> (e: &Vec<(String, String)>)
        ensures
            e@ == self.spec_entries(),
            names_distinct(e@),
            entries_map(e@) == self@,
            forall|i: int| 0 <= i < e@.len() ==> self@.contains_key(#[trigger] e@[i].0@)
                && self@[e@[i].0@] == e@[i].1@,
            forall|k: Seq<char>| #[trigger] self@.contains_key(k) ==> exists|i: int|
                0 <= i < e@.len() && e@[i].0@ == k,
    {
        proof {
            use_type_invariant(self);
            let s = self.entries@;
            assert forall|i: int| 0 <= i < s.len() implies self@.contains_key(#[trigger] s[i].0@)
                && self@[s[i].0@] == s[i].1@ by {
                assert(has_name(s, s[i].0@));
                let m = name_index(s, s[i].0@);
                assert(m == i);
            }
        }
        &self.entries
    }
}

} // verus!
