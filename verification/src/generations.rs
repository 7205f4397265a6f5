//! The generation of every dictionary of a bundle, keyed by ISO 639-3 code.
//!
//! A generation is derived from everything that went into a dictionary, so two
//! bundles lemmatize alike exactly when their generations agree. Entries are
//! kept in ascending order of their codes, as a `BTreeMap` of strings keeps
//! them, and no code occurs twice.

use vstd::prelude::*;
use crate::text::{
    chars_of, compare_text, lemma_text_lt_irreflexive, lemma_text_lt_transitive, text_lt, Comparison,
};

verus! {

/// The character views of a list of string pairs.
pub open spec fn pair_views(v: Seq<(String, String)>) -> Seq<(Seq<char>, Seq<char>)> {
    v.map_values(|e: (String, String)| (e.0@, e.1@))
}

/// Every key comes strictly before the keys that follow it.
pub open spec fn keys_ascending(s: Seq<(Seq<char>, Seq<char>)>) -> bool {
    forall|i: int, j: int| 0 <= i < j < s.len() ==> text_lt(#[trigger] s[i].0, #[trigger] s[j].0)
}

/// A position of an entry with key `k`, if there is one.
pub open spec fn position_of(s: Seq<(Seq<char>, Seq<char>)>, k: Seq<char>) -> int {
    choose|i: int| 0 <= i < s.len() && #[trigger] s[i].0 == k
}

/// The map that a list of entries with distinct keys stands for.
pub open spec fn map_of(s: Seq<(Seq<char>, Seq<char>)>) -> Map<Seq<char>, Seq<char>> {
    Map::new(
        |k: Seq<char>| exists|i: int| 0 <= i < s.len() && #[trigger] s[i].0 == k,
        |k: Seq<char>| s[position_of(s, k)].1,
    )
}

/// In a list of entries with distinct keys, the map gives each entry's value
/// for its key.
pub proof fn lemma_map_of_entry(s: Seq<(Seq<char>, Seq<char>)>, n: int)
    requires
        keys_ascending(s),
        0 <= n < s.len(),
    ensures
        map_of(s).contains_key(s[n].0),
        map_of(s)[s[n].0] == s[n].1,
{
    let k = s[n].0;
    assert(map_of(s).contains_key(k));
    let j = position_of(s, k);
    if j != n {
        if j < n {
            assert(text_lt(s[j].0, s[n].0));
        } else {
            assert(text_lt(s[n].0, s[j].0));
        }
        lemma_text_lt_irreflexive(k);
    }
    assert(map_of(s)[k] == s[j].1);
}

/// The generations of a bundle: dictionary codes mapped to generation stamps.
pub struct Generations {
    entries: Vec<(String, String)>,
}

impl View for Generations {
    type V = Map<Seq<char>, Seq<char>>;

    open spec fn view(&self) -> Map<Seq<char>, Seq<char>> {
        map_of(self.entries())
    }
}

impl Generations {
    /// The entries, code and generation, in ascending order of code.
    pub closed spec fn entries(&self) -> Seq<(Seq<char>, Seq<char>)> {
        pair_views(self.entries@)
    }

    /// Codes come in ascending order, so none occurs twice.
    #[verifier::type_invariant]
    pub open spec fn codes_ascending(&self) -> bool {
        keys_ascending(self.entries())
    }

    /// No generations at all.
    pub fn new() -> (g: Self)
        ensures
            g@ == Map::<Seq<char>, Seq<char>>::empty(),
            g.entries() == Seq::<(Seq<char>, Seq<char>)>::empty(),
    {
        let g = Generations { entries: Vec::new() };
        assert(g@ =~= Map::<Seq<char>, Seq<char>>::empty());
        g
    }

    /// The number of entries.
    pub fn count(&self) -> (n: usize)
        ensures
            n == self.entries().len(),
    {
        self.entries.len()
    }

    /// The entry at position `i`, code first.
    pub fn entry(&self, i: usize) -> (e: (&str, &str))
        requires
            i < self.entries().len(),
        ensures
            e.0@ == self.entries()[i as int].0,
            e.1@ == self.entries()[i as int].1,
    {
        let pair = &self.entries[i];
        (pair.0.as_str(), pair.1.as_str())
    }

    /// The generation recorded for `code`, if any.
    pub fn get(&self, code: &str) -> (r: Option<&String>)
        ensures
            match r {
                Some(v) => self@.contains_key(code@) && v@ == self@[code@],
                None => !self@.contains_key(code@),
            },
    {
        proof {
            use_type_invariant(self);
        }
        let wanted = chars_of(code);
        let mut i: usize = 0;
        while i < self.entries.len()
            invariant
                wanted@ == code@,
                keys_ascending(self.entries()),
                i <= self.entries().len(),
                forall|j: int| 0 <= j < i ==> text_lt(#[trigger] self.entries()[j].0, code@),
            decreases self.entries().len() - i,
        {
            let key = chars_of(self.entries[i].0.as_str());
            match compare_text(&key, &wanted) {
                Comparison::Before => {
                    i = i + 1;
                },
                Comparison::Same => {
                    proof {
                        lemma_map_of_entry(self.entries(), i as int);
                    }
                    return Some(&self.entries[i].1);
                },
                Comparison::After => {
                    proof {
                        assert forall|j: int| 0 <= j < self.entries().len() implies #[trigger] self.entries()[j].0
                            != code@ by {
                            if j >= i {
                                if j > i {
                                    lemma_text_lt_transitive(code@, self.entries()[i as int].0, self.entries()[j].0);
                                }
                                lemma_text_lt_irreflexive(code@);
                            } else {
                                lemma_text_lt_irreflexive(code@);
                            }
                        }
                    }
                    return None;
                },
            }
        }
        proof {
            assert forall|j: int| 0 <= j < self.entries().len() implies #[trigger] self.entries()[j].0 != code@ by {
                lemma_text_lt_irreflexive(code@);
            }
        }
        None
    }

    /// Records `stamp` as the generation of `code`, replacing what was there.
    pub fn insert(&mut self, code: String, stamp: String)
        ensures
            final(self)@ == old(self)@.insert(code@, stamp@),
    {
        proof {
            use_type_invariant(&*self);
        }
        let wanted = chars_of(code.as_str());
        let mut i: usize = 0;
        let mut found = false;
        while i < self.entries.len()
            invariant
                wanted@ == code@,
                keys_ascending(self.entries()),
                i <= self.entries().len(),
                forall|j: int| 0 <= j < i ==> text_lt(#[trigger] self.entries()[j].0, code@),
                found ==> i < self.entries().len() && self.entries()[i as int].0 == code@,
            ensures
                wanted@ == code@,
                keys_ascending(self.entries()),
                i <= self.entries().len(),
                forall|j: int| 0 <= j < i ==> text_lt(#[trigger] self.entries()[j].0, code@),
                found ==> i < self.entries().len() && self.entries()[i as int].0 == code@,
                !found && i < self.entries().len() ==> text_lt(code@, self.entries()[i as int].0),
            decreases self.entries().len() - i,
        {
            let key = chars_of(self.entries[i].0.as_str());
            match compare_text(&key, &wanted) {
                Comparison::Before => {
                    i = i + 1;
                },
                Comparison::Same => {
                    found = true;
                    break;
                },
                Comparison::After => {
                    break;
                },
            }
        }
        let ghost before = self.entries();
        let mut entries: Vec<(String, String)> = Vec::new();
        std::mem::swap(&mut entries, &mut self.entries);
        if found {
            entries.remove(i);
        }
        entries.insert(i, (code, stamp));
        let ghost after = pair_views(entries@);
        proof {
            if found {
                assert(after =~= before.update(i as int, (code@, stamp@)));
            } else {
                assert(after =~= before.insert(i as int, (code@, stamp@)));
            }
            assert forall|a: int, b: int| 0 <= a < b < after.len() implies text_lt(
                #[trigger] after[a].0,
                #[trigger] after[b].0,
            ) by {
                if found {
                    if a == i {
                        assert(text_lt(before[a].0, before[b].0));
                    } else if b == i {
                        assert(text_lt(before[a].0, before[b].0));
                    }
                } else {
                    if a < i && b < i {
                        assert(text_lt(before[a].0, before[b].0));
                    } else if a < i && b > i {
                        assert(text_lt(before[a].0, before[b - 1].0));
                    } else if a < i && b == i {
                    } else if a == i {
                        if b - 1 > i {
                            lemma_text_lt_transitive(code@, before[i as int].0, before[b - 1].0);
                        }
                    } else {
                        let a1 = a - 1;
                        let b1 = b - 1;
                        assert(0 <= a1 < b1 < before.len());
                        assert(text_lt(before[a1].0, before[b1].0));
                    }
                }
            }
            let old_map = map_of(before);
            let new_map = map_of(after);
            assert forall|k: Seq<char>| #[trigger] new_map.contains_key(k) == old_map.insert(code@, stamp@).contains_key(k)
                by {
                if new_map.contains_key(k) && k != code@ {
                    let j = choose|j: int| 0 <= j < after.len() && #[trigger] after[j].0 == k;
                    if found {
                        assert(before[j].0 == k);
                    } else if j < i {
                        assert(before[j].0 == k);
                    } else {
                        assert(before[j - 1].0 == k);
                    }
                }
                if old_map.contains_key(k) && k != code@ {
                    let j = choose|j: int| 0 <= j < before.len() && #[trigger] before[j].0 == k;
                    if found {
                        assert(after[j].0 == k);
                    } else if j < i {
                        assert(after[j].0 == k);
                    } else {
                        assert(after[j + 1].0 == k);
                    }
                }
                if k == code@ {
                    assert(after[i as int].0 == k);
                }
            }
            assert forall|k: Seq<char>| #[trigger] new_map.contains_key(k) implies new_map[k] == old_map.insert(
                code@,
                stamp@,
            )[k] by {
                let j = choose|j: int| 0 <= j < after.len() && #[trigger] after[j].0 == k;
                lemma_map_of_entry(after, j);
                if k != code@ {
                    if found || j < i {
                        lemma_map_of_entry(before, j);
                    } else {
                        lemma_map_of_entry(before, j - 1);
                    }
                } else {
                    lemma_map_of_entry(after, i as int);
                }
            }
            assert(new_map =~= old_map.insert(code@, stamp@));
        }
        self.entries = entries;
    }
}

impl Clone for Generations {
    fn clone(&self) -> (r: Self)
        ensures
            r@ == self@,
            r.entries() == self.entries(),
    {
        proof {
            use_type_invariant(self);
        }
        let mut entries: Vec<(String, String)> = Vec::new();
        let mut i: usize = 0;
        while i < self.entries.len()
            invariant
                i <= self.entries@.len(),
                entries@.len() == i,
                forall|j: int| 0 <= j < i ==> (#[trigger] entries@[j]).0@ == self.entries@[j].0@
                    && entries@[j].1@ == self.entries@[j].1@,
                keys_ascending(self.entries()),
            decreases self.entries@.len() - i,
        {
            let pair = &self.entries[i];
            entries.push((pair.0.clone(), pair.1.clone()));
            i = i + 1;
        }
        assert(pair_views(entries@) =~= pair_views(self.entries@));
        Generations { entries }
    }
}

/// What an insert wrote, a lookup reads back, and every other code keeps
/// its generation.
pub proof fn lemma_read_after_insert(
    before: Map<Seq<char>, Seq<char>>,
    code: Seq<char>,
    stamp: Seq<char>,
    other: Seq<char>,
)
    ensures
        before.insert(code, stamp).contains_key(code),
        before.insert(code, stamp)[code] == stamp,
        other != code ==> before.insert(code, stamp).contains_key(other) == before.contains_key(other),
        other != code && before.contains_key(other) ==> before.insert(code, stamp)[other] == before[other],
{
}

} // verus!
