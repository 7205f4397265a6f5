//! What the lemmatizer of a process knows of its dictionaries: which languages
//! it answers for, under which code each dictionary came, and the generation
//! every dictionary was stamped with.
//!
//! The dictionaries themselves are memory-mapped tries that the program holds
//! beside this; what is decided about them is decided here.

use vstd::prelude::*;
use crate::generations::Generations;
use crate::language::{language_of_code, Language};
use crate::mismatch::covers;

verus! {

/// The map that a list of dictionaries with distinct languages stands for.
pub open spec fn code_map(s: Seq<(Language, Seq<char>)>) -> Map<Language, Seq<char>> {
    Map::new(
        |l: Language| exists|i: int| 0 <= i < s.len() && #[trigger] s[i].0 == l,
        |l: Language| s[dictionary_position(s, l)].1,
    )
}

/// A position of the dictionary of `l`, if there is one.
pub open spec fn dictionary_position(s: Seq<(Language, Seq<char>)>, l: Language) -> int {
    choose|i: int| 0 <= i < s.len() && #[trigger] s[i].0 == l
}

/// No language has two dictionaries.
pub open spec fn languages_distinct(s: Seq<(Language, Seq<char>)>) -> bool {
    forall|i: int, j: int| 0 <= i < j < s.len() ==> #[trigger] s[i].0 != #[trigger] s[j].0
}

proof fn lemma_code_map_entry(s: Seq<(Language, Seq<char>)>, n: int)
    requires
        languages_distinct(s),
        0 <= n < s.len(),
    ensures
        code_map(s).contains_key(s[n].0),
        code_map(s)[s[n].0] == s[n].1,
{
    let l = s[n].0;
    assert(code_map(s).contains_key(l));
    let j = dictionary_position(s, l);
    assert(j == n);
    assert(code_map(s)[l] == s[j].1);
}

/// The dictionaries of every language found in a bundle: their codes and
/// generations.
pub struct Lemmatizer {
    dictionaries: Vec<(Language, String)>,
    generations: Generations,
}

impl Lemmatizer {
    /// The dictionaries, language and code, in the order they were added.
    pub closed spec fn dictionaries(&self) -> Seq<(Language, Seq<char>)> {
        self.dictionaries@.map_values(|d: (Language, String)| (d.0, d.1@))
    }

    /// The code of the dictionary of each language it answers for.
    pub open spec fn codes(&self) -> Map<Language, Seq<char>> {
        code_map(self.dictionaries())
    }

    /// The generation of every dictionary it holds, by code.
    pub closed spec fn stamps(&self) -> Map<Seq<char>, Seq<char>> {
        self.generations@
    }

    /// Every stamped dictionary is still the dictionary of some language:
    /// no two dictionaries of the bundle came for one language.
    pub open spec fn stamps_in_use(&self) -> bool {
        forall|c: Seq<char>| #[trigger] self.stamps().contains_key(c) ==> exists|l: Language|
            #[trigger] self.codes().contains_key(l) && self.codes()[l] == c
    }

    /// No language has two dictionaries.
    #[verifier::type_invariant]
    pub open spec fn one_dictionary_per_language(&self) -> bool {
        languages_distinct(self.dictionaries())
    }

    /// No dictionaries yet.
    pub fn new() -> (l: Self)
        ensures
            l.codes() == Map::<Language, Seq<char>>::empty(),
            l.stamps() == Map::<Seq<char>, Seq<char>>::empty(),
    {
        let l = Lemmatizer { dictionaries: Vec::new(), generations: Generations::new() };
        assert(l.codes() =~= Map::<Language, Seq<char>>::empty());
        l
    }

    /// Takes in the dictionary of `language`, found under `code`, with the
    /// generation it names, if it names one. A dictionary that names none still
    /// lemmatizes; it just cannot be told apart from another build of it.
    pub fn add(&mut self, language: Language, code: String, stamp: Option<String>)
        ensures
            final(self).codes() == old(self).codes().insert(language, code@),
            final(self).stamps() == match stamp {
                Some(s) => old(self).stamps().insert(code@, s@),
                None => old(self).stamps(),
            },
    {
        proof {
            use_type_invariant(&*self);
        }
        match stamp {
            Some(s) => {
                let mut generations = Generations::new();
                std::mem::swap(&mut generations, &mut self.generations);
                generations.insert(code.clone(), s);
                self.generations = generations;
            },
            None => {},
        }
        let ghost before = self.dictionaries();
        let mut i: usize = 0;
        let mut found = false;
        while i < self.dictionaries.len()
            invariant
                before == self.dictionaries(),
                i <= before.len(),
                forall|j: int| 0 <= j < i ==> before[j].0 != language,
                found ==> i < before.len() && before[i as int].0 == language,
            ensures
                i <= before.len(),
                forall|j: int| 0 <= j < i ==> before[j].0 != language,
                found ==> i < before.len() && before[i as int].0 == language,
                !found ==> i == before.len(),
            decreases before.len() - i,
        {
            if self.dictionaries[i].0 == language {
                found = true;
                break;
            }
            i = i + 1;
        }
        let mut dictionaries: Vec<(Language, String)> = Vec::new();
        std::mem::swap(&mut dictionaries, &mut self.dictionaries);
        let ghost code_view = code@;
        if found {
            dictionaries.remove(i);
            dictionaries.insert(i, (language, code));
        } else {
            dictionaries.push((language, code));
        }
        let ghost after = dictionaries@.map_values(|d: (Language, String)| (d.0, d.1@));
        proof {
            if found {
                assert(after =~= before.update(i as int, (language, code_view)));
            } else {
                assert(after =~= before.push((language, code_view)));
            }
            assert(languages_distinct(after));
            let old_map = code_map(before);
            let new_map = code_map(after);
            assert forall|l: Language| #[trigger] new_map.contains_key(l) == old_map.insert(language, code_view).contains_key(l)
                by {
                if new_map.contains_key(l) && l != language {
                    let j = choose|j: int| 0 <= j < after.len() && #[trigger] after[j].0 == l;
                    assert(before[j].0 == l);
                }
                if old_map.contains_key(l) && l != language {
                    let j = choose|j: int| 0 <= j < before.len() && #[trigger] before[j].0 == l;
                    assert(after[j].0 == l);
                }
                if l == language {
                    assert(after[i as int].0 == l);
                }
            }
            assert forall|l: Language| #[trigger] new_map.contains_key(l) implies new_map[l] == old_map.insert(
                language,
                code_view,
            )[l] by {
                let j = choose|j: int| 0 <= j < after.len() && #[trigger] after[j].0 == l;
                lemma_code_map_entry(after, j);
                if l != language {
                    lemma_code_map_entry(before, j);
                }
            }
            assert(new_map =~= old_map.insert(language, code_view));
        }
        self.dictionaries = dictionaries;
    }

    /// Takes in the dictionary found under `code`, if the tokenizer knows a
    /// language by that code; whether it did. A dictionary of a language the
    /// tokenizer has no identifier for is skipped.
    pub fn take_in(&mut self, code: String, stamp: Option<String>) -> (taken: bool)
        ensures
            taken == language_of_code(code@) is Some,
            match language_of_code(code@) {
                Some(l) => {
                    &&& final(self).codes() == old(self).codes().insert(l, code@)
                    &&& final(self).stamps() == match stamp {
                        Some(s) => old(self).stamps().insert(code@, s@),
                        None => old(self).stamps(),
                    }
                },
                None => final(self).codes() == old(self).codes() && final(self).stamps() == old(self).stamps(),
            },
    {
        match Language::from_code(code.as_str()) {
            Some(language) => {
                self.add(language, code, stamp);
                true
            },
            None => false,
        }
    }

    /// The languages this lemmatizer answers for, each once.
    pub fn languages(&self) -> (v: Vec<Language>)
        ensures
            v@.no_duplicates(),
            v@.to_set() == self.codes().dom(),
    {
        proof {
            use_type_invariant(self);
        }
        let mut v: Vec<Language> = Vec::new();
        let mut i: usize = 0;
        while i < self.dictionaries.len()
            invariant
                languages_distinct(self.dictionaries()),
                i <= self.dictionaries().len(),
                v@.len() == i,
                forall|j: int| 0 <= j < i ==> v@[j] == #[trigger] self.dictionaries()[j].0,
            decreases self.dictionaries().len() - i,
        {
            v.push(self.dictionaries[i].0);
            i = i + 1;
        }
        proof {
            let d = self.dictionaries();
            assert forall|a: int, b: int| 0 <= a < v@.len() && 0 <= b < v@.len() && a != b implies v@[a]
                != v@[b] by {
                if a < b {
                    assert(d[a].0 != d[b].0);
                } else {
                    assert(d[b].0 != d[a].0);
                }
            }
            assert forall|l: Language| #[trigger] v@.to_set().contains(l) == self.codes().dom().contains(l) by {
                if v@.to_set().contains(l) {
                    let j = choose|j: int| 0 <= j < v@.len() && v@[j] == l;
                    assert(d[j].0 == l);
                }
                if self.codes().dom().contains(l) {
                    let j = choose|j: int| 0 <= j < d.len() && #[trigger] d[j].0 == l;
                    assert(v@[j] == l);
                }
            }
            assert(v@.to_set() =~= self.codes().dom());
        }
        v
    }

    /// The code of the dictionary of `language`, if it has one.
    pub fn code_of(&self, language: Language) -> (r: Option<&String>)
        ensures
            match r {
                Some(c) => self.codes().contains_key(language) && c@ == self.codes()[language],
                None => !self.codes().contains_key(language),
            },
    {
        proof {
            use_type_invariant(self);
        }
        let mut i: usize = 0;
        while i < self.dictionaries.len()
            invariant
                languages_distinct(self.dictionaries()),
                i <= self.dictionaries().len(),
                forall|j: int| 0 <= j < i ==> (#[trigger] self.dictionaries()[j]).0 != language,
            decreases self.dictionaries().len() - i,
        {
            if self.dictionaries[i].0 == language {
                proof {
                    lemma_code_map_entry(self.dictionaries(), i as int);
                }
                return Some(&self.dictionaries[i].1);
            }
            i = i + 1;
        }
        None
    }

    /// The generation of every dictionary it holds.
    pub fn generations(&self) -> (g: &Generations)
        ensures
            g@ == self.stamps(),
    {
        &self.generations
    }
}

/// What the dictionaries of a process are, empty when there are none.
///
/// This is what an index's stamp is compared with, not what is written into
/// it: an index owns only the languages it was lemmatized with.
pub fn generations(lemmatizer: Option<&Lemmatizer>) -> (g: Generations)
    ensures
        g@ == match lemmatizer {
            Some(l) => l.stamps(),
            None => Map::<Seq<char>, Seq<char>>::empty(),
        },
{
    match lemmatizer {
        Some(l) => l.generations().clone(),
        None => Generations::new(),
    }
}

/// The codes of the dictionaries of `languages`.
pub open spec fn applied_codes(codes: Map<Language, Seq<char>>, languages: Seq<Language>) -> Set<Seq<char>> {
    Set::new(|c: Seq<char>| exists|i: int| 0 <= i < languages.len() && codes.contains_key(#[trigger] languages[i]) && codes[languages[i]] == c)
}

/// The generations of the dictionaries of the listed languages, exactly what
/// laid their words into an index. A language without a dictionary, and a
/// dictionary without a generation, drop out: there is nothing to name them by.
pub fn generations_of(lemmatizer: Option<&Lemmatizer>, languages: &[Language]) -> (g: Generations)
    ensures
        g@ == match lemmatizer {
            Some(l) => l.stamps().restrict(applied_codes(l.codes(), languages@)),
            None => Map::<Seq<char>, Seq<char>>::empty(),
        },
{
    let lemmatizer = match lemmatizer {
        Some(l) => l,
        None => return Generations::new(),
    };
    let stamps = lemmatizer.generations();
    let mut result = Generations::new();
    let mut i: usize = 0;
    while i < languages.len()
        invariant
            stamps@ == lemmatizer.stamps(),
            i <= languages@.len(),
            result@ == lemmatizer.stamps().restrict(applied_codes(lemmatizer.codes(), languages@.take(i as int))),
        decreases languages@.len() - i,
    {
        let language = languages[i];
        let ghost before = applied_codes(lemmatizer.codes(), languages@.take(i as int));
        let ghost after = applied_codes(lemmatizer.codes(), languages@.take(i + 1));
        match lemmatizer.code_of(language) {
            Some(code) => {
                proof {
                    assert(after =~= before.insert(code@)) by {
                        assert(languages@.take(i + 1)[i as int] == language);
                        assert forall|c: Seq<char>| #[trigger] after.contains(c) implies before.insert(code@).contains(c) by {
                            let j = choose|j: int| 0 <= j < i + 1 && lemmatizer.codes().contains_key(#[trigger] languages@.take(i + 1)[j]) && lemmatizer.codes()[languages@.take(i + 1)[j]] == c;
                            if j < i {
                                assert(languages@.take(i as int)[j] == languages@.take(i + 1)[j]);
                            }
                        }
                        assert forall|c: Seq<char>| #[trigger] before.contains(c) implies after.contains(c) by {
                            let j = choose|j: int| 0 <= j < i && lemmatizer.codes().contains_key(#[trigger] languages@.take(i as int)[j]) && lemmatizer.codes()[languages@.take(i as int)[j]] == c;
                            assert(languages@.take(i as int)[j] == languages@.take(i + 1)[j]);
                        }
                    }
                }
                match stamps.get(code.as_str()) {
                    Some(stamp) => {
                        result.insert(code.clone(), stamp.clone());
                        proof {
                            assert(result@ =~= lemmatizer.stamps().restrict(after));
                        }
                    },
                    None => {
                        proof {
                            assert(result@ =~= lemmatizer.stamps().restrict(after));
                        }
                    },
                }
            },
            None => {
                proof {
                    assert(after =~= before) by {
                        assert forall|c: Seq<char>| #[trigger] after.contains(c) implies before.contains(c) by {
                            let j = choose|j: int| 0 <= j < i + 1 && lemmatizer.codes().contains_key(#[trigger] languages@.take(i + 1)[j]) && lemmatizer.codes()[languages@.take(i + 1)[j]] == c;
                            assert(languages@.take(i as int)[j] == languages@.take(i + 1)[j]);
                        }
                        assert forall|c: Seq<char>| #[trigger] before.contains(c) implies after.contains(c) by {
                            let j = choose|j: int| 0 <= j < i && lemmatizer.codes().contains_key(#[trigger] languages@.take(i as int)[j]) && lemmatizer.codes()[languages@.take(i as int)[j]] == c;
                            assert(languages@.take(i as int)[j] == languages@.take(i + 1)[j]);
                        }
                    }
                }
            },
        }
        i = i + 1;
    }
    proof {
        assert(languages@.take(languages@.len() as int) =~= languages@);
    }
    result
}

/// What an indexing run records, the generations of the dictionaries it
/// applied, is never a mismatch against the dictionaries of the same process.
pub proof fn lemma_own_stamp_is_no_mismatch(lemmatizer: Lemmatizer, languages: Seq<Language>)
    ensures
        covers(lemmatizer.stamps(), lemmatizer.stamps().restrict(applied_codes(lemmatizer.codes(), languages))),
{
}

/// Stamping every language a lemmatizer answers for gives back its whole
/// bundle, where each stamped dictionary is still that of its language.
pub proof fn lemma_all_languages_give_the_bundle(lemmatizer: Lemmatizer, languages: Seq<Language>)
    requires
        languages.to_set() == lemmatizer.codes().dom(),
        lemmatizer.stamps_in_use(),
    ensures
        lemmatizer.stamps().restrict(applied_codes(lemmatizer.codes(), languages)) == lemmatizer.stamps(),
{
    let codes = lemmatizer.codes();
    let applied = applied_codes(codes, languages);
    assert forall|c: Seq<char>| #[trigger] lemmatizer.stamps().contains_key(c) implies applied.contains(c) by {
        let l = choose|l: Language| #[trigger] codes.contains_key(l) && codes[l] == c;
        assert(languages.to_set().contains(l));
        let i = choose|i: int| 0 <= i < languages.len() && languages[i] == l;
        assert(codes.contains_key(languages[i]) && codes[languages[i]] == c);
    }
    assert(lemmatizer.stamps().restrict(applied) =~= lemmatizer.stamps());
}

/// A dictionary taken in for a language that had none keeps every stamp in
/// use: a bundle whose dictionaries name distinct languages, taken in one by
/// one, has all its stamps in use.
pub proof fn lemma_new_language_keeps_stamps_in_use(
    before: Lemmatizer,
    after: Lemmatizer,
    language: Language,
    code: Seq<char>,
    stamp: Option<Seq<char>>,
)
    requires
        before.stamps_in_use(),
        !before.codes().contains_key(language),
        after.codes() == before.codes().insert(language, code),
        after.stamps() == match stamp {
            Some(s) => before.stamps().insert(code, s),
            None => before.stamps(),
        },
    ensures
        after.stamps_in_use(),
{
    assert forall|c: Seq<char>| #[trigger] after.stamps().contains_key(c) implies exists|l: Language|
        #[trigger] after.codes().contains_key(l) && after.codes()[l] == c by {
        if c == code {
            assert(after.codes().contains_key(language) && after.codes()[language] == c);
        } else {
            let l = choose|l: Language| #[trigger] before.codes().contains_key(l) && before.codes()[l] == c;
            assert(l != language);
            assert(after.codes().contains_key(l) && after.codes()[l] == c);
        }
    }
}

} // verus!
