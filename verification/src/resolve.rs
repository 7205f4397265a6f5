//! Which of the candidate languages a word belongs to, as the dictionaries
//! themselves say.
//!
//! First comes whoever has the word on record. A form that a dictionary took
//! from the corpus of its own language weighs more than one taken from an
//! external reference attached to it: references of different languages
//! overlap through loanwords, names and chance spellings. With equal weight the
//! smallest language in the order of languages wins. Suffix rules are off in
//! this round: they answer for any word of any language.
//!
//! If nobody has the word, whoever's rule at least fires on it wins, again the
//! smallest language. If no rule fires, there is nothing to say.
//!
//! Hence "smallest" rather than "first in the list": at indexing the list is
//! the locales of a field, at search the union of the index's locales; they
//! agree as sets, not in order. The answer depends on the word and the set of
//! languages only.
//!
//! A candidate that can no longer win is not asked at all. The dictionaries are
//! asked by the program that holds them: a `Resolver` says whom to ask next and
//! takes in the answers.

use vstd::prelude::*;
use crate::language::Language;

verus! {

/// Where a dictionary found a word.
#[derive(PartialEq, Eq, Structural, Clone, Copy, Debug)]
pub enum Source {
    /// Not found at all.
    Unknown,
    /// In the corpus of the dictionary's own language, in any of its forms.
    Corpus,
    /// In an external reference attached to the dictionary.
    External,
    /// In an external reference, after lowering the case.
    ExternalLower,
}

impl Source {
    /// Whether the dictionary has the word on record.
    pub open spec fn is_known(self) -> bool {
        !(self is Unknown)
    }
}

/// How firmly a dictionary knows a word: from the corpus of its own language,
/// or from an external reference attached to it.
#[derive(PartialEq, Eq, Structural, Clone, Copy, Debug)]
pub enum Weight {
    Corpus,
    External,
}

impl Weight {
    /// The rank of the weight: corpus first.
    pub open spec fn level(self) -> nat {
        match self {
            Weight::Corpus => 0,
            Weight::External => 1,
        }
    }

    /// The weight of a word found at `source`.
    pub open spec fn weight_of(source: Source) -> Weight {
        match source {
            Source::External | Source::ExternalLower => Weight::External,
            _ => Weight::Corpus,
        }
    }

    /// The weight of a word found at `source`.
    pub fn of(source: Source) -> (w: Weight)
        ensures
            w == Weight::weight_of(source),
    {
        match source {
            Source::External | Source::ExternalLower => Weight::External,
            _ => Weight::Corpus,
        }
    }
}

/// What the dictionary of a language says of the word.
#[derive(PartialEq, Eq, Structural, Clone, Copy, Debug)]
pub struct Lookup {
    /// The language has a dictionary.
    pub dictionary: bool,
    /// Where the dictionary has the word on record, with suffix rules off.
    pub source: Source,
    /// With suffix rules on, the dictionary changes the word.
    pub rule_changes: bool,
}

/// What the dictionary of each language says of the word.
pub type Answers = spec_fn(Language) -> Lookup;

/// The dictionary of `l` has the word on record.
pub open spec fn knows(answers: Answers, l: Language) -> bool {
    answers(l).dictionary && answers(l).source.is_known()
}

/// A rule of the dictionary of `l` fires on the word.
pub open spec fn guesses(answers: Answers, l: Language) -> bool {
    answers(l).dictionary && answers(l).rule_changes
}

/// The weight with which the dictionary of `l` knows the word.
pub open spec fn weight_in(answers: Answers, l: Language) -> Weight {
    Weight::weight_of(answers(l).source)
}

/// `(w1, l1)` comes no later than `(w2, l2)`: weight first, then language.
pub open spec fn ranks_before(w1: Weight, l1: Language, w2: Weight, l2: Language) -> bool {
    w1.level() < w2.level() || (w1.level() == w2.level() && l1.position() <= l2.position())
}

/// `l` is the candidate with the best claim to a word on record.
pub open spec fn best_known(candidates: Seq<Language>, answers: Answers, l: Language) -> bool {
    &&& candidates.contains(l)
    &&& knows(answers, l)
    &&& forall|m: Language|
        #![trigger candidates.contains(m)]
        candidates.contains(m) && knows(answers, m) ==> ranks_before(
            weight_in(answers, l),
            l,
            weight_in(answers, m),
            m,
        )
}

/// `l` is the smallest candidate whose rule fires on the word.
pub open spec fn best_guess(candidates: Seq<Language>, answers: Answers, l: Language) -> bool {
    &&& candidates.contains(l)
    &&& guesses(answers, l)
    &&& forall|m: Language|
        #![trigger candidates.contains(m)]
        candidates.contains(m) && guesses(answers, m) ==> l.position() <= m.position()
}

/// Some candidate has the word on record.
pub open spec fn some_knows(candidates: Seq<Language>, answers: Answers) -> bool {
    exists|l: Language| #[trigger] candidates.contains(l) && knows(answers, l)
}

/// Some candidate's rule fires on the word.
pub open spec fn some_guesses(candidates: Seq<Language>, answers: Answers) -> bool {
    exists|l: Language| #[trigger] candidates.contains(l) && guesses(answers, l)
}

/// `r` is the language of the word among `candidates`, given the answers of
/// their dictionaries.
pub open spec fn resolves(candidates: Seq<Language>, answers: Answers, r: Option<Language>) -> bool {
    if some_knows(candidates, answers) {
        r matches Some(l) && best_known(candidates, answers, l)
    } else if some_guesses(candidates, answers) {
        r matches Some(l) && best_guess(candidates, answers, l)
    } else {
        r is None
    }
}

/// One answer a dictionary gave.
#[derive(PartialEq, Eq, Structural, Clone, Copy, Debug)]
pub enum Heard {
    /// Asked with rules off: no dictionary (`None`), or where it has the word.
    Stored(Language, Option<Source>),
    /// Asked with rules on: no dictionary (`None`), or whether it changes the word.
    Rule(Language, Option<bool>),
}

/// `answers` says what the dictionary said.
pub open spec fn agrees(answers: Answers, h: Heard) -> bool {
    match h {
        Heard::Stored(l, None) => !answers(l).dictionary,
        Heard::Stored(l, Some(s)) => answers(l).dictionary && answers(l).source == s,
        Heard::Rule(l, None) => !answers(l).dictionary,
        Heard::Rule(l, Some(b)) => answers(l).dictionary && answers(l).rule_changes == b,
    }
}

/// `answers` says what every dictionary said.
pub open spec fn consistent(heard: Seq<Heard>, answers: Answers) -> bool {
    forall|i: int| 0 <= i < heard.len() ==> agrees(answers, #[trigger] heard[i])
}

/// A dictionary already heard has the word in the corpus of a language no
/// later than `l`: `l` can no longer win.
pub open spec fn outranked_in_corpus(heard: Seq<Heard>, l: Language) -> bool {
    exists|i: int|
        0 <= i < heard.len() && (#[trigger] heard[i] matches Heard::Stored(k, Some(s)) && s.is_known()
            && Weight::weight_of(s) == Weight::Corpus && k.position() <= l.position())
}

/// A rule already heard fires on the word for a language no later than `l`:
/// `l` can no longer win.
pub open spec fn outranked_by_rule(heard: Seq<Heard>, l: Language) -> bool {
    exists|i: int|
        0 <= i < heard.len() && (#[trigger] heard[i] matches Heard::Rule(g, Some(true)) && g.position()
            <= l.position())
}

/// Some dictionary already heard has the word on record: the word's language
/// is settled among the records, and no rule is asked for.
pub open spec fn heard_on_record(heard: Seq<Heard>) -> bool {
    exists|i: int|
        0 <= i < heard.len() && (#[trigger] heard[i] matches Heard::Stored(k, Some(s)) && s.is_known())
}

/// The dictionary of `l` was already asked with suffix rules off.
pub open spec fn asked_stored(heard: Seq<Heard>, l: Language) -> bool {
    exists|i: int| 0 <= i < heard.len() && (#[trigger] heard[i] matches Heard::Stored(k, _) && k == l)
}

/// The dictionary of `l` was already asked with suffix rules on.
pub open spec fn asked_rule(heard: Seq<Heard>, l: Language) -> bool {
    exists|i: int| 0 <= i < heard.len() && (#[trigger] heard[i] matches Heard::Rule(k, _) && k == l)
}

/// `l` stands in `candidates` at a place before which every candidate was
/// asked with suffix rules off or can no longer win: the list is gone through
/// in its order.
pub open spec fn stored_in_turn(candidates: Seq<Language>, heard: Seq<Heard>, l: Language) -> bool {
    exists|k: int|
        0 <= k < candidates.len() && #[trigger] candidates[k] == l && forall|j: int|
            0 <= j < k ==> asked_stored(heard, #[trigger] candidates[j]) || outranked_in_corpus(
                heard,
                candidates[j],
            )
}

/// `l` stands in `candidates` at a place before which every candidate was
/// asked with suffix rules on or can no longer win.
pub open spec fn rule_in_turn(candidates: Seq<Language>, heard: Seq<Heard>, l: Language) -> bool {
    exists|k: int|
        0 <= k < candidates.len() && #[trigger] candidates[k] == l && forall|j: int|
            0 <= j < k ==> asked_rule(heard, #[trigger] candidates[j]) || outranked_by_rule(
                heard,
                candidates[j],
            )
}

/// What to do next.
#[derive(PartialEq, Eq, Structural, Clone, Copy, Debug)]
pub enum Action {
    /// Ask the dictionary of the language, with suffix rules off, where it
    /// has the word; answer with `Resolver::stored`.
    AskStored(Language),
    /// Ask the dictionary of the language, with suffix rules on, whether it
    /// changes the word; answer with `Resolver::rule`.
    AskRule(Language),
    /// The language of the word, if there is one to say.
    Done(Option<Language>),
}

/// Where a resolution stands.
#[derive(Clone, Copy)]
struct Progress {
    next: usize,
    guessing: bool,
    pending: bool,
    done: bool,
    chosen: Option<(Weight, Language)>,
    guessed: Option<Language>,
    outcome: Option<Language>,
    heard: Ghost<Seq<Heard>>,
}

/// What holds of the answers that agree with everything heard so far.
spec fn progress_holds(c: Seq<Language>, p: Progress, answers: Answers) -> bool {
    if p.done {
        resolves(c, answers, p.outcome)
    } else if !p.guessing {
        match p.chosen {
            None => forall|j: int| 0 <= j < p.next ==> !knows(answers, #[trigger] c[j]),
            Some((w, l)) => {
                &&& c.contains(l)
                &&& knows(answers, l)
                &&& weight_in(answers, l) == w
                &&& forall|j: int|
                    0 <= j < p.next && knows(answers, #[trigger] c[j]) ==> ranks_before(
                        w,
                        l,
                        weight_in(answers, c[j]),
                        c[j],
                    )
            },
        }
    } else {
        &&& forall|j: int| 0 <= j < c.len() ==> !knows(answers, #[trigger] c[j])
        &&& match p.guessed {
            None => forall|j: int| 0 <= j < p.next ==> !guesses(answers, #[trigger] c[j]),
            Some(g) => {
                &&& c.contains(g)
                &&& guesses(answers, g)
                &&& forall|j: int|
                    0 <= j < p.next && guesses(answers, #[trigger] c[j]) ==> g.position()
                        <= c[j].position()
            },
        }
    }
}

/// The candidates are gone through in the order of the list: everyone before
/// the current place was asked or can no longer win, and nobody at or after it
/// was asked in this round yet.
spec fn in_order(c: Seq<Language>, p: Progress) -> bool {
    &&& p.chosen matches Some((Weight::Corpus, k)) ==> outranked_in_corpus(p.heard@, k)
    &&& p.guessed matches Some(g) ==> outranked_by_rule(p.heard@, g)
    &&& !p.guessing ==> forall|j: int|
        0 <= j < p.next ==> asked_stored(p.heard@, #[trigger] c[j]) || outranked_in_corpus(
            p.heard@,
            c[j],
        )
    &&& p.guessing ==> forall|j: int|
        0 <= j < p.next ==> asked_rule(p.heard@, #[trigger] c[j]) || outranked_by_rule(p.heard@, c[j])
    &&& p.guessing ==> forall|j: int| 0 <= j < c.len() ==> asked_stored(p.heard@, #[trigger] c[j])
    &&& forall|i: int|
        0 <= i < p.heard@.len() ==> match #[trigger] p.heard@[i] {
            Heard::Stored(k, _) => !p.guessing ==> c.take(p.next as int).contains(k),
            Heard::Rule(k, _) => p.guessing && c.take(p.next as int).contains(k),
        }
}

proof fn lemma_take_grows(c: Seq<Language>, n: int, k: Language)
    requires
        0 <= n < c.len(),
        c.take(n).contains(k),
    ensures
        c.take(n + 1).contains(k),
{
    let j = choose|j: int| 0 <= j < n && c.take(n)[j] == k;
    assert(c.take(n + 1)[j] == k);
}

/// What was heard stays heard.
proof fn lemma_heard_grows(heard: Seq<Heard>, h: Heard)
    ensures
        forall|l: Language| #[trigger] asked_stored(heard, l) ==> asked_stored(heard.push(h), l),
        forall|l: Language| #[trigger] asked_rule(heard, l) ==> asked_rule(heard.push(h), l),
        forall|l: Language| #[trigger] outranked_in_corpus(heard, l) ==> outranked_in_corpus(heard.push(h), l),
        forall|l: Language| #[trigger] outranked_by_rule(heard, l) ==> outranked_by_rule(heard.push(h), l),
{
    let h2 = heard.push(h);
    assert forall|i: int| 0 <= i < heard.len() implies #[trigger] h2[i] == heard[i] by {}
    assert forall|l: Language| #[trigger] asked_stored(heard, l) implies asked_stored(h2, l) by {
        let i = choose|i: int| 0 <= i < heard.len() && (#[trigger] heard[i] matches Heard::Stored(k, _) && k == l);
        assert(h2[i] == heard[i]);
    }
    assert forall|l: Language| #[trigger] asked_rule(heard, l) implies asked_rule(h2, l) by {
        let i = choose|i: int| 0 <= i < heard.len() && (#[trigger] heard[i] matches Heard::Rule(k, _) && k == l);
        assert(h2[i] == heard[i]);
    }
    assert forall|l: Language| #[trigger] outranked_in_corpus(heard, l) implies outranked_in_corpus(h2, l) by {
        let i = choose|i: int|
            0 <= i < heard.len() && (#[trigger] heard[i] matches Heard::Stored(k, Some(s)) && s.is_known()
                && Weight::weight_of(s) == Weight::Corpus && k.position() <= l.position());
        assert(h2[i] == heard[i]);
    }
    assert forall|l: Language| #[trigger] outranked_by_rule(heard, l) implies outranked_by_rule(h2, l) by {
        let i = choose|i: int|
            0 <= i < heard.len() && (#[trigger] heard[i] matches Heard::Rule(g, Some(true)) && g.position()
                <= l.position());
        assert(h2[i] == heard[i]);
    }
}

/// Whoever an earlier language outranks is outranked too.
proof fn lemma_outranked_later(heard: Seq<Heard>, k: Language, l: Language)
    requires
        k.position() <= l.position(),
    ensures
        outranked_in_corpus(heard, k) ==> outranked_in_corpus(heard, l),
        outranked_by_rule(heard, k) ==> outranked_by_rule(heard, l),
{
    if outranked_in_corpus(heard, k) {
        let i = choose|i: int|
            0 <= i < heard.len() && (#[trigger] heard[i] matches Heard::Stored(m, Some(s)) && s.is_known()
                && Weight::weight_of(s) == Weight::Corpus && m.position() <= k.position());
        assert(heard[i] matches Heard::Stored(m, Some(s)) && s.is_known() && Weight::weight_of(s)
            == Weight::Corpus && m.position() <= l.position());
    }
    if outranked_by_rule(heard, k) {
        let i = choose|i: int|
            0 <= i < heard.len() && (#[trigger] heard[i] matches Heard::Rule(g, Some(true)) && g.position()
                <= k.position());
        assert(heard[i] matches Heard::Rule(g, Some(true)) && g.position() <= l.position());
    }
}

/// The candidate at the current place is asked in turn, and, where no
/// candidate occurs twice, for the first time in this round.
proof fn lemma_current_in_turn(c: Seq<Language>, p: Progress)
    requires
        in_order(c, p),
        p.next < c.len(),
    ensures
        !p.guessing ==> stored_in_turn(c, p.heard@, c[p.next as int]),
        p.guessing ==> rule_in_turn(c, p.heard@, c[p.next as int]),
        c.no_duplicates() && !p.guessing ==> !asked_stored(p.heard@, c[p.next as int]),
        c.no_duplicates() && p.guessing ==> !asked_rule(p.heard@, c[p.next as int]),
{
    let n = p.next as int;
    let l = c[n];
    if c.no_duplicates() {
        if !p.guessing && asked_stored(p.heard@, l) {
            let i = choose|i: int| 0 <= i < p.heard@.len() && (#[trigger] p.heard@[i] matches Heard::Stored(k, _) && k == l);
            assert(c.take(n).contains(l));
            let j = choose|j: int| 0 <= j < n && c.take(n)[j] == l;
            assert(c[j] == c[n]);
        }
        if p.guessing && asked_rule(p.heard@, l) {
            let i = choose|i: int| 0 <= i < p.heard@.len() && (#[trigger] p.heard@[i] matches Heard::Rule(k, _) && k == l);
            assert(c.take(n).contains(l));
            let j = choose|j: int| 0 <= j < n && c.take(n)[j] == l;
            assert(c[j] == c[n]);
        }
    }
}

/// Resolves the language of one word, asking one dictionary at a time.
pub struct Resolver {
    candidates: Vec<Language>,
    progress: Progress,
}

impl Resolver {
    /// The candidate languages.
    pub closed spec fn candidates(&self) -> Seq<Language> {
        self.candidates@
    }

    /// The answers heard so far.
    pub closed spec fn heard(&self) -> Seq<Heard> {
        self.progress.heard@
    }

    /// The question asked last awaits its answer.
    pub closed spec fn awaiting(&self) -> Option<Action> {
        if self.progress.pending {
            if self.progress.guessing {
                Some(Action::AskRule(self.candidates@[self.progress.next as int]))
            } else {
                Some(Action::AskStored(self.candidates@[self.progress.next as int]))
            }
        } else {
            None
        }
    }

    /// How many more questions can be asked, at most: each candidate once with
    /// rules off, then each candidate once with rules on.
    pub closed spec fn questions_left(&self) -> nat {
        let c = self.candidates@;
        let p = self.progress;
        if p.done {
            0
        } else if !p.guessing {
            ((c.len() - p.next) + c.len()) as nat
        } else {
            (c.len() - p.next) as nat
        }
    }

    #[verifier::type_invariant]
    spec fn sound(&self) -> bool {
        let c = self.candidates@;
        let p = self.progress;
        &&& p.next <= c.len()
        &&& p.pending ==> p.next < c.len() && !p.done
        &&& p.guessing ==> p.chosen is None
        &&& !p.guessing ==> p.guessed is None
        &&& p.pending && p.guessing ==> match p.guessed {
            Some(g) => c[p.next as int].position() < g.position(),
            None => true,
        }
        &&& forall|i: int|
            0 <= i < p.heard@.len() ==> match #[trigger] p.heard@[i] {
                Heard::Stored(k, Some(s)) => s.is_known() ==> (p.chosen matches Some((w, b))
                    && ranks_before(w, b, Weight::weight_of(s), k)),
                Heard::Rule(g, Some(true)) => p.guessed matches Some(x) && x.position() <= g.position(),
                _ => true,
            }
        &&& in_order(c, p)
        &&& p.pending && !p.guessing ==> !outranked_in_corpus(p.heard@, c[p.next as int])
        &&& p.pending && p.guessing ==> !outranked_by_rule(p.heard@, c[p.next as int])
        &&& forall|answers: Answers| #[trigger]
            consistent(p.heard@, answers) ==> progress_holds(c, p, answers)
    }

    /// Starts resolving a word among `candidates`.
    pub fn new(candidates: &[Language]) -> (r: Resolver)
        ensures
            r.candidates() == candidates@,
            r.heard() == Seq::<Heard>::empty(),
            r.awaiting() is None,
            r.questions_left() == 2 * candidates@.len(),
    {
        let mut v: Vec<Language> = Vec::new();
        let mut i: usize = 0;
        while i < candidates.len()
            invariant
                i <= candidates@.len(),
                v@ == candidates@.take(i as int),
            decreases candidates@.len() - i,
        {
            v.push(candidates[i]);
            assert(v@ =~= candidates@.take(i + 1));
            i = i + 1;
        }
        assert(v@ =~= candidates@);
        Resolver {
            candidates: v,
            progress: Progress {
                next: 0,
                guessing: false,
                pending: false,
                done: false,
                chosen: None,
                guessed: None,
                outcome: None,
                heard: Ghost(Seq::empty()),
            },
        }
    }

    /// What to do next: ask a dictionary, or take the language of the word.
    /// Asked again before the answer comes, it asks the same question. The
    /// candidates are asked in the order of the list, first with suffix rules
    /// off, then, if nobody has the word on record, with them on; whoever can
    /// no longer win is passed over.
    #[verifier::rlimit(40)]
    pub fn next(&mut self) -> (a: Action)
        ensures
            final(self).candidates() == old(self).candidates(),
            final(self).heard() == old(self).heard(),
            final(self).questions_left() <= old(self).questions_left(),
            match a {
                Action::Done(r) => {
                    &&& final(self).awaiting() is None
                    &&& forall|answers: Answers|
                        consistent(final(self).heard(), answers) ==> resolves(
                            final(self).candidates(),
                            answers,
                            r,
                        )
                },
                Action::AskStored(l) => {
                    &&& final(self).awaiting() == Some(a)
                    &&& final(self).candidates().contains(l)
                    &&& !outranked_in_corpus(final(self).heard(), l)
                    &&& stored_in_turn(final(self).candidates(), final(self).heard(), l)
                    &&& final(self).candidates().no_duplicates() ==> !asked_stored(final(self).heard(), l)
                },
                Action::AskRule(l) => {
                    &&& final(self).awaiting() == Some(a)
                    &&& final(self).candidates().contains(l)
                    &&& !outranked_by_rule(final(self).heard(), l)
                    &&& !heard_on_record(final(self).heard())
                    &&& forall|j: int|
                        0 <= j < final(self).candidates().len() ==> asked_stored(
                            final(self).heard(),
                            #[trigger] final(self).candidates()[j],
                        )
                    &&& rule_in_turn(final(self).candidates(), final(self).heard(), l)
                    &&& final(self).candidates().no_duplicates() ==> !asked_rule(final(self).heard(), l)
                },
            },
    {
        proof {
            use_type_invariant(&*self);
        }
        let mut p = self.progress;
        let ghost c = self.candidates@;
        if p.done {
            return Action::Done(p.outcome);
        }
        if p.pending {
            proof {
                lemma_current_in_turn(c, p);
            }
            let l = self.candidates[p.next];
            if p.guessing {
                return Action::AskRule(l);
            } else {
                return Action::AskStored(l);
            }
        }
        if !p.guessing {
            while p.next < self.candidates.len()
                invariant
                    c == self.candidates@,
                    p.next <= c.len(),
                    !p.guessing,
                    p.guessed is None,
                    !p.pending,
                    !p.done,
                    p.heard@ == old(self).progress.heard@,
                    self.candidates@ == old(self).candidates@,
                    self.progress.heard@ == old(self).progress.heard@,
                    p.chosen == self.progress.chosen,
                    p.guessed == self.progress.guessed,
                    p.next >= old(self).progress.next,
                    !old(self).progress.guessing,
                    !old(self).progress.done,
                    forall|i: int|
                        0 <= i < p.heard@.len() ==> match #[trigger] p.heard@[i] {
                            Heard::Stored(k, Some(s)) => s.is_known() ==> (p.chosen matches Some((w, b))
                                && ranks_before(w, b, Weight::weight_of(s), k)),
                            Heard::Rule(g, Some(true)) => p.guessed matches Some(x) && x.position() <= g.position(),
                            _ => true,
                        },
                    in_order(c, p),
                    forall|answers: Answers| #[trigger]
                        consistent(p.heard@, answers) ==> progress_holds(c, p, answers),
                decreases c.len() - p.next,
            {
                let l = self.candidates[p.next];
                let skip = match p.chosen {
                    Some((Weight::Corpus, k)) => k.rank() <= l.rank(),
                    _ => false,
                };
                if !skip {
                    p.pending = true;
                    proof {
                        lemma_current_in_turn(c, p);
                    }
                    self.progress = p;
                    return Action::AskStored(l);
                }
                proof {
                    if let Some((_, k)) = p.chosen {
                        lemma_outranked_later(p.heard@, k, l);
                    }
                    let q = Progress { next: (p.next + 1) as usize, ..p };
                    assert forall|i: int| 0 <= i < p.heard@.len() implies match #[trigger] p.heard@[i] {
                        Heard::Stored(k, _) => c.take(q.next as int).contains(k),
                        _ => true,
                    } by {
                        if let Heard::Stored(k, _) = p.heard@[i] {
                            lemma_take_grows(c, p.next as int, k);
                        }
                    }
                }
                p.next = p.next + 1;
            }
            let ghost finished = p;
            match p.chosen {
                Some((_, l)) => {
                    p.done = true;
                    p.outcome = Some(l);
                    proof {
                        assert forall|answers: Answers| #[trigger]
                            consistent(p.heard@, answers) implies resolves(c, answers, p.outcome) by {
                            assert(progress_holds(c, finished, answers));
                            assert forall|m: Language| #![trigger c.contains(m)] c.contains(m) && knows(
                                answers,
                                m,
                            ) implies ranks_before(
                                weight_in(answers, l),
                                l,
                                weight_in(answers, m),
                                m,
                            ) by {
                                let j = choose|j: int| 0 <= j < c.len() && c[j] == m;
                                assert(knows(answers, c[j]));
                            }
                        }
                    }
                    self.progress = p;
                    return Action::Done(Some(l));
                },
                None => {
                    proof {
                        assert forall|j: int| 0 <= j < c.len() implies asked_stored(p.heard@, #[trigger] c[j]) by {
                            if !asked_stored(p.heard@, c[j]) {
                                assert(outranked_in_corpus(p.heard@, c[j]));
                                let i = choose|i: int|
                                    0 <= i < p.heard@.len() && (#[trigger] p.heard@[i] matches Heard::Stored(k, Some(s))
                                        && s.is_known() && Weight::weight_of(s) == Weight::Corpus && k.position()
                                        <= c[j].position());
                                assert(p.heard@[i] matches Heard::Stored(k, Some(s)) && s.is_known());
                            }
                        }
                    }
                    p.guessing = true;
                    p.next = 0;
                    proof {
                        assert forall|answers: Answers| #[trigger]
                            consistent(p.heard@, answers) implies progress_holds(c, p, answers) by {
                            assert(progress_holds(c, finished, answers));
                        }
                    }
                },
            }
        }
        while p.next < self.candidates.len()
            invariant
                c == self.candidates@,
                p.next <= c.len(),
                p.guessing,
                p.chosen is None,
                !p.pending,
                !p.done,
                p.heard@ == old(self).progress.heard@,
                self.candidates@ == old(self).candidates@,
                self.progress.heard@ == old(self).progress.heard@,
                old(self).progress.guessing ==> p.next >= old(self).progress.next,
                old(self).progress.next <= c.len(),
                !old(self).progress.done,
                forall|i: int|
                    0 <= i < p.heard@.len() ==> match #[trigger] p.heard@[i] {
                        Heard::Stored(k, Some(s)) => s.is_known() ==> (p.chosen matches Some((w, b))
                            && ranks_before(w, b, Weight::weight_of(s), k)),
                        Heard::Rule(g, Some(true)) => p.guessed matches Some(x) && x.position() <= g.position(),
                        _ => true,
                    },
                in_order(c, p),
                forall|answers: Answers| #[trigger]
                    consistent(p.heard@, answers) ==> progress_holds(c, p, answers),
            decreases c.len() - p.next,
        {
            let l = self.candidates[p.next];
            let skip = match p.guessed {
                Some(g) => g.rank() <= l.rank(),
                None => false,
            };
            if !skip {
                p.pending = true;
                proof {
                    lemma_current_in_turn(c, p);
                }
                self.progress = p;
                return Action::AskRule(l);
            }
            proof {
                if let Some(g) = p.guessed {
                    lemma_outranked_later(p.heard@, g, l);
                }
                let q = Progress { next: (p.next + 1) as usize, ..p };
                assert forall|i: int| 0 <= i < p.heard@.len() implies match #[trigger] p.heard@[i] {
                    Heard::Rule(k, _) => c.take(q.next as int).contains(k),
                    _ => true,
                } by {
                    if let Heard::Rule(k, _) = p.heard@[i] {
                        lemma_take_grows(c, p.next as int, k);
                    }
                }
            }
            p.next = p.next + 1;
        }
        let ghost finished = p;
        p.done = true;
        p.outcome = p.guessed;
        proof {
            assert forall|answers: Answers| #[trigger]
                consistent(p.heard@, answers) implies resolves(c, answers, p.outcome) by {
                assert(progress_holds(c, finished, answers));
                if some_knows(c, answers) {
                    let m = choose|m: Language| #[trigger] c.contains(m) && knows(answers, m);
                    let j = choose|j: int| 0 <= j < c.len() && c[j] == m;
                    assert(!knows(answers, c[j]));
                }
                match p.guessed {
                    Some(g) => {
                        assert forall|m: Language| #![trigger c.contains(m)] c.contains(m) && guesses(
                            answers,
                            m,
                        ) implies g.position() <= m.position() by {
                            let j = choose|j: int| 0 <= j < c.len() && c[j] == m;
                            assert(guesses(answers, c[j]));
                        }
                    },
                    None => {
                        if some_guesses(c, answers) {
                            let m = choose|m: Language| #[trigger] c.contains(m) && guesses(answers, m);
                            let j = choose|j: int| 0 <= j < c.len() && c[j] == m;
                            assert(!guesses(answers, c[j]));
                        }
                    },
                }
            }
        }
        self.progress = p;
        Action::Done(p.outcome)
    }

    /// The answer to `AskStored`: `None` when the language has no dictionary,
    /// else where the dictionary has the word. Given when no such question
    /// awaits its answer, it changes nothing.
    pub fn stored(&mut self, answer: Option<Source>)
        ensures
            final(self).candidates() == old(self).candidates(),
            match old(self).awaiting() {
                Some(Action::AskStored(l)) => {
                    &&& final(self).heard() == old(self).heard().push(Heard::Stored(l, answer))
                    &&& final(self).awaiting() is None
                    &&& final(self).questions_left() < old(self).questions_left()
                },
                _ => final(self).heard() == old(self).heard() && final(self).awaiting() == old(self).awaiting()
                    && final(self).questions_left() == old(self).questions_left(),
            },
    {
        proof {
            use_type_invariant(&*self);
        }
        let mut p = self.progress;
        if !p.pending || p.guessing {
            return;
        }
        let ghost c = self.candidates@;
        let ghost old_p = p;
        let count = self.candidates.len();
        assert(p.next < count);
        let l = self.candidates[p.next];
        p.heard = Ghost(p.heard@.push(Heard::Stored(l, answer)));
        match answer {
            Some(source) => {
                if !(source == Source::Unknown) {
                    let candidate = (Weight::of(source), l);
                    let better = match p.chosen {
                        None => true,
                        Some((w, k)) => match (candidate.0, w) {
                            (Weight::Corpus, Weight::External) => true,
                            (Weight::External, Weight::Corpus) => false,
                            _ => l.rank() < k.rank(),
                        },
                    };
                    if better {
                        p.chosen = Some(candidate);
                        proof {
                            let last = p.heard@.len() - 1;
                            assert(p.heard@[last] matches Heard::Stored(m, Some(s)) && s.is_known()
                                && Weight::weight_of(s) == Weight::weight_of(source) && m.position()
                                <= l.position());
                        }
                    }
                }
            },
            None => {},
        }
        p.pending = false;
        p.next = p.next + 1;
        proof {
            lemma_heard_grows(old_p.heard@, Heard::Stored(l, answer));
            let n = old_p.next as int;
            let last = p.heard@.len() - 1;
            assert(p.heard@[last] == Heard::Stored(l, answer));
            assert forall|j: int| 0 <= j < p.next implies asked_stored(p.heard@, #[trigger] c[j])
                || outranked_in_corpus(p.heard@, c[j]) by {
                if j == n {
                    assert(p.heard@[last] matches Heard::Stored(k, _) && k == c[j]);
                }
            }
            assert forall|i: int| 0 <= i < p.heard@.len() implies match #[trigger] p.heard@[i] {
                Heard::Stored(k, _) => !p.guessing ==> c.take(p.next as int).contains(k),
                Heard::Rule(k, _) => p.guessing && c.take(p.next as int).contains(k),
            } by {
                if i < last {
                    assert(p.heard@[i] == old_p.heard@[i]);
                    if let Heard::Stored(k, _) = p.heard@[i] {
                        lemma_take_grows(c, n, k);
                    }
                } else {
                    assert(c.take(n + 1)[n] == l);
                }
            }
            assert(in_order(c, p));
            assert forall|answers: Answers| #[trigger] consistent(p.heard@, answers) implies progress_holds(
                c,
                p,
                answers,
            ) by {
                assert(consistent(old_p.heard@, answers)) by {
                    assert forall|i: int| 0 <= i < old_p.heard@.len() implies agrees(
                        answers,
                        #[trigger] old_p.heard@[i],
                    ) by {
                        assert(p.heard@[i] == old_p.heard@[i]);
                    }
                }
                assert(progress_holds(c, old_p, answers));
                assert(agrees(answers, p.heard@[p.heard@.len() - 1]));
                let n = old_p.next as int;
                assert(c[n] == l);
                assert(c.contains(l));
            }
        }
        self.progress = p;
    }

    /// The answer to `AskRule`: `None` when the language has no dictionary,
    /// else whether its rules change the word. Given when no such question
    /// awaits its answer, it changes nothing.
    pub fn rule(&mut self, answer: Option<bool>)
        ensures
            final(self).candidates() == old(self).candidates(),
            match old(self).awaiting() {
                Some(Action::AskRule(l)) => {
                    &&& final(self).heard() == old(self).heard().push(Heard::Rule(l, answer))
                    &&& final(self).awaiting() is None
                    &&& final(self).questions_left() < old(self).questions_left()
                },
                _ => final(self).heard() == old(self).heard() && final(self).awaiting() == old(self).awaiting()
                    && final(self).questions_left() == old(self).questions_left(),
            },
    {
        proof {
            use_type_invariant(&*self);
        }
        let mut p = self.progress;
        if !p.pending || !p.guessing {
            return;
        }
        let ghost c = self.candidates@;
        let ghost old_p = p;
        let count = self.candidates.len();
        assert(p.next < count);
        let l = self.candidates[p.next];
        p.heard = Ghost(p.heard@.push(Heard::Rule(l, answer)));
        match answer {
            Some(true) => {
                p.guessed = Some(l);
                proof {
                    let last = p.heard@.len() - 1;
                    assert(p.heard@[last] matches Heard::Rule(g, Some(true)) && g.position() <= l.position());
                }
            },
            _ => {},
        }
        p.pending = false;
        p.next = p.next + 1;
        proof {
            lemma_heard_grows(old_p.heard@, Heard::Rule(l, answer));
            let n = old_p.next as int;
            let last = p.heard@.len() - 1;
            assert(p.heard@[last] == Heard::Rule(l, answer));
            assert forall|j: int| 0 <= j < p.next implies asked_rule(p.heard@, #[trigger] c[j])
                || outranked_by_rule(p.heard@, c[j]) by {
                if j == n {
                    assert(p.heard@[last] matches Heard::Rule(k, _) && k == c[j]);
                }
            }
            assert forall|i: int| 0 <= i < p.heard@.len() implies match #[trigger] p.heard@[i] {
                Heard::Stored(k, _) => !p.guessing ==> c.take(p.next as int).contains(k),
                Heard::Rule(k, _) => p.guessing && c.take(p.next as int).contains(k),
            } by {
                if i < last {
                    assert(p.heard@[i] == old_p.heard@[i]);
                    if let Heard::Rule(k, _) = p.heard@[i] {
                        lemma_take_grows(c, n, k);
                    }
                } else {
                    assert(c.take(n + 1)[n] == l);
                }
            }
            assert(in_order(c, p));
            assert forall|answers: Answers| #[trigger] consistent(p.heard@, answers) implies progress_holds(
                c,
                p,
                answers,
            ) by {
                assert(consistent(old_p.heard@, answers)) by {
                    assert forall|i: int| 0 <= i < old_p.heard@.len() implies agrees(
                        answers,
                        #[trigger] old_p.heard@[i],
                    ) by {
                        assert(p.heard@[i] == old_p.heard@[i]);
                    }
                }
                assert(progress_holds(c, old_p, answers));
                assert(agrees(answers, p.heard@[p.heard@.len() - 1]));
                let n = old_p.next as int;
                assert(c[n] == l);
                assert(c.contains(l));
            }
        }
        self.progress = p;
    }
}

/// The language of a word is determined: two resolutions of one word among
/// the same candidates, with the same answers, agree.
pub proof fn lemma_resolution_unique(
    candidates: Seq<Language>,
    answers: Answers,
    r1: Option<Language>,
    r2: Option<Language>,
)
    requires
        resolves(candidates, answers, r1),
        resolves(candidates, answers, r2),
    ensures
        r1 == r2,
{
    if some_knows(candidates, answers) {
        let l1 = r1->0;
        let l2 = r2->0;
        assert(candidates.contains(l2));
        assert(candidates.contains(l1));
        l1.lemma_position_injective(l2);
    } else if some_guesses(candidates, answers) {
        let l1 = r1->0;
        let l2 = r2->0;
        assert(candidates.contains(l2));
        assert(candidates.contains(l1));
        l1.lemma_position_injective(l2);
    }
}

/// The answer depends on the set of candidate languages, not on their order
/// or repetition.
pub proof fn lemma_resolution_ignores_order(
    c1: Seq<Language>,
    c2: Seq<Language>,
    answers: Answers,
    r: Option<Language>,
)
    requires
        c1.to_set() == c2.to_set(),
    ensures
        resolves(c1, answers, r) <==> resolves(c2, answers, r),
{
    assert forall|l: Language| #[trigger] c1.contains(l) <==> c2.contains(l) by {
        assert(c1.contains(l) <==> c1.to_set().contains(l));
        assert(c2.contains(l) <==> c2.to_set().contains(l));
    }
    if some_knows(c1, answers) {
        let l = choose|l: Language| #[trigger] c1.contains(l) && knows(answers, l);
        assert(c2.contains(l));
    }
    if some_knows(c2, answers) {
        let l = choose|l: Language| #[trigger] c2.contains(l) && knows(answers, l);
        assert(c1.contains(l));
    }
    if some_guesses(c1, answers) {
        let l = choose|l: Language| #[trigger] c1.contains(l) && guesses(answers, l);
        assert(c2.contains(l));
    }
    if some_guesses(c2, answers) {
        let l = choose|l: Language| #[trigger] c2.contains(l) && guesses(answers, l);
        assert(c1.contains(l));
    }
    if r is Some {
        let l = r->0;
        if best_known(c1, answers, l) {
            assert forall|m: Language| #![trigger c2.contains(m)] c2.contains(m) && knows(answers, m) implies ranks_before(
                weight_in(answers, l), l, weight_in(answers, m), m) by {
                assert(c1.contains(m));
            }
        }
        if best_known(c2, answers, l) {
            assert forall|m: Language| #![trigger c1.contains(m)] c1.contains(m) && knows(answers, m) implies ranks_before(
                weight_in(answers, l), l, weight_in(answers, m), m) by {
                assert(c2.contains(m));
            }
        }
        if best_guess(c1, answers, l) {
            assert forall|m: Language| #![trigger c2.contains(m)] c2.contains(m) && guesses(answers, m) implies l.position() <= m.position() by {
                assert(c1.contains(m));
            }
        }
        if best_guess(c2, answers, l) {
            assert forall|m: Language| #![trigger c1.contains(m)] c1.contains(m) && guesses(answers, m) implies l.position() <= m.position() by {
                assert(c2.contains(m));
            }
        }
    }
}

/// A word that the corpus of some candidate holds goes to a language whose
/// corpus holds it, never to an external reference.
pub proof fn lemma_corpus_outweighs_reference(
    candidates: Seq<Language>,
    answers: Answers,
    r: Option<Language>,
    witness: Language,
)
    requires
        candidates.contains(witness),
        knows(answers, witness),
        weight_in(answers, witness) == Weight::Corpus,
        resolves(candidates, answers, r),
    ensures
        r matches Some(l) && knows(answers, l) && weight_in(answers, l) == Weight::Corpus,
{
    assert(some_knows(candidates, answers));
}

/// The answer is always a candidate with a dictionary, and there is an answer
/// exactly when some candidate's dictionary has the word or a rule fires on it.
pub proof fn lemma_resolution_is_a_candidate(
    candidates: Seq<Language>,
    answers: Answers,
    r: Option<Language>,
)
    requires
        resolves(candidates, answers, r),
    ensures
        r matches Some(l) ==> candidates.contains(l) && answers(l).dictionary,
        r is None <==> !some_knows(candidates, answers) && !some_guesses(candidates, answers),
{
}

} // verus!
