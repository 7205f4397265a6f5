//! Warning when an index was filled by other dictionaries than the loaded ones,
//! once per index for the lifetime of the process.
//!
//! An index stores lemmas, not the words the documents spell: a query
//! lemmatized by another bundle asks for something the index never wrote.
//! Nothing fails when that happens, the words are simply not found, so the
//! difference is said out loud.

use vstd::prelude::*;
use crate::generations::Generations;
use crate::lemmatizer::{generations, Lemmatizer};
use crate::mismatch::{changed_codes, covers, missing_codes, rendering, Mismatch};
use crate::text::same_text;

verus! {

/// The indexes already compared with the loaded dictionaries.
///
/// An index is checked under the pair of what lies on disk (its uuid) and the
/// name it answers to (its uid): swapping indexes changes the first under the
/// second, renaming the second over the first, and either must be checked anew.
pub struct IndexChecks {
    seen: Vec<(u128, String)>,
}

impl View for IndexChecks {
    type V = Set<(u128, Seq<char>)>;

    closed spec fn view(&self) -> Set<(u128, Seq<char>)> {
        Set::new(
            |p: (u128, Seq<char>)|
                exists|i: int| 0 <= i < self.seen@.len() && #[trigger] self.seen@[i].0 == p.0 && self.seen@[i].1@ == p.1,
        )
    }
}

impl IndexChecks {
    /// No index checked yet.
    pub fn new() -> (c: Self)
        ensures
            c@ == Set::<(u128, Seq<char>)>::empty(),
    {
        let c = IndexChecks { seen: Vec::new() };
        assert(c@ =~= Set::<(u128, Seq<char>)>::empty());
        c
    }

    /// Marks the index as checked; whether it had not been before.
    pub fn first_check(&mut self, uuid: u128, uid: &str) -> (fresh: bool)
        ensures
            final(self)@ == old(self)@.insert((uuid, uid@)),
            fresh == !old(self)@.contains((uuid, uid@)),
    {
        let mut i: usize = 0;
        while i < self.seen.len()
            invariant
                self.seen@ == old(self).seen@,
                i <= self.seen@.len(),
                forall|j: int| 0 <= j < i ==> !(#[trigger] self.seen@[j].0 == uuid && self.seen@[j].1@ == uid@),
            decreases self.seen@.len() - i,
        {
            if self.seen[i].0 == uuid && same_text(self.seen[i].1.as_str(), uid) {
                proof {
                    assert(self@.contains((uuid, uid@)));
                    assert(self@.insert((uuid, uid@)) =~= self@);
                }
                return false;
            }
            i = i + 1;
        }
        let ghost before = self@;
        self.seen.push((uuid, uid.to_owned()));
        proof {
            assert(!before.contains((uuid, uid@)));
            assert forall|p: (u128, Seq<char>)| #[trigger] self@.contains(p) == before.insert((uuid, uid@)).contains(p) by {
                if self@.contains(p) {
                    let j = choose|j: int| 0 <= j < self.seen@.len() && #[trigger] self.seen@[j].0 == p.0 && self.seen@[j].1@ == p.1;
                    if j < self.seen@.len() - 1 {
                        assert(old(self).seen@[j] == self.seen@[j]);
                    }
                }
                if before.contains(p) {
                    let j = choose|j: int| 0 <= j < old(self).seen@.len() && #[trigger] old(self).seen@[j].0 == p.0 && old(self).seen@[j].1@ == p.1;
                    assert(self.seen@[j] == old(self).seen@[j]);
                }
                if p == (uuid, uid@) {
                    assert(self.seen@[self.seen@.len() - 1].0 == uuid);
                }
            }
            assert(self@ =~= before.insert((uuid, uid@)));
        }
        true
    }
}

/// The generations of the dictionaries of a process.
pub open spec fn loaded_stamps(lemmatizer: Option<&Lemmatizer>) -> Map<Seq<char>, Seq<char>> {
    match lemmatizer {
        Some(l) => l.stamps(),
        None => Map::<Seq<char>, Seq<char>>::empty(),
    }
}

/// What a check says of an index whose records are `recorded`: nothing when
/// the loaded generations cover them, else the mismatch.
pub open spec fn verdict(recorded: Generations, loaded: Map<Seq<char>, Seq<char>>) -> Option<Seq<char>> {
    if covers(loaded, recorded@) {
        None
    } else {
        Some(rendering(missing_codes(recorded.entries(), loaded), changed_codes(recorded.entries(), loaded)))
    }
}

/// Checks an index against the loaded dictionaries, once per index for the
/// lifetime of `checks`: `Some` text of the mismatch to warn about, `None`
/// when there is nothing to say.
///
/// `recorded` reads what filled the index; it is called only on the first
/// check of an index, which keeps this affordable on the path of every index
/// access. An index last written before generations were recorded holds none,
/// and there is nothing to compare it against: it is passed over rather than
/// accused. The next indexing stamps it.
pub fn check_index<E, F>(
    checks: &mut IndexChecks,
    uid: &str,
    uuid: u128,
    lemmatizer: Option<&Lemmatizer>,
    recorded: F,
) -> (r: Result<Option<String>, E>)
    where
        F: FnOnce() -> Result<Option<Generations>, E>,
    requires
        recorded.requires(()),
    ensures
        final(checks)@ == old(checks)@.insert((uuid, uid@)),
        old(checks)@.contains((uuid, uid@)) ==> r is Ok && r->Ok_0 is None,
        !old(checks)@.contains((uuid, uid@)) ==> exists|read: Result<Option<Generations>, E>|
            #[trigger] recorded.ensures((), read) && match read {
                Err(e) => r == Err::<Option<String>, E>(e),
                Ok(None) => r is Ok && r->Ok_0 is None,
                Ok(Some(g)) => r is Ok && match (r->Ok_0, verdict(g, loaded_stamps(lemmatizer))) {
                    (Some(w), Some(v)) => w@ == v,
                    (None, None) => true,
                    _ => false,
                },
            },
{
    if !checks.first_check(uuid, uid) {
        return Ok(None);
    }
    let read = recorded();
    warning_from_records(read, lemmatizer)
}

/// What a first check of an index says, once its records were read as `read`:
/// the reader's error as it came, nothing for an index that holds no records,
/// else the warning of `mismatch_warning`.
pub fn warning_from_records<E>(read: Result<Option<Generations>, E>, lemmatizer: Option<&Lemmatizer>) -> (r: Result<
    Option<String>,
    E,
>)
    ensures
        match read {
            Err(e) => r == Err::<Option<String>, E>(e),
            Ok(None) => r is Ok && r->Ok_0 is None,
            Ok(Some(g)) => r is Ok && match (r->Ok_0, verdict(g, loaded_stamps(lemmatizer))) {
                (Some(w), Some(v)) => w@ == v,
                (None, None) => true,
                _ => false,
            },
        },
{
    match read {
        Err(e) => Err(e),
        Ok(None) => Ok(None),
        Ok(Some(g)) => Ok(mismatch_warning(&g, lemmatizer)),
    }
}

/// What to warn about an index whose records are `recorded`: the text of the
/// mismatch with the loaded dictionaries, or `None` when they cover the records.
pub fn mismatch_warning(recorded: &Generations, lemmatizer: Option<&Lemmatizer>) -> (w: Option<String>)
    ensures
        match (w, verdict(*recorded, loaded_stamps(lemmatizer))) {
            (Some(w), Some(v)) => w@ == v,
            (None, None) => true,
            _ => false,
        },
{
    let loaded = generations(lemmatizer);
    let mismatch = Mismatch::between(recorded, &loaded);
    if mismatch.is_empty() {
        return None;
    }
    Some(mismatch.to_string())
}

/// Once an index has been checked, it stays checked: a second check under the
/// same uuid and uid finds it marked and says nothing.
pub proof fn lemma_second_check_is_silent(seen: Set<(u128, Seq<char>)>, uuid: u128, uid: Seq<char>)
    ensures
        seen.insert((uuid, uid)).contains((uuid, uid)),
        seen.insert((uuid, uid)).insert((uuid, uid)) == seen.insert((uuid, uid)),
{
    assert(seen.insert((uuid, uid)).insert((uuid, uid)) =~= seen.insert((uuid, uid)));
}

} // verus!
