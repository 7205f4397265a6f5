//! How the dictionaries that filled an index differ from the loaded ones.
//!
//! The comparison follows the index's records and only them: a language that
//! a bundle gained touched no word of the index, so it is no mismatch.

use vstd::prelude::*;
use crate::generations::{keys_ascending, map_of, Generations};
use crate::text::{
    decimal, push_decimal, push_text, string_from_chars, text_lt,
};

verus! {

/// How many codes a list names before it sums the rest up.
pub const LISTED_CODES: usize = 8;

/// The codes of `recorded`, in order, that `loaded` does not hold.
pub open spec fn missing_codes(
    recorded: Seq<(Seq<char>, Seq<char>)>,
    loaded: Map<Seq<char>, Seq<char>>,
) -> Seq<Seq<char>>
    decreases recorded.len(),
{
    if recorded.len() == 0 {
        Seq::empty()
    } else {
        let earlier = missing_codes(recorded.drop_last(), loaded);
        if !loaded.contains_key(recorded.last().0) {
            earlier.push(recorded.last().0)
        } else {
            earlier
        }
    }
}

/// The codes of `recorded`, in order, that `loaded` holds with another generation.
pub open spec fn changed_codes(
    recorded: Seq<(Seq<char>, Seq<char>)>,
    loaded: Map<Seq<char>, Seq<char>>,
) -> Seq<Seq<char>>
    decreases recorded.len(),
{
    if recorded.len() == 0 {
        Seq::empty()
    } else {
        let earlier = changed_codes(recorded.drop_last(), loaded);
        let (code, generation) = recorded.last();
        if loaded.contains_key(code) && loaded[code] != generation {
            earlier.push(code)
        } else {
            earlier
        }
    }
}

/// Every code of `recorded` is in `loaded`, with the same generation.
pub open spec fn covers(
    loaded: Map<Seq<char>, Seq<char>>,
    recorded: Map<Seq<char>, Seq<char>>,
) -> bool {
    forall|k: Seq<char>| #[trigger]
        recorded.contains_key(k) ==> loaded.contains_key(k) && loaded[k] == recorded[k]
}

/// The texts of `list`, with `sep` between each two.
pub open spec fn joined(list: Seq<Seq<char>>, sep: Seq<char>) -> Seq<char>
    decreases list.len(),
{
    if list.len() == 0 {
        Seq::empty()
    } else if list.len() == 1 {
        list[0]
    } else {
        joined(list.drop_last(), sep) + sep + list.last()
    }
}

/// The codes as a list names them: the first `LISTED_CODES` of them, then
/// how many more there are.
pub open spec fn listing(codes: Seq<Seq<char>>) -> Seq<char> {
    if codes.len() <= LISTED_CODES {
        joined(codes, ", "@)
    } else {
        joined(codes.take(LISTED_CODES as int), ", "@) + " and "@ + decimal(
            (codes.len() - LISTED_CODES) as nat,
        ) + " more"@
    }
}

/// One labelled list.
pub open spec fn section(label: Seq<char>, codes: Seq<Seq<char>>) -> Seq<char> {
    label + ": "@ + listing(codes)
}

/// The text of a mismatch: its non-empty lists, missing codes first,
/// separated by "; ".
pub open spec fn rendering(missing: Seq<Seq<char>>, changed: Seq<Seq<char>>) -> Seq<char> {
    if missing.len() == 0 && changed.len() == 0 {
        Seq::empty()
    } else if missing.len() == 0 {
        section("changed"@, changed)
    } else if changed.len() == 0 {
        section("missing"@, missing)
    } else {
        section("missing"@, missing) + "; "@ + section("changed"@, changed)
    }
}

/// How the dictionaries that filled an index differ from the loaded ones.
pub struct Mismatch<'a> {
    /// Filled the index, absent from this process.
    missing: Vec<&'a str>,
    /// Loaded, but not the generation the index was filled by.
    changed: Vec<&'a str>,
}

impl<'a> Mismatch<'a> {
    /// The codes that filled the index and are not loaded, in ascending order.
    pub closed spec fn missing(&self) -> Seq<Seq<char>> {
        self.missing@.map_values(|c: &str| c@)
    }

    /// The codes loaded with another generation, in ascending order.
    pub closed spec fn changed(&self) -> Seq<Seq<char>> {
        self.changed@.map_values(|c: &str| c@)
    }

    /// Compares what filled an index with what is loaded, code by code of the
    /// index's records.
    pub fn between(recorded: &'a Generations, loaded: &'a Generations) -> (m: Self)
        ensures
            m.missing() == missing_codes(recorded.entries(), loaded@),
            m.changed() == changed_codes(recorded.entries(), loaded@),
            (m.missing().len() == 0 && m.changed().len() == 0) <==> covers(loaded@, recorded@),
            forall|i: int, j: int|
                0 <= i < j < m.missing().len() ==> text_lt(m.missing()[i], m.missing()[j]),
            forall|i: int, j: int|
                0 <= i < j < m.changed().len() ==> text_lt(m.changed()[i], m.changed()[j]),
    {
        proof {
            use_type_invariant(recorded);
        }
        let mut mismatch = Mismatch { missing: Vec::new(), changed: Vec::new() };
        let n = recorded.count();
        let ghost entries = recorded.entries();
        let mut i: usize = 0;
        while i < n
            invariant
                n == entries.len(),
                entries == recorded.entries(),
                keys_ascending(entries),
                i <= n,
                mismatch.missing() == missing_codes(entries.take(i as int), loaded@),
                mismatch.changed() == changed_codes(entries.take(i as int), loaded@),
                forall|a: int|
                    #![trigger mismatch.missing()[a]]
                    0 <= a < mismatch.missing().len() ==> exists|b: int|
                        0 <= b < i && #[trigger] entries[b].0 == mismatch.missing()[a],
                forall|a: int|
                    #![trigger mismatch.changed()[a]]
                    0 <= a < mismatch.changed().len() ==> exists|b: int|
                        0 <= b < i && #[trigger] entries[b].0 == mismatch.changed()[a],
                forall|a: int, c: int|
                    0 <= a < c < mismatch.missing().len() ==> text_lt(
                        mismatch.missing()[a],
                        mismatch.missing()[c],
                    ),
                forall|a: int, c: int|
                    0 <= a < c < mismatch.changed().len() ==> text_lt(
                        mismatch.changed()[a],
                        mismatch.changed()[c],
                    ),
                forall|a: int|
                    0 <= a < i ==> (loaded@.contains_key(#[trigger] entries[a].0) && loaded@[entries[a].0]
                        == entries[a].1) || mismatch.missing().len() > 0 || mismatch.changed().len() > 0,
            decreases n - i,
        {
            let (code, generation) = recorded.entry(i);
            let ghost before_missing = mismatch.missing();
            let ghost before_changed = mismatch.changed();
            proof {
                assert(entries.take(i + 1).drop_last() =~= entries.take(i as int));
                assert(entries.take(i + 1).last() == entries[i as int]);
            }
            match loaded.get(code) {
                None => {
                    mismatch.missing.push(code);
                    proof {
                        assert(mismatch.missing() =~= before_missing.push(code@));
                        assert forall|a: int| #![trigger mismatch.missing()[a]] 0 <= a < mismatch.missing().len() implies exists|b: int|
                            0 <= b < i + 1 && #[trigger] entries[b].0 == mismatch.missing()[a] by {
                            if a == before_missing.len() {
                                assert(entries[i as int].0 == mismatch.missing()[a]);
                            } else {
                                assert(mismatch.missing()[a] == before_missing[a]);
                            }
                        }
                        assert forall|a: int, c: int|
                            0 <= a < c < mismatch.missing().len() implies text_lt(
                            mismatch.missing()[a],
                            mismatch.missing()[c],
                        ) by {
                            if c == before_missing.len() {
                                let b = choose|b: int|
                                    0 <= b < i && #[trigger] entries[b].0 == before_missing[a];
                                assert(text_lt(entries[b].0, entries[i as int].0));
                            } else {
                                assert(mismatch.missing()[a] == before_missing[a]);
                                assert(mismatch.missing()[c] == before_missing[c]);
                            }
                        }
                    }
                },
                Some(other) => {
                    if !crate::text::same_text(other.as_str(), generation) {
                        mismatch.changed.push(code);
                        proof {
                            assert(mismatch.changed() =~= before_changed.push(code@));
                            assert forall|a: int| #![trigger mismatch.changed()[a]] 0 <= a < mismatch.changed().len() implies exists|b: int|
                                0 <= b < i + 1 && #[trigger] entries[b].0 == mismatch.changed()[a] by {
                                if a == before_changed.len() {
                                    assert(entries[i as int].0 == mismatch.changed()[a]);
                                } else {
                                    assert(mismatch.changed()[a] == before_changed[a]);
                                }
                            }
                            assert forall|a: int, c: int|
                                0 <= a < c < mismatch.changed().len() implies text_lt(
                                mismatch.changed()[a],
                                mismatch.changed()[c],
                            ) by {
                                if c == before_changed.len() {
                                    let b = choose|b: int|
                                        0 <= b < i && #[trigger] entries[b].0 == before_changed[a];
                                    assert(text_lt(entries[b].0, entries[i as int].0));
                                } else {
                                    assert(mismatch.changed()[a] == before_changed[a]);
                                    assert(mismatch.changed()[c] == before_changed[c]);
                                }
                            }
                        }
                    }
                },
            }
            i = i + 1;
        }
        proof {
            assert(entries.take(n as int) =~= entries);
            let m = map_of(entries);
            assert(recorded@ == m);
            if mismatch.missing().len() == 0 && mismatch.changed().len() == 0 {
                assert forall|k: Seq<char>| #[trigger] recorded@.contains_key(k) implies loaded@.contains_key(k)
                    && loaded@[k] == recorded@[k] by {
                    let b = choose|b: int| 0 <= b < entries.len() && #[trigger] entries[b].0 == k;
                    crate::generations::lemma_map_of_entry(entries, b);
                }
            } else {
                lemma_uncovered(entries, loaded@);
            }
        }
        mismatch
    }

    /// Nothing differs: no code is missing and none changed.
    pub fn is_empty(&self) -> (r: bool)
        ensures
            r == (self.missing().len() == 0 && self.changed().len() == 0),
    {
        self.missing.len() == 0 && self.changed.len() == 0
    }

    /// The mismatch as a warning names it, for instance
    /// `missing: deu; changed: fin`.
    pub fn to_string(&self) -> (s: String)
        ensures
            s@ == rendering(self.missing(), self.changed()),
    {
        let mut out: Vec<char> = Vec::new();
        let mut wrote = false;
        if self.missing.len() > 0 {
            push_section(&mut out, "missing", &self.missing);
            wrote = true;
        }
        if self.changed.len() > 0 {
            if wrote {
                push_text(&mut out, "; ");
            }
            push_section(&mut out, "changed", &self.changed);
        }
        proof {
            if self.missing().len() == 0 && self.changed().len() == 0 {
                assert(out@ =~= Seq::<char>::empty());
            }
        }
        string_from_chars(&out)
    }
}

/// When some code of the records is missing or changed, the loaded
/// generations do not cover the records.
proof fn lemma_uncovered(entries: Seq<(Seq<char>, Seq<char>)>, loaded: Map<Seq<char>, Seq<char>>)
    requires
        keys_ascending(entries),
        missing_codes(entries, loaded).len() > 0 || changed_codes(entries, loaded).len() > 0,
    ensures
        !covers(loaded, map_of(entries)),
    decreases entries.len(),
{
    let rest = entries.drop_last();
    let (code, generation) = entries.last();
    let n = entries.len() - 1;
    if !loaded.contains_key(code) || loaded[code] != generation {
        crate::generations::lemma_map_of_entry(entries, n);
    } else {
        assert(keys_ascending(rest));
        lemma_uncovered(rest, loaded);
        let k = choose|k: Seq<char>| #[trigger]
            map_of(rest).contains_key(k) && !(loaded.contains_key(k) && loaded[k] == map_of(rest)[k]);
        let b = choose|b: int| 0 <= b < rest.len() && #[trigger] rest[b].0 == k;
        crate::generations::lemma_map_of_entry(rest, b);
        assert(entries[b] == rest[b]);
        crate::generations::lemma_map_of_entry(entries, b);
    }
}

/// Appends the labelled list of `codes`.
fn push_section(out: &mut Vec<char>, label: &str, codes: &Vec<&str>)
    requires
        codes@.len() > 0,
    ensures
        final(out)@ == old(out)@ + section(label@, codes@.map_values(|c: &str| c@)),
{
    let ghost views = codes@.map_values(|c: &str| c@);
    let ghost start = out@;
    push_text(out, label);
    push_text(out, ": ");
    let shown = if codes.len() < LISTED_CODES { codes.len() } else { LISTED_CODES };
    let mut i: usize = 0;
    while i < shown
        invariant
            views == codes@.map_values(|c: &str| c@),
            shown <= codes@.len(),
            shown == codes@.len() || shown == LISTED_CODES,
            i <= shown,
            out@ == start + label@ + ": "@ + joined(views.take(i as int), ", "@),
        decreases shown - i,
    {
        let ghost before = out@;
        if i > 0 {
            push_text(out, ", ");
        }
        push_text(out, codes[i]);
        proof {
            let t = views.take(i + 1);
            assert(t.drop_last() =~= views.take(i as int));
            assert(t.last() == codes@[i as int]@);
            if i == 0 {
                assert(views.take(0) =~= Seq::<Seq<char>>::empty());
                assert(t.len() == 1);
            }
        }
        i = i + 1;
    }
    if codes.len() > LISTED_CODES {
        push_text(out, " and ");
        push_decimal(out, codes.len() - LISTED_CODES);
        push_text(out, " more");
    } else {
        assert(views.take(shown as int) =~= views);
    }
}

/// A bundle that only grew is no mismatch: generations loaded beside codes
/// that the index never recorded cover the records.
pub proof fn lemma_grown_bundle_is_no_mismatch(
    recorded: Map<Seq<char>, Seq<char>>,
    added: Map<Seq<char>, Seq<char>>,
)
    requires
        recorded.dom().disjoint(added.dom()),
    ensures
        covers(recorded.union_prefer_right(added), recorded),
{
    assert forall|k: Seq<char>| #[trigger] recorded.contains_key(k) implies recorded.union_prefer_right(
        added,
    ).contains_key(k) && recorded.union_prefer_right(added)[k] == recorded[k] by {
        assert(!added.contains_key(k));
    }
}

/// A bundle compared with itself is no mismatch.
pub proof fn lemma_same_bundle_is_no_mismatch(generations: Map<Seq<char>, Seq<char>>)
    ensures
        covers(generations, generations),
{
}

} // verus!
