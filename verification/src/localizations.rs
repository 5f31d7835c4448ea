//! Per-locale names and descriptions of commands and arguments.

use vstd::prelude::*;

verus! {

/// The map the entries stand for: later entries win over earlier ones with the same key.
pub open spec fn entries_map(entries: Seq<(String, String)>) -> Map<Seq<char>, Seq<char>>
    decreases entries.len(),
{
    if entries.len() == 0 {
        Map::empty()
    } else {
        entries_map(entries.drop_last()).insert(entries.last().0@, entries.last().1@)
    }
}

/// The entries whose key is not `key`, in order.
pub open spec fn without_key(entries: Seq<(String, String)>, key: Seq<char>) -> Seq<
    (String, String),
>
    decreases entries.len(),
{
    if entries.len() == 0 {
        entries
    } else {
        let w = without_key(entries.drop_last(), key);
        if entries.last().0@ != key {
            w.push(entries.last())
        } else {
            w
        }
    }
}

/// Whether no key occurs twice among the entries.
pub open spec fn distinct_keys(entries: Seq<(String, String)>) -> bool {
    forall|i: int, j: int| 0 <= i < j < entries.len() ==> entries[i].0@ != entries[j].0@
}

/// A map from locale (e.g. `es-ES`) to localized text.
pub struct Localizations {
    entries: Vec<(String, String)>,
}

impl Localizations {
    /// No locale has two entries.
    #[verifier::type_invariant]
    spec fn keys_are_distinct(self) -> bool {
        distinct_keys(self.entries@)
    }
}

proof fn lemma_without_key_distinct(entries: Seq<(String, String)>, key: Seq<char>)
    ensures
        forall|i: int|
            0 <= i < without_key(entries, key).len() ==> (#[trigger] without_key(entries, key)[i]).0@
                != key && exists|j: int| 0 <= j < entries.len() && entries[j] == without_key(entries, key)[i],
        distinct_keys(entries) ==> distinct_keys(without_key(entries, key)),
    decreases entries.len(),
{
    if entries.len() > 0 {
        let init = entries.drop_last();
        lemma_without_key_distinct(init, key);
        let w = without_key(init, key);
        assert forall|i: int| 0 <= i < w.len() implies exists|j: int|
            0 <= j < entries.len() && entries[j] == #[trigger] w[i] by {
            let j = choose|j: int| 0 <= j < init.len() && init[j] == w[i];
            assert(entries[j] == init[j]);
        }
        if entries.last().0@ != key {
            let r = w.push(entries.last());
            assert forall|i: int| 0 <= i < r.len() implies (#[trigger] r[i]).0@ != key && exists|j: int|
                0 <= j < entries.len() && entries[j] == r[i] by {
                if i == w.len() {
                    assert(entries[entries.len() - 1] == r[i]);
                } else {
                    assert(r[i] == w[i]);
                }
            }
            if distinct_keys(entries) {
                assert forall|a: int, b: int| 0 <= a < b < r.len() implies r[a].0@ != r[b].0@ by {
                    if b == w.len() {
                        let j = choose|j: int| 0 <= j < init.len() && init[j] == w[a];
                        assert(entries[j] == w[a]);
                        assert(entries[entries.len() - 1] == r[b]);
                    } else {
                        assert(r[a] == w[a]);
                        assert(r[b] == w[b]);
                    }
                }
            }
        } else {
            if distinct_keys(entries) {
                assert(distinct_keys(init)) by {
                    assert forall|a: int, b: int| 0 <= a < b < init.len() implies init[a].0@
                        != init[b].0@ by {
                        assert(init[a] == entries[a]);
                        assert(init[b] == entries[b]);
                    }
                }
            }
        }
    }
}

impl View for Localizations {
    type V = Map<Seq<char>, Seq<char>>;

    closed spec fn view(&self) -> Map<Seq<char>, Seq<char>> {
        entries_map(self.entries@)
    }
}

proof fn lemma_entries_map_without(entries: Seq<(String, String)>, key: Seq<char>)
    ensures
        entries_map(without_key(entries, key)) == entries_map(entries).remove(key),
    decreases entries.len(),
{
    if entries.len() == 0 {
        assert(entries_map(entries).remove(key) =~= Map::empty());
    } else {
        let init = entries.drop_last();
        let last = entries.last();
        lemma_entries_map_without(init, key);
        let w = without_key(init, key);
        if last.0@ != key {
            assert(w.push(last).drop_last() =~= w);
            assert(entries_map(w.push(last)) == entries_map(w).insert(last.0@, last.1@));
            assert(entries_map(init).remove(key).insert(last.0@, last.1@) =~= entries_map(
                init,
            ).insert(last.0@, last.1@).remove(key));
        } else {
            assert(entries_map(init).remove(key) =~= entries_map(init).insert(
                last.0@,
                last.1@,
            ).remove(key));
        }
    }
}

impl Localizations {
    /// An empty map.
    pub fn new() -> (r: Localizations)
        ensures
            r@ == Map::<Seq<char>, Seq<char>>::empty(),
    {
        Localizations { entries: Vec::new() }
    }

    /// Sets the text for a locale, replacing any text it had.
    pub fn insert(&mut self, key: String, value: String)
        ensures
            final(self)@ == old(self)@.insert(key@, value@),
    {
        let mut kept: Vec<(String, String)> = Vec::new();
        let mut k: usize = 0;
        let ghost old_entries = self.entries@;
        while k < self.entries.len()
            invariant
                k <= self.entries.len(),
                self.entries@ == old_entries,
                kept@ == without_key(old_entries.take(k as int), key@),
            decreases self.entries.len() - k,
        {
            proof {
                assert(old_entries.take(k + 1).drop_last() =~= old_entries.take(k as int));
            }
            if self.entries[k].0 != key {
                let e = (self.entries[k].0.clone(), self.entries[k].1.clone());
                kept.push(e);
            }
            k += 1;
        }
        assert(old_entries.take(old_entries.len() as int) =~= old_entries);
        proof {
            lemma_entries_map_without(old_entries, key@);
        }
        proof {
            use_type_invariant(&*self);
            lemma_without_key_distinct(old_entries, key@);
        }
        kept.push((key, value));
        proof {
            let f = without_key(old_entries, key@);
            assert(kept@.drop_last() =~= f);
            assert(entries_map(kept@) =~= entries_map(old_entries).insert(key@, value@));
            assert forall|a: int, b: int| 0 <= a < b < kept@.len() implies kept@[a].0@
                != kept@[b].0@ by {
                if b == kept@.len() - 1 {
                    assert(kept@[a] == f[a]);
                } else {
                    assert(kept@[a] == f[a]);
                    assert(kept@[b] == f[b]);
                }
            }
        }
        self.entries = kept;
    }

    /// Returns the (locale, text) pairs, one per locale.
    pub fn entries(&self) -> (r: &Vec<(String, String)>)
        ensures
            entries_map(r@) == self@,
            distinct_keys(r@),
    {
        proof {
            use_type_invariant(self);
        }
        &self.entries
    }
}

} // verus!
