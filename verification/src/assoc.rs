//! Association sequences: string-keyed key/value sequences, used as the
//! mathematical model of the extension map of a schema node and of the
//! generator's registry of named definitions.
//!
//! Lookup and insertion act on the first entry whose key matches; insertion
//! replaces that entry and otherwise appends, so a sequence with unique keys
//! keeps its keys unique.

use vstd::prelude::*;

verus! {

/// The value bound to `key`, taken from the first entry whose key matches.
pub open spec fn assoc_get<V>(entries: Seq<(Seq<char>, V)>, key: Seq<char>) -> Option<V>
    decreases entries.len(),
{
    if entries.len() == 0 {
        None
    } else if entries[0].0 == key {
        Some(entries[0].1)
    } else {
        assoc_get(entries.drop_first(), key)
    }
}

/// Bind `key` to `value`: replace the first entry whose key matches, or
/// append a new entry when no key matches.
pub open spec fn assoc_insert<V>(
    entries: Seq<(Seq<char>, V)>,
    key: Seq<char>,
    value: V,
) -> Seq<(Seq<char>, V)>
    decreases entries.len(),
{
    if entries.len() == 0 {
        seq![(key, value)]
    } else if entries[0].0 == key {
        seq![(key, value)] + entries.drop_first()
    } else {
        seq![entries[0]] + assoc_insert(entries.drop_first(), key, value)
    }
}

/// No two entries carry the same key.
pub open spec fn unique_keys<V>(entries: Seq<(Seq<char>, V)>) -> bool {
    forall|i: int, j: int| 0 <= i < j < entries.len() ==> entries[i].0 != entries[j].0
}

/// When no entry carries `key`, lookup yields nothing.
pub proof fn lemma_assoc_get_absent<V>(entries: Seq<(Seq<char>, V)>, key: Seq<char>)
    requires
        forall|i: int| 0 <= i < entries.len() ==> entries[i].0 != key,
    ensures
        assoc_get(entries, key) is None,
    decreases entries.len(),
{
    if entries.len() > 0 {
        lemma_assoc_get_absent(entries.drop_first(), key);
    }
}

/// When the first entry carrying `key` stands at `i`, lookup yields its value.
pub proof fn lemma_assoc_get_found<V>(entries: Seq<(Seq<char>, V)>, key: Seq<char>, i: int)
    requires
        0 <= i < entries.len(),
        entries[i].0 == key,
        forall|j: int| 0 <= j < i ==> entries[j].0 != key,
    ensures
        assoc_get(entries, key) == Some(entries[i].1),
    decreases entries.len(),
{
    if i > 0 {
        lemma_assoc_get_found(entries.drop_first(), key, i - 1);
    }
}

/// When no entry carries `key`, insertion appends.
pub proof fn lemma_assoc_insert_absent<V>(entries: Seq<(Seq<char>, V)>, key: Seq<char>, value: V)
    requires
        forall|i: int| 0 <= i < entries.len() ==> entries[i].0 != key,
    ensures
        assoc_insert(entries, key, value) == entries.push((key, value)),
    decreases entries.len(),
{
    if entries.len() == 0 {
        assert(assoc_insert(entries, key, value) =~= entries.push((key, value)));
    } else {
        lemma_assoc_insert_absent(entries.drop_first(), key, value);
        assert(assoc_insert(entries, key, value) =~= entries.push((key, value)));
    }
}

/// When the first entry carrying `key` stands at `i`, insertion replaces it.
pub proof fn lemma_assoc_insert_found<V>(
    entries: Seq<(Seq<char>, V)>,
    key: Seq<char>,
    value: V,
    i: int,
)
    requires
        0 <= i < entries.len(),
        entries[i].0 == key,
        forall|j: int| 0 <= j < i ==> entries[j].0 != key,
    ensures
        assoc_insert(entries, key, value) == entries.update(i, (key, value)),
    decreases entries.len(),
{
    if i == 0 {
        assert(assoc_insert(entries, key, value) =~= entries.update(0, (key, value)));
    } else {
        lemma_assoc_insert_found(entries.drop_first(), key, value, i - 1);
        assert(entries.drop_first().update(i - 1, (key, value)) =~= entries.update(
            i,
            (key, value),
        ).drop_first());
        assert(assoc_insert(entries, key, value) =~= entries.update(i, (key, value)));
    }
}

/// After insertion, looking the key up yields the inserted value.
pub proof fn lemma_assoc_insert_get_same<V>(entries: Seq<(Seq<char>, V)>, key: Seq<char>, value: V)
    ensures
        assoc_get(assoc_insert(entries, key, value), key) == Some(value),
    decreases entries.len(),
{
    if entries.len() == 0 {
    } else if entries[0].0 == key {
        assert((seq![(key, value)] + entries.drop_first())[0] == (key, value));
    } else {
        lemma_assoc_insert_get_same(entries.drop_first(), key, value);
        let inserted = seq![entries[0]] + assoc_insert(entries.drop_first(), key, value);
        assert(inserted[0] == entries[0]);
        assert(inserted.drop_first() =~= assoc_insert(entries.drop_first(), key, value));
    }
}

/// Insertion leaves every other key bound as before.
pub proof fn lemma_assoc_insert_get_other<V>(
    entries: Seq<(Seq<char>, V)>,
    key: Seq<char>,
    value: V,
    other: Seq<char>,
)
    requires
        other != key,
    ensures
        assoc_get(assoc_insert(entries, key, value), other) == assoc_get(entries, other),
    decreases entries.len(),
{
    if entries.len() == 0 {
        let inserted = seq![(key, value)];
        assert(inserted[0].0 == key);
        lemma_assoc_get_absent(inserted.drop_first(), other);
    } else if entries[0].0 == key {
        let inserted = seq![(key, value)] + entries.drop_first();
        assert(inserted[0] == (key, value));
        assert(inserted.drop_first() =~= entries.drop_first());
    } else {
        lemma_assoc_insert_get_other(entries.drop_first(), key, value, other);
        let inserted = seq![entries[0]] + assoc_insert(entries.drop_first(), key, value);
        assert(inserted[0] == entries[0]);
        assert(inserted.drop_first() =~= assoc_insert(entries.drop_first(), key, value));
    }
}

/// Every key of an insertion's result is the inserted key or one of the
/// original keys.
pub proof fn lemma_assoc_insert_keys<V>(entries: Seq<(Seq<char>, V)>, key: Seq<char>, value: V)
    ensures
        forall|j: int|
            0 <= j < assoc_insert(entries, key, value).len() ==> #[trigger] assoc_insert(
                entries,
                key,
                value,
            )[j].0 == key || exists|i: int|
                0 <= i < entries.len() && entries[i].0 == assoc_insert(entries, key, value)[j].0,
    decreases entries.len(),
{
    if entries.len() == 0 {
    } else if entries[0].0 == key {
        let inserted = seq![(key, value)] + entries.drop_first();
        assert forall|j: int| 0 <= j < inserted.len() implies #[trigger] inserted[j].0 == key
            || exists|i: int| 0 <= i < entries.len() && entries[i].0 == inserted[j].0 by {
            if j > 0 {
                assert(inserted[j] == entries[j]);
                assert(entries[j].0 == inserted[j].0);
            }
        }
    } else {
        lemma_assoc_insert_keys(entries.drop_first(), key, value);
        let tail = assoc_insert(entries.drop_first(), key, value);
        let inserted = seq![entries[0]] + tail;
        assert forall|j: int| 0 <= j < inserted.len() implies #[trigger] inserted[j].0 == key
            || exists|i: int| 0 <= i < entries.len() && entries[i].0 == inserted[j].0 by {
            if j == 0 {
                assert(entries[0].0 == inserted[0].0);
            } else {
                assert(inserted[j] == tail[j - 1]);
                if tail[j - 1].0 != key {
                    let i0 = choose|i0: int|
                        0 <= i0 < entries.drop_first().len() && entries.drop_first()[i0].0 == tail[j - 1].0;
                    assert(entries[i0 + 1].0 == inserted[j].0);
                }
            }
        }
    }
}

/// Insertion keeps keys unique.
pub proof fn lemma_assoc_insert_unique<V>(entries: Seq<(Seq<char>, V)>, key: Seq<char>, value: V)
    requires
        unique_keys(entries),
    ensures
        unique_keys(assoc_insert(entries, key, value)),
    decreases entries.len(),
{
    if entries.len() == 0 {
    } else if entries[0].0 == key {
        let inserted = seq![(key, value)] + entries.drop_first();
        assert forall|i: int, j: int| 0 <= i < j < inserted.len() implies inserted[i].0
            != inserted[j].0 by {
            if i == 0 {
                assert(inserted[j] == entries[j]);
                assert(entries[0].0 != entries[j].0);
            } else {
                assert(inserted[i] == entries[i]);
                assert(inserted[j] == entries[j]);
            }
        }
    } else {
        assert(unique_keys(entries.drop_first())) by {
            assert forall|i: int, j: int|
                0 <= i < j < entries.drop_first().len() implies entries.drop_first()[i].0
                != entries.drop_first()[j].0 by {
                assert(entries[i + 1].0 != entries[j + 1].0);
            }
        }
        lemma_assoc_insert_unique(entries.drop_first(), key, value);
        lemma_assoc_insert_keys(entries.drop_first(), key, value);
        let tail = assoc_insert(entries.drop_first(), key, value);
        let inserted = seq![entries[0]] + tail;
        assert forall|i: int, j: int| 0 <= i < j < inserted.len() implies inserted[i].0
            != inserted[j].0 by {
            if i == 0 {
                assert(inserted[j] == tail[j - 1]);
                if tail[j - 1].0 == key {
                    assert(inserted[0].0 != key);
                } else {
                    let i0 = choose|i0: int|
                        0 <= i0 < entries.drop_first().len() && entries.drop_first()[i0].0 == tail[j - 1].0;
                    assert(entries[i0 + 1].0 == tail[j - 1].0);
                    assert(entries[0].0 != entries[i0 + 1].0);
                }
            } else {
                assert(inserted[i] == tail[i - 1]);
                assert(inserted[j] == tail[j - 1]);
            }
        }
    }
}

} // verus!
