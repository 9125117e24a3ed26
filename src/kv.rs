//! Ordered lists of key/value pairs with unique keys: the environment maps and
//! label sets of containers.
use vstd::prelude::*;

verus! {

pub type Entry = (Seq<char>, Seq<char>);

pub open spec fn entries_view(v: Seq<(String, String)>) -> Seq<Entry> {
    v.map_values(|p: (String, String)| (p.0@, p.1@))
}

pub open spec fn has_key(s: Seq<Entry>, k: Seq<char>) -> bool {
    exists|i: int| 0 <= i < s.len() && #[trigger] s[i].0 == k
}

pub open spec fn keys_unique(s: Seq<Entry>) -> bool {
    forall|i: int, j: int| 0 <= i < s.len() && 0 <= j < s.len() && i != j ==> s[i].0 != s[j].0
}

/// Where the key `k` stands in `s`.
pub open spec fn index_of(s: Seq<Entry>, k: Seq<char>) -> int {
    choose|i: int| 0 <= i < s.len() && #[trigger] s[i].0 == k
}

/// `s` with `k` bound to `v`: in place where `k` is there, else at the end.
pub open spec fn with_entry(s: Seq<Entry>, k: Seq<char>, v: Seq<char>) -> Seq<Entry> {
    if has_key(s, k) {
        s.update(index_of(s, k), (k, v))
    } else {
        s.push((k, v))
    }
}

/// `s` with each entry of `o` bound in turn.
pub open spec fn with_entries(s: Seq<Entry>, o: Seq<Entry>) -> Seq<Entry>
    decreases o.len(),
{
    if o.len() == 0 {
        s
    } else {
        let rest = with_entries(s, o.drop_last());
        with_entry(rest, o.last().0, o.last().1)
    }
}

/// The map that a list with unique keys stands for.
pub open spec fn entry_map(s: Seq<Entry>) -> Map<Seq<char>, Seq<char>> {
    Map::new(|k: Seq<char>| has_key(s, k), |k: Seq<char>| s[index_of(s, k)].1)
}

pub proof fn lemma_index_of(s: Seq<Entry>, k: Seq<char>, i: int)
    requires
        keys_unique(s),
        0 <= i < s.len(),
        s[i].0 == k,
    ensures
        index_of(s, k) == i,
{
    assert(has_key(s, k));
}

/// Binding a key keeps the keys unique and binds it in the map.
pub proof fn lemma_with_entry(s: Seq<Entry>, k: Seq<char>, v: Seq<char>)
    requires
        keys_unique(s),
    ensures
        keys_unique(with_entry(s, k, v)),
        entry_map(with_entry(s, k, v)) == entry_map(s).insert(k, v),
{
    let t = with_entry(s, k, v);
    if has_key(s, k) {
        let idx = index_of(s, k);
        assert(keys_unique(t));
        assert forall|k2: Seq<char>| has_key(t, k2) implies has_key(s, k2) || k2 == k by {
            let j = choose|j: int| 0 <= j < t.len() && #[trigger] t[j].0 == k2;
            if j != idx {
                assert(s[j].0 == k2);
            }
        }
        assert forall|k2: Seq<char>| has_key(s, k2) implies has_key(t, k2) by {
            let j = choose|j: int| 0 <= j < s.len() && #[trigger] s[j].0 == k2;
            assert(t[j].0 == k2);
        }
        assert forall|k2: Seq<char>| has_key(t, k2) implies t[index_of(t, k2)].1
            == entry_map(s).insert(k, v)[k2] by {
            let j = index_of(t, k2);
            if k2 == k {
                lemma_index_of(t, k, idx);
            } else {
                assert(s[j].0 == k2);
                lemma_index_of(s, k2, j);
            }
        }
        assert(entry_map(t) =~= entry_map(s).insert(k, v));
    } else {
        assert(keys_unique(t));
        assert forall|k2: Seq<char>| has_key(t, k2) implies has_key(s, k2) || k2 == k by {
            let j = choose|j: int| 0 <= j < t.len() && #[trigger] t[j].0 == k2;
            if j < s.len() {
                assert(s[j].0 == k2);
            }
        }
        assert forall|k2: Seq<char>| has_key(s, k2) implies has_key(t, k2) by {
            let j = choose|j: int| 0 <= j < s.len() && #[trigger] s[j].0 == k2;
            assert(t[j].0 == k2);
        }
        assert(t[s.len() as int].0 == k);
        assert forall|k2: Seq<char>| has_key(t, k2) implies t[index_of(t, k2)].1
            == entry_map(s).insert(k, v)[k2] by {
            let j = index_of(t, k2);
            if k2 == k {
                lemma_index_of(t, k, s.len() as int);
            } else {
                assert(s[j].0 == k2);
                lemma_index_of(s, k2, j);
            }
        }
        assert(entry_map(t) =~= entry_map(s).insert(k, v));
    }
}

/// Binding the entries of a list with unique keys, in turn, gives the map of
/// the first list overridden by the map of the second.
pub proof fn lemma_with_entries(s: Seq<Entry>, o: Seq<Entry>)
    requires
        keys_unique(s),
        keys_unique(o),
    ensures
        keys_unique(with_entries(s, o)),
        entry_map(with_entries(s, o)) == entry_map(s).union_prefer_right(entry_map(o)),
    decreases o.len(),
{
    if o.len() == 0 {
        assert(entry_map(o) =~= Map::empty());
        assert(entry_map(s).union_prefer_right(entry_map(o)) =~= entry_map(s));
    } else {
        let init = o.drop_last();
        let last = o.last();
        assert(keys_unique(init));
        lemma_with_entries(s, init);
        lemma_with_entry(with_entries(s, init), last.0, last.1);
        assert(!has_key(init, last.0));
        lemma_with_entry(init, last.0, last.1);
        assert(with_entry(init, last.0, last.1) =~= o);
        assert(entry_map(s).union_prefer_right(entry_map(o)) =~= entry_map(s).union_prefer_right(
            entry_map(init),
        ).insert(last.0, last.1));
    }
}

/// Binds `key` to `value` in `entries`, in place where the key is there and
/// at the end otherwise.
pub fn insert_entry(entries: &mut Vec<(String, String)>, key: String, value: String)
    requires
        keys_unique(entries_view(old(entries)@)),
    ensures
        entries_view(final(entries)@) == with_entry(entries_view(old(entries)@), key@, value@),
        keys_unique(entries_view(final(entries)@)),
{
    let ghost s = entries_view(entries@);
    proof {
        lemma_with_entry(s, key@, value@);
    }
    let mut i: usize = 0;
    while i < entries.len()
        invariant
            i <= entries.len(),
            entries@ == old(entries)@,
            s == entries_view(old(entries)@),
            s == entries_view(entries@),
            keys_unique(s),
            forall|j: int| 0 <= j < i ==> s[j].0 != key@,
        decreases entries.len() - i,
    {
        if entries[i].0 == key {
            assert(s[i as int] == (entries@[i as int].0@, entries@[i as int].1@));
            assert(s[i as int].0 == key@);
            proof {
                lemma_index_of(s, key@, i as int);
            }
            let ghost (k, v) = (key@, value@);
            entries.set(i, (key, value));
            assert(has_key(s, k));
            assert(entries_view(entries@) =~= s.update(i as int, (k, v)));
            return;
        }
        i = i + 1;
    }
    assert(!has_key(s, key@));
    entries.push((key, value));
    assert(entries_view(entries@) =~= with_entry(s, key@, value@));
}

/// Where the first entry for `k` stands in `s`.
pub open spec fn first_index(s: Seq<Entry>, k: Seq<char>) -> int {
    choose|i: int|
        0 <= i < s.len() && #[trigger] s[i].0 == k && forall|j: int| 0 <= j < i ==> s[j].0 != k
}

/// The value of the first entry for `k`, if any.
pub open spec fn first_value(s: Seq<Entry>, k: Seq<char>) -> Option<Seq<char>> {
    if has_key(s, k) {
        Some(s[first_index(s, k)].1)
    } else {
        None
    }
}

/// With unique keys, the first entry for a key is its only one.
pub proof fn lemma_first_value_unique(s: Seq<Entry>, k: Seq<char>)
    requires
        keys_unique(s),
    ensures
        first_value(s, k) == if has_key(s, k) {
            Some(entry_map(s)[k])
        } else {
            None
        },
{
    if has_key(s, k) {
        let i = index_of(s, k);
        assert(forall|j: int| 0 <= j < i ==> s[j].0 != k);
        let f = first_index(s, k);
        lemma_index_of(s, k, f);
    }
}

/// The value of the first entry for `key`, if any.
pub fn lookup_first<'a>(entries: &'a Vec<(String, String)>, key: &str) -> (r: Option<&'a String>)
    ensures
        match r {
            Some(v) => first_value(entries_view(entries@), key@) == Some(v@),
            None => first_value(entries_view(entries@), key@) is None,
        },
{
    let ghost s = entries_view(entries@);
    let mut i: usize = 0;
    while i < entries.len()
        invariant
            i <= entries.len(),
            s == entries_view(entries@),
            forall|j: int| 0 <= j < i ==> s[j].0 != key@,
        decreases entries.len() - i,
    {
        if crate::text::text_eq(entries[i].0.as_str(), key) {
            assert(s[i as int] == (entries@[i as int].0@, entries@[i as int].1@));
            assert(s[i as int].0 == key@);
            assert(has_key(s, key@));
            let ghost f = first_index(s, key@);
            assert(0 <= f < s.len() && s[f].0 == key@ && forall|j: int| 0 <= j < f ==> s[j].0 != key@);
            proof {
                if f < i as int {
                    assert(s[f].0 != key@);
                } else if f > i as int {
                    assert(s[i as int].0 != key@);
                }
            }
            return Some(&entries[i].1);
        }
        i = i + 1;
    }
    assert(!has_key(s, key@));
    None
}

} // verus!
