//! An insertion-ordered map from strings to strings, held as a vector of pairs with unique keys.
//! It stands where a hash map of string pairs would otherwise be used, and fixes the order in
//! which its entries are rendered.

use vstd::prelude::*;

verus! {

/// Whether no key occurs twice.
pub open spec fn unique_keys(pairs: Seq<(Seq<char>, Seq<char>)>) -> bool {
    forall|i: int, j: int| 0 <= i < j < pairs.len() ==> #[trigger] pairs[i].0 != #[trigger] pairs[j].0
}

/// Whether some pair has the given key.
pub open spec fn has_key(pairs: Seq<(Seq<char>, Seq<char>)>, key: Seq<char>) -> bool {
    exists|i: int| 0 <= i < pairs.len() && #[trigger] pairs[i].0 == key
}

/// The entries after setting `key` to `value`: an existing pair with that key keeps its place
/// and takes the new value; otherwise the pair is appended.
pub open spec fn upsert(pairs: Seq<(Seq<char>, Seq<char>)>, key: Seq<char>, value: Seq<char>) -> Seq<(Seq<char>, Seq<char>)>
    decreases pairs.len(),
{
    if pairs.len() == 0 {
        seq![(key, value)]
    } else if pairs[0].0 == key {
        pairs.update(0, (key, value))
    } else {
        seq![pairs[0]] + upsert(pairs.drop_first(), key, value)
    }
}

/// The entries after setting every pair of `more`, in order.
pub open spec fn upsert_all(pairs: Seq<(Seq<char>, Seq<char>)>, more: Seq<(Seq<char>, Seq<char>)>) -> Seq<(Seq<char>, Seq<char>)>
    decreases more.len(),
{
    if more.len() == 0 {
        pairs
    } else {
        upsert(upsert_all(pairs, more.drop_last()), more.last().0, more.last().1)
    }
}

/// The entries as a map from keys to values.
pub open spec fn as_map(pairs: Seq<(Seq<char>, Seq<char>)>) -> Map<Seq<char>, Seq<char>>
    decreases pairs.len(),
{
    if pairs.len() == 0 {
        Map::empty()
    } else {
        as_map(pairs.drop_last()).insert(pairs.last().0, pairs.last().1)
    }
}

proof fn lemma_upsert_at(pairs: Seq<(Seq<char>, Seq<char>)>, key: Seq<char>, value: Seq<char>, i: int)
    requires
        0 <= i < pairs.len(),
        pairs[i].0 == key,
        forall|j: int| 0 <= j < i ==> #[trigger] pairs[j].0 != key,
    ensures
        upsert(pairs, key, value) == pairs.update(i, (key, value)),
    decreases pairs.len(),
{
    if i > 0 {
        let rest = pairs.drop_first();
        assert forall|j: int| 0 <= j < i - 1 implies #[trigger] rest[j].0 != key by {
            assert(rest[j] == pairs[j + 1]);
        }
        lemma_upsert_at(rest, key, value, i - 1);
        assert(pairs[0].0 != key);
        assert(seq![pairs[0]] + rest.update(i - 1, (key, value)) =~= pairs.update(i, (key, value)));
    }
}

proof fn lemma_upsert_absent(pairs: Seq<(Seq<char>, Seq<char>)>, key: Seq<char>, value: Seq<char>)
    requires
        forall|j: int| 0 <= j < pairs.len() ==> #[trigger] pairs[j].0 != key,
    ensures
        upsert(pairs, key, value) == pairs.push((key, value)),
    decreases pairs.len(),
{
    if pairs.len() > 0 {
        let rest = pairs.drop_first();
        assert forall|j: int| 0 <= j < rest.len() implies #[trigger] rest[j].0 != key by {
            assert(rest[j] == pairs[j + 1]);
        }
        lemma_upsert_absent(rest, key, value);
        assert(pairs[0].0 != key);
        assert(seq![pairs[0]] + rest.push((key, value)) =~= pairs.push((key, value)));
    }
}

/// Setting a key keeps the keys unique.
pub proof fn lemma_upsert_unique(pairs: Seq<(Seq<char>, Seq<char>)>, key: Seq<char>, value: Seq<char>)
    requires
        unique_keys(pairs),
    ensures
        unique_keys(upsert(pairs, key, value)),
{
    if has_key(pairs, key) {
        let k = choose|k: int| 0 <= k < pairs.len() && #[trigger] pairs[k].0 == key;
        let i = first_index(pairs, key, k);
        lemma_upsert_at(pairs, key, value, i);
        let r = pairs.update(i, (key, value));
        assert forall|a: int, b: int| 0 <= a < b < r.len() implies #[trigger] r[a].0 != #[trigger] r[b].0 by {
            if a == i {
                assert(pairs[b].0 != pairs[i].0);
            } else if b == i {
                assert(pairs[a].0 != pairs[i].0);
            } else {
                assert(pairs[a].0 != pairs[b].0);
            }
        }
    } else {
        assert forall|j: int| 0 <= j < pairs.len() implies #[trigger] pairs[j].0 != key by {
            if pairs[j].0 == key {
                assert(has_key(pairs, key));
            }
        }
        lemma_upsert_absent(pairs, key, value);
        let r = pairs.push((key, value));
        assert forall|a: int, b: int| 0 <= a < b < r.len() implies #[trigger] r[a].0 != #[trigger] r[b].0 by {
            if b == pairs.len() {
                assert(r[a] == pairs[a]);
            } else {
                assert(pairs[a].0 != pairs[b].0);
            }
        }
    }
}

/// Setting several keys keeps the keys unique.
pub proof fn lemma_upsert_all_unique(pairs: Seq<(Seq<char>, Seq<char>)>, more: Seq<(Seq<char>, Seq<char>)>)
    requires
        unique_keys(pairs),
    ensures
        unique_keys(upsert_all(pairs, more)),
    decreases more.len(),
{
    if more.len() > 0 {
        lemma_upsert_all_unique(pairs, more.drop_last());
        lemma_upsert_unique(upsert_all(pairs, more.drop_last()), more.last().0, more.last().1);
    }
}

proof fn first_index(pairs: Seq<(Seq<char>, Seq<char>)>, key: Seq<char>, k: int) -> (i: int)
    requires
        0 <= k < pairs.len(),
        pairs[k].0 == key,
    ensures
        0 <= i <= k,
        pairs[i].0 == key,
        forall|j: int| 0 <= j < i ==> #[trigger] pairs[j].0 != key,
    decreases k,
{
    if exists|j: int| 0 <= j < k && #[trigger] pairs[j].0 == key {
        let j = choose|j: int| 0 <= j < k && #[trigger] pairs[j].0 == key;
        first_index(pairs, key, j)
    } else {
        k
    }
}

/// A key is in the map of the entries exactly when some pair has it.
pub proof fn lemma_as_map_dom(pairs: Seq<(Seq<char>, Seq<char>)>, key: Seq<char>)
    ensures
        as_map(pairs).dom().contains(key) <==> has_key(pairs, key),
    decreases pairs.len(),
{
    if pairs.len() > 0 {
        let rest = pairs.drop_last();
        lemma_as_map_dom(rest, key);
        if has_key(rest, key) {
            let i = choose|i: int| 0 <= i < rest.len() && #[trigger] rest[i].0 == key;
            assert(pairs[i].0 == key);
        }
        if has_key(pairs, key) && pairs.last().0 != key {
            let i = choose|i: int| 0 <= i < pairs.len() && #[trigger] pairs[i].0 == key;
            assert(rest[i].0 == key);
        }
        if pairs.last().0 == key {
            assert(pairs[pairs.len() - 1].0 == key);
        }
    }
}

/// With unique keys, the map of the entries maps each pair's key to that pair's value.
pub proof fn lemma_as_map_value(pairs: Seq<(Seq<char>, Seq<char>)>, i: int)
    requires
        unique_keys(pairs),
        0 <= i < pairs.len(),
    ensures
        as_map(pairs).dom().contains(pairs[i].0),
        as_map(pairs)[pairs[i].0] == pairs[i].1,
    decreases pairs.len(),
{
    if i < pairs.len() - 1 {
        let rest = pairs.drop_last();
        assert(rest[i] == pairs[i]);
        assert forall|a: int, b: int| 0 <= a < b < rest.len() implies #[trigger] rest[a].0 != #[trigger] rest[b].0 by {
            assert(pairs[a].0 != pairs[b].0);
        }
        lemma_as_map_value(rest, i);
        assert(pairs[i].0 != pairs[pairs.len() - 1].0);
    }
}

/// Setting `key` to `value` in entries with unique keys gives the map of the entries with `key`
/// mapped to `value`: the entries behave as a map under setting a key.
pub proof fn lemma_upsert_as_map(pairs: Seq<(Seq<char>, Seq<char>)>, key: Seq<char>, value: Seq<char>)
    requires
        unique_keys(pairs),
    ensures
        as_map(upsert(pairs, key, value)) == as_map(pairs).insert(key, value),
{
    let r = upsert(pairs, key, value);
    lemma_upsert_unique(pairs, key, value);
    let expected = as_map(pairs).insert(key, value);
    if has_key(pairs, key) {
        let k = choose|k: int| 0 <= k < pairs.len() && #[trigger] pairs[k].0 == key;
        let i = first_index(pairs, key, k);
        lemma_upsert_at(pairs, key, value, i);
    } else {
        assert forall|j: int| 0 <= j < pairs.len() implies #[trigger] pairs[j].0 != key by {
            if pairs[j].0 == key {
                assert(has_key(pairs, key));
            }
        }
        lemma_upsert_absent(pairs, key, value);
    }
    // Every pair of the result keeps its place, except the one with the key set.
    assert(r.len() >= pairs.len());
    assert forall|j: int| 0 <= j < pairs.len() && pairs[j].0 != key implies #[trigger] r[j] == pairs[j] by {}
    assert(has_key(r, key)) by {
        if has_key(pairs, key) {
            let k = choose|k: int| 0 <= k < pairs.len() && #[trigger] pairs[k].0 == key;
            let i = first_index(pairs, key, k);
            assert(r[i].0 == key);
        } else {
            assert(r[pairs.len() as int].0 == key);
        }
    }
    assert forall|k: Seq<char>| #[trigger] as_map(r).dom().contains(k) <==> expected.dom().contains(k) by {
        lemma_as_map_dom(r, k);
        lemma_as_map_dom(pairs, k);
        if k != key {
            if has_key(r, k) {
                let j = choose|j: int| 0 <= j < r.len() && #[trigger] r[j].0 == k;
                if j < pairs.len() {
                    assert(pairs[j].0 == k || pairs[j].0 == key);
                    if pairs[j].0 == key {
                        assert(r[j].0 == key);
                    }
                    assert(pairs[j].0 == k);
                } else {
                    assert(r[j].0 == key);
                }
            }
            if has_key(pairs, k) {
                let j = choose|j: int| 0 <= j < pairs.len() && #[trigger] pairs[j].0 == k;
                assert(r[j] == pairs[j]);
            }
        }
    }
    assert forall|k: Seq<char>| #[trigger] as_map(r).dom().contains(k) implies as_map(r)[k] == expected[k] by {
        lemma_as_map_dom(r, k);
        let j = choose|j: int| 0 <= j < r.len() && #[trigger] r[j].0 == k;
        lemma_as_map_value(r, j);
        if k == key {
            if j < pairs.len() && pairs[j].0 != key {
                assert(r[j] == pairs[j]);
            }
            assert(r[j].1 == value);
        } else {
            if j < pairs.len() {
                if pairs[j].0 == key {
                    assert(r[j].0 == key);
                }
                assert(r[j] == pairs[j]);
                lemma_as_map_value(pairs, j);
            } else {
                assert(r[j].0 == key);
            }
        }
    }
    assert(as_map(r) =~= expected);
}

/// The map with every pair of `more` inserted, in order.
pub open spec fn insert_all(map: Map<Seq<char>, Seq<char>>, more: Seq<(Seq<char>, Seq<char>)>) -> Map<Seq<char>, Seq<char>>
    decreases more.len(),
{
    if more.len() == 0 {
        map
    } else {
        insert_all(map, more.drop_last()).insert(more.last().0, more.last().1)
    }
}

/// Setting several pairs in entries with unique keys gives the map of the entries with the pairs
/// inserted in order: a later pair for a key replaces an earlier one, as in a map.
pub proof fn lemma_upsert_all_as_map(pairs: Seq<(Seq<char>, Seq<char>)>, more: Seq<(Seq<char>, Seq<char>)>)
    requires
        unique_keys(pairs),
    ensures
        as_map(upsert_all(pairs, more)) == insert_all(as_map(pairs), more),
    decreases more.len(),
{
    if more.len() > 0 {
        lemma_upsert_all_as_map(pairs, more.drop_last());
        lemma_upsert_all_unique(pairs, more.drop_last());
        lemma_upsert_as_map(upsert_all(pairs, more.drop_last()), more.last().0, more.last().1);
    }
}

/// The value of the pair with the given key, if some pair has it.
pub fn get_value<'a>(pairs: &'a Vec<(String, String)>, key: &str) -> (r: Option<&'a String>)
    ensures
        r is None <==> !has_key(pairs.deep_view(), key@),
        r matches Some(v) ==> has_key(pairs.deep_view(), key@)
            && (unique_keys(pairs.deep_view()) ==> as_map(pairs.deep_view())[key@] == v@),
{
    let ghost all = pairs.deep_view();
    let wanted = key.to_owned();
    let mut i: usize = 0;
    while i < pairs.len()
        invariant
            i <= pairs.len(),
            all == pairs.deep_view(),
            wanted@ == key@,
            forall|j: int| 0 <= j < i ==> #[trigger] all[j].0 != key@,
        decreases pairs.len() - i,
    {
        if pairs[i].0 == wanted {
            assert(all[i as int].0 == key@);
            proof {
                if unique_keys(all) {
                    lemma_as_map_value(all, i as int);
                }
            }
            return Some(&pairs[i].1);
        }
        i += 1;
    }
    None
}

/// Set `key` to `value` in the vector of pairs.
pub fn upsert_pair(pairs: &mut Vec<(String, String)>, key: String, value: String)
    ensures
        final(pairs).deep_view() == upsert(old(pairs).deep_view(), key@, value@),
{
    let ghost before = pairs.deep_view();
    let ghost k = key@;
    let ghost v = value@;
    let mut i: usize = 0;
    while i < pairs.len()
        invariant
            i <= pairs.len(),
            before == pairs.deep_view(),
            k == key@,
            v == value@,
            before == old(pairs).deep_view(),
            forall|j: int| 0 <= j < i ==> #[trigger] before[j].0 != key@,
        decreases pairs.len() - i,
    {
        if pairs[i].0 == key {
            assert(before[i as int].0 == key@);
            proof {
                lemma_upsert_at(before, key@, value@, i as int);
            }
            let ghost prev = pairs@;
            let ghost entry = (key, value);
            pairs.set(i, (key, value));
            assert(pairs@ == prev.update(i as int, entry));
            assert(entry.deep_view() == (k, v));
            assert forall|j: int| 0 <= j < pairs.len() implies pairs.deep_view()[j] == before.update(i as int, (k, v))[j] by {
                if j != i {
                    assert(pairs@[j] == prev[j]);
                }
            }
            assert(pairs.deep_view() =~= before.update(i as int, (k, v)));
            assert(pairs.deep_view() == upsert(before, k, v));
            return;
        }
        i += 1;
    }
    proof {
        lemma_upsert_absent(before, key@, value@);
    }
    pairs.push((key, value));
    assert(pairs.deep_view() =~= before.push((key@, value@)));
}

/// Set every pair of `more`, in order.
pub fn upsert_pairs(pairs: &mut Vec<(String, String)>, more: Vec<(String, String)>)
    ensures
        final(pairs).deep_view() == upsert_all(old(pairs).deep_view(), more.deep_view()),
{
    let ghost before = pairs.deep_view();
    let ghost all = more.deep_view();
    let mut i: usize = 0;
    assert(all.take(0) =~= Seq::<(Seq<char>, Seq<char>)>::empty());
    while i < more.len()
        invariant
            i <= more.len(),
            all == more.deep_view(),
            pairs.deep_view() == upsert_all(before, all.take(i as int)),
        decreases more.len() - i,
    {
        let key = more[i].0.clone();
        let value = more[i].1.clone();
        assert(all[i as int] == (key@, value@));
        upsert_pair(pairs, key, value);
        assert(all.take(i + 1).drop_last() =~= all.take(i as int));
        assert(all.take(i + 1).last() == all[i as int]);
        i += 1;
    }
    assert(all.take(more.len() as int) =~= all);
}

/// A copy of the vector of pairs.
pub fn clone_pairs(pairs: &Vec<(String, String)>) -> (r: Vec<(String, String)>)
    ensures
        r.deep_view() == pairs.deep_view(),
{
    let mut r: Vec<(String, String)> = Vec::with_capacity(pairs.len());
    let mut i: usize = 0;
    while i < pairs.len()
        invariant
            i <= pairs.len(),
            r.deep_view() == pairs.deep_view().take(i as int),
        decreases pairs.len() - i,
    {
        let ghost prev = r.deep_view();
        let k = pairs[i].0.clone();
        let v = pairs[i].1.clone();
        assert(pairs.deep_view()[i as int] == (k@, v@));
        r.push((k, v));
        assert(r.deep_view() =~= prev.push((k@, v@)));
        assert(r.deep_view() =~= pairs.deep_view().take(i + 1));
        i += 1;
    }
    assert(pairs.deep_view().take(pairs.len() as int) =~= pairs.deep_view());
    r
}

/// Setting two different keys gives the same map in either order.
pub proof fn lemma_upsert_commutes(
    pairs: Seq<(Seq<char>, Seq<char>)>,
    k1: Seq<char>,
    v1: Seq<char>,
    k2: Seq<char>,
    v2: Seq<char>,
)
    requires
        unique_keys(pairs),
        k1 != k2,
    ensures
        as_map(upsert(upsert(pairs, k1, v1), k2, v2)) == as_map(upsert(upsert(pairs, k2, v2), k1, v1)),
{
    lemma_upsert_unique(pairs, k1, v1);
    lemma_upsert_unique(pairs, k2, v2);
    lemma_upsert_as_map(pairs, k1, v1);
    lemma_upsert_as_map(pairs, k2, v2);
    lemma_upsert_as_map(upsert(pairs, k1, v1), k2, v2);
    lemma_upsert_as_map(upsert(pairs, k2, v2), k1, v1);
    assert(as_map(pairs).insert(k1, v1).insert(k2, v2) =~= as_map(pairs).insert(k2, v2).insert(k1, v1));
}

/// Whether every pair of `a` is an entry of the map of `b`.
pub open spec fn entries_within(a: Seq<(Seq<char>, Seq<char>)>, b: Seq<(Seq<char>, Seq<char>)>) -> bool {
    forall|i: int| 0 <= i < a.len() ==> as_map(b).dom().contains(#[trigger] a[i].0) && as_map(b)[a[i].0] == a[i].1
}

/// Two vectors of pairs with unique keys hold the same map exactly when each one's pairs are
/// entries of the other's map.
proof fn lemma_same_map(a: Seq<(Seq<char>, Seq<char>)>, b: Seq<(Seq<char>, Seq<char>)>)
    requires
        unique_keys(a),
        unique_keys(b),
    ensures
        (entries_within(a, b) && entries_within(b, a)) <==> as_map(a) == as_map(b),
{
    if as_map(a) == as_map(b) {
        assert forall|i: int| 0 <= i < a.len() implies as_map(b).dom().contains(#[trigger] a[i].0) && as_map(b)[a[i].0] == a[i].1 by {
            lemma_as_map_value(a, i);
        }
        assert forall|i: int| 0 <= i < b.len() implies as_map(a).dom().contains(#[trigger] b[i].0) && as_map(a)[b[i].0] == b[i].1 by {
            lemma_as_map_value(b, i);
        }
    }
    if entries_within(a, b) && entries_within(b, a) {
        assert forall|k: Seq<char>| #[trigger] as_map(a).dom().contains(k) implies as_map(b).dom().contains(k) && as_map(b)[k] == as_map(a)[k] by {
            lemma_as_map_dom(a, k);
            let i = choose|i: int| 0 <= i < a.len() && #[trigger] a[i].0 == k;
            lemma_as_map_value(a, i);
        }
        assert forall|k: Seq<char>| #[trigger] as_map(b).dom().contains(k) implies as_map(a).dom().contains(k) by {
            lemma_as_map_dom(b, k);
            let i = choose|i: int| 0 <= i < b.len() && #[trigger] b[i].0 == k;
            assert(as_map(a).dom().contains(b[i].0));
        }
        assert(as_map(a) =~= as_map(b));
    }
}

/// Whether every pair of `a` is an entry of the map of `b`.
fn includes_entries(a: &Vec<(String, String)>, b: &Vec<(String, String)>) -> (r: bool)
    requires
        unique_keys(b.deep_view()),
    ensures
        r == entries_within(a.deep_view(), b.deep_view()),
{
    let ghost da = a.deep_view();
    let ghost db = b.deep_view();
    let mut i: usize = 0;
    while i < a.len()
        invariant
            i <= a.len(),
            da == a.deep_view(),
            db == b.deep_view(),
            unique_keys(db),
            forall|j: int| 0 <= j < i ==> as_map(db).dom().contains(#[trigger] da[j].0) && as_map(db)[da[j].0] == da[j].1,
        decreases a.len() - i,
    {
        assert(da[i as int] == (a[i as int].0@, a[i as int].1@));
        proof {
            lemma_as_map_dom(db, da[i as int].0);
        }
        match get_value(b, a[i].0.as_str()) {
            Some(v) => {
                if *v != a[i].1 {
                    return false;
                }
            },
            None => {
                return false;
            },
        }
        i += 1;
    }
    true
}

/// Whether two vectors of pairs with unique keys hold the same map, whatever the order of their
/// pairs.
pub fn same_entries(a: &Vec<(String, String)>, b: &Vec<(String, String)>) -> (r: bool)
    requires
        unique_keys(a.deep_view()),
        unique_keys(b.deep_view()),
    ensures
        r == (as_map(a.deep_view()) == as_map(b.deep_view())),
{
    proof {
        lemma_same_map(a.deep_view(), b.deep_view());
    }
    includes_entries(a, b) && includes_entries(b, a)
}

} // verus!
