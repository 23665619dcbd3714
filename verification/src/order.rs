//! The order of a listing: names ascend by their lower-case form, and names
//! that agree in it keep the order in which they were read.

use vstd::prelude::*;
use vstd::string::*;
use crate::names::string_views;

verus! {

/// The lower-case form of a string, as `str::to_lowercase` of the standard
/// library computes it.
pub uninterp spec fn lowercase(s: Seq<char>) -> Seq<char>;

/// Calls `str::to_lowercase`. The standard library documents the result as
/// the lower-case equivalent of the string, a function of its characters
/// alone; the contract gives that result its name and claims nothing more.
#[verifier::external_body]
fn to_lowercase(s: &str) -> (lower: String)
    ensures
        lower@ == lowercase(s@),
{
    s.to_lowercase()
}

/// Lexicographic order of two character sequences by code point: a sequence
/// comes before each of its extensions.
pub open spec fn lex_le(a: Seq<char>, b: Seq<char>) -> bool
    decreases a.len(),
{
    if a.len() == 0 {
        true
    } else if b.len() == 0 {
        false
    } else if a[0] != b[0] {
        a[0] < b[0]
    } else {
        lex_le(a.skip(1), b.skip(1))
    }
}

/// Of two sequences, one comes before the other or they are equal in order.
pub proof fn lemma_lex_le_total(a: Seq<char>, b: Seq<char>)
    ensures
        lex_le(a, b) || lex_le(b, a),
    decreases a.len(),
{
    if a.len() > 0 && b.len() > 0 && a[0] == b[0] {
        lemma_lex_le_total(a.skip(1), b.skip(1));
    }
}

/// The order is transitive.
pub proof fn lemma_lex_le_transitive(a: Seq<char>, b: Seq<char>, c: Seq<char>)
    requires
        lex_le(a, b),
        lex_le(b, c),
    ensures
        lex_le(a, c),
    decreases a.len(),
{
    if a.len() > 0 && b.len() > 0 && c.len() > 0 && a[0] == b[0] && b[0] == c[0] {
        lemma_lex_le_transitive(a.skip(1), b.skip(1), c.skip(1));
    }
}

/// Decides the lexicographic order of two keys.
pub fn key_le(a: &Vec<char>, b: &Vec<char>) -> (le: bool)
    ensures
        le == lex_le(a@, b@),
{
    let mut i: usize = 0;
    assert(a@.skip(0) =~= a@ && b@.skip(0) =~= b@);
    while i < a.len() && i < b.len()
        invariant
            i <= a.len(),
            i <= b.len(),
            lex_le(a@, b@) == lex_le(a@.skip(i as int), b@.skip(i as int)),
        decreases a.len() - i,
    {
        if a[i] != b[i] {
            return a[i] < b[i];
        }
        proof {
            assert(a@.skip(i as int).skip(1) =~= a@.skip(i + 1));
            assert(b@.skip(i as int).skip(1) =~= b@.skip(i + 1));
        }
        i += 1;
    }
    i >= a.len()
}

/// The key by which a name is ordered: its lower-case form.
pub fn sort_key(name: &str) -> (key: Vec<char>)
    ensures
        key@ == lowercase(name@),
{
    let lower = to_lowercase(name);
    let n = lower.as_str().unicode_len();
    let mut key: Vec<char> = Vec::new();
    let mut i: usize = 0;
    while i < n
        invariant
            i <= n,
            n == lower@.len(),
            key@ == lower@.take(i as int),
        decreases n - i,
    {
        key.push(lower.as_str().get_char(i));
        assert(key@ =~= lower@.take(i + 1));
        i += 1;
    }
    assert(lower@.take(n as int) =~= lower@);
    key
}

/// A name together with the key that orders it.
pub struct KeyedName {
    pub key: Vec<char>,
    pub name: String,
}

impl View for KeyedName {
    type V = (Seq<char>, Seq<char>);

    /// The key, then the name.
    open spec fn view(&self) -> (Seq<char>, Seq<char>) {
        (self.key@, self.name@)
    }
}

/// What a sequence of keyed names holds.
pub open spec fn keyed_views(items: Seq<KeyedName>) -> Seq<(Seq<char>, Seq<char>)> {
    items.map_values(|item: KeyedName| item@)
}

/// The names of a sequence of keyed names.
pub open spec fn names_of(items: Seq<(Seq<char>, Seq<char>)>) -> Seq<Seq<char>> {
    items.map_values(|item: (Seq<char>, Seq<char>)| item.1)
}

/// Each name with its lower-case form as key.
pub open spec fn with_lowercase_keys(names: Seq<Seq<char>>) -> Seq<(Seq<char>, Seq<char>)> {
    names.map_values(|name: Seq<char>| (lowercase(name), name))
}

/// The keys of the items ascend.
pub open spec fn is_ascending(items: Seq<(Seq<char>, Seq<char>)>) -> bool {
    forall|i: int, j: int| 0 <= i < j < items.len() ==> lex_le(items[i].0, items[j].0)
}

/// Where an item with this key goes into ascending items: behind the last
/// item whose key is not greater.
pub open spec fn insertion_point(items: Seq<(Seq<char>, Seq<char>)>, key: Seq<char>) -> int
    decreases items.len(),
{
    if items.len() == 0 {
        0
    } else if lex_le(items.last().0, key) {
        items.len() as int
    } else {
        insertion_point(items.drop_last(), key)
    }
}

/// The items in ascending order of their keys; items with keys that are equal
/// in order stay in the order in which they came.
pub open spec fn stable_sorted(items: Seq<(Seq<char>, Seq<char>)>) -> Seq<(Seq<char>, Seq<char>)>
    decreases items.len(),
{
    if items.len() == 0 {
        Seq::empty()
    } else {
        let rest = stable_sorted(items.drop_last());
        rest.insert(insertion_point(rest, items.last().0), items.last())
    }
}

/// Names in ascending order of their lower-case forms.
pub open spec fn sorted_names(names: Seq<Seq<char>>) -> Seq<Seq<char>> {
    names_of(stable_sorted(with_lowercase_keys(names)))
}

/// The insertion point lies within the items; every item from it on has a
/// greater key, and the item before it, if any, has not.
pub proof fn lemma_insertion_point(items: Seq<(Seq<char>, Seq<char>)>, key: Seq<char>)
    ensures
        0 <= insertion_point(items, key) <= items.len(),
        forall|j: int| insertion_point(items, key) <= j < items.len() ==> !lex_le(items[j].0, key),
        insertion_point(items, key) > 0 ==> lex_le(items[insertion_point(items, key) - 1].0, key),
    decreases items.len(),
{
    if items.len() > 0 && !lex_le(items.last().0, key) {
        let front = items.drop_last();
        lemma_insertion_point(front, key);
        assert forall|j: int| insertion_point(items, key) <= j < items.len() implies !lex_le(
            items[j].0,
            key,
        ) by {
            if j < front.len() {
                assert(items[j] == front[j]);
            }
        }
    }
}

/// Sorting keeps the number of items.
pub proof fn lemma_stable_sorted_len(items: Seq<(Seq<char>, Seq<char>)>)
    ensures
        stable_sorted(items).len() == items.len(),
    decreases items.len(),
{
    if items.len() > 0 {
        lemma_stable_sorted_len(items.drop_last());
        lemma_insertion_point(stable_sorted(items.drop_last()), items.last().0);
    }
}

/// The keys of sorted items ascend.
pub proof fn lemma_stable_sorted_ascending(items: Seq<(Seq<char>, Seq<char>)>)
    ensures
        is_ascending(stable_sorted(items)),
    decreases items.len(),
{
    if items.len() > 0 {
        let rest = stable_sorted(items.drop_last());
        let key = items.last().0;
        let p = insertion_point(rest, key);
        let sorted = stable_sorted(items);
        lemma_stable_sorted_ascending(items.drop_last());
        lemma_insertion_point(rest, key);
        assert forall|i: int, j: int| 0 <= i < j < sorted.len() implies lex_le(
            sorted[i].0,
            sorted[j].0,
        ) by {
            if j < p {
                assert(sorted[i] == rest[i] && sorted[j] == rest[j]);
            } else if j == p {
                assert(sorted[i] == rest[i]);
                if i < p - 1 {
                    lemma_lex_le_transitive(rest[i].0, rest[p - 1].0, key);
                }
            } else if i == p {
                assert(sorted[j] == rest[j - 1]);
                lemma_lex_le_total(rest[j - 1].0, key);
            } else if i < p {
                assert(sorted[i] == rest[i] && sorted[j] == rest[j - 1]);
            } else {
                assert(sorted[i] == rest[i - 1] && sorted[j] == rest[j - 1]);
            }
        }
    }
}

/// Sorting rearranges the items: each occurs as often as before.
pub proof fn lemma_stable_sorted_permutation(items: Seq<(Seq<char>, Seq<char>)>)
    ensures
        stable_sorted(items).to_multiset() == items.to_multiset(),
    decreases items.len(),
{
    broadcast use vstd::seq_lib::to_multiset_insert, vstd::seq_lib::to_multiset_build;

    if items.len() > 0 {
        let rest = stable_sorted(items.drop_last());
        lemma_stable_sorted_permutation(items.drop_last());
        lemma_insertion_point(rest, items.last().0);
        assert(items.drop_last().push(items.last()) =~= items);
    } else {
        assert(stable_sorted(items) =~= items);
    }
}

/// Items whose keys ascend already stay as they are.
pub proof fn lemma_stable_sorted_of_ascending(items: Seq<(Seq<char>, Seq<char>)>)
    requires
        is_ascending(items),
    ensures
        stable_sorted(items) == items,
    decreases items.len(),
{
    if items.len() > 0 {
        let front = items.drop_last();
        assert(is_ascending(front)) by {
            assert forall|i: int, j: int| 0 <= i < j < front.len() implies lex_le(
                front[i].0,
                front[j].0,
            ) by {
                assert(front[i] == items[i] && front[j] == items[j]);
            }
        }
        lemma_stable_sorted_of_ascending(front);
        if front.len() > 0 {
            assert(front.last() == items[front.len() - 1]);
            assert(lex_le(front.last().0, items.last().0));
        }
        assert(insertion_point(front, items.last().0) == front.len());
        assert(front.insert(front.len() as int, items.last()) =~= items);
    } else {
        assert(stable_sorted(items) =~= items);
    }
}

/// The lower-case forms of the names ascend.
pub open spec fn names_ascending(names: Seq<Seq<char>>) -> bool {
    forall|i: int, j: int|
        0 <= i < j < names.len() ==> lex_le(lowercase(names[i]), lowercase(names[j]))
}

/// Sorting names step by step: the last name goes into the sorted earlier
/// ones at its insertion point.
pub proof fn lemma_sorted_names_step(names: Seq<Seq<char>>)
    requires
        names.len() > 0,
    ensures
        0 <= insertion_point(
            stable_sorted(with_lowercase_keys(names.drop_last())),
            lowercase(names.last()),
        ) <= names.len() - 1,
        sorted_names(names.drop_last()).len() == names.len() - 1,
        sorted_names(names) == sorted_names(names.drop_last()).insert(
            insertion_point(
                stable_sorted(with_lowercase_keys(names.drop_last())),
                lowercase(names.last()),
            ),
            names.last(),
        ),
{
    let items = with_lowercase_keys(names);
    let rest = stable_sorted(items.drop_last());
    let p = insertion_point(rest, items.last().0);
    assert(items.drop_last() =~= with_lowercase_keys(names.drop_last()));
    lemma_stable_sorted_len(items.drop_last());
    lemma_insertion_point(rest, items.last().0);
    assert(names_of(rest.insert(p, items.last())) =~= names_of(rest).insert(p, names.last()));
}

/// Sorted names are the same names, each as often as before.
pub proof fn lemma_sorted_names_permutation(names: Seq<Seq<char>>)
    ensures
        sorted_names(names).len() == names.len(),
        sorted_names(names).to_multiset() == names.to_multiset(),
    decreases names.len(),
{
    broadcast use vstd::seq_lib::to_multiset_insert, vstd::seq_lib::to_multiset_build;

    if names.len() > 0 {
        lemma_sorted_names_permutation(names.drop_last());
        lemma_sorted_names_step(names);
        assert(names.drop_last().push(names.last()) =~= names);
    } else {
        assert(sorted_names(names) =~= names);
    }
}

/// Every sorted name is one of the names that were sorted, and the other
/// way round.
pub proof fn lemma_sorted_names_contains(names: Seq<Seq<char>>, name: Seq<char>)
    ensures
        sorted_names(names).contains(name) <==> names.contains(name),
{
    lemma_sorted_names_permutation(names);
    vstd::seq_lib::to_multiset_contains(sorted_names(names), name);
    vstd::seq_lib::to_multiset_contains(names, name);
}

/// The lower-case forms of sorted names ascend.
pub proof fn lemma_sorted_names_ascending(names: Seq<Seq<char>>)
    ensures
        names_ascending(sorted_names(names)),
{
    let keyed = stable_sorted(with_lowercase_keys(names));
    let sorted = sorted_names(names);
    lemma_stable_sorted_ascending(with_lowercase_keys(names));
    lemma_sorted_names_keys(names);
    assert forall|i: int, j: int| 0 <= i < j < sorted.len() implies lex_le(
        lowercase(sorted[i]),
        lowercase(sorted[j]),
    ) by {
        assert(keyed[i].0 == lowercase(sorted[i]));
        assert(keyed[j].0 == lowercase(sorted[j]));
    }
}

/// Sorting and then changing each name gives the changed names, each as
/// often as changing the names alone does.
pub proof fn lemma_sorted_names_mapped(names: Seq<Seq<char>>, change: spec_fn(Seq<char>) -> Seq<char>)
    ensures
        sorted_names(names).map_values(change).to_multiset() == names.map_values(
            change,
        ).to_multiset(),
    decreases names.len(),
{
    broadcast use vstd::seq_lib::to_multiset_insert, vstd::seq_lib::to_multiset_build;

    if names.len() > 0 {
        let front = names.drop_last();
        let p = insertion_point(
            stable_sorted(with_lowercase_keys(front)),
            lowercase(names.last()),
        );
        lemma_sorted_names_mapped(front, change);
        lemma_sorted_names_step(names);
        assert(sorted_names(names).map_values(change) =~= sorted_names(front).map_values(
            change,
        ).insert(p, change(names.last())));
        assert(names.map_values(change) =~= front.map_values(change).push(change(names.last())));
    } else {
        assert(sorted_names(names) =~= names);
    }
}

/// Each sorted item still carries the lower-case form of its own name as key.
pub proof fn lemma_sorted_names_keys(names: Seq<Seq<char>>)
    ensures
        stable_sorted(with_lowercase_keys(names)).len() == names.len(),
        forall|i: int|
            0 <= i < names.len() ==> (#[trigger] stable_sorted(with_lowercase_keys(names))[i]).0
                == lowercase(sorted_names(names)[i]),
    decreases names.len(),
{
    let items = with_lowercase_keys(names);
    lemma_stable_sorted_len(items);
    if names.len() > 0 {
        let rest = stable_sorted(items.drop_last());
        let p = insertion_point(rest, items.last().0);
        assert(items.drop_last() =~= with_lowercase_keys(names.drop_last()));
        lemma_sorted_names_keys(names.drop_last());
        lemma_insertion_point(rest, items.last().0);
        lemma_sorted_names_step(names);
        let sorted = stable_sorted(items);
        assert forall|i: int| 0 <= i < names.len() implies (#[trigger] sorted[i]).0 == lowercase(
            sorted_names(names)[i],
        ) by {
            if i < p {
                assert(sorted[i] == rest[i]);
            } else if i > p {
                assert(sorted[i] == rest[i - 1]);
            }
        }
    }
}

/// The items that a sequence of indices picks, in the order of the indices.
spec fn picked(items: Seq<(Seq<char>, Seq<char>)>, order: Seq<usize>) -> Seq<(Seq<char>, Seq<char>)> {
    Seq::new(order.len(), |j: int| items[order[j] as int])
}

/// Returns the names of the items, in ascending order of their keys; names
/// whose keys are equal in order stay in the order in which they came.
pub fn sort_keyed(items: &Vec<KeyedName>) -> (names: Vec<String>)
    ensures
        string_views(names@) == names_of(stable_sorted(keyed_views(items@))),
{
    let n = items.len();
    let ghost views = keyed_views(items@);
    let mut order: Vec<usize> = Vec::new();
    let mut i: usize = 0;
    assert(picked(views, order@) =~= stable_sorted(views.take(0)));
    while i < n
        invariant
            i <= n,
            n == items.len(),
            views == keyed_views(items@),
            order.len() == i,
            forall|j: int| 0 <= j < i ==> order[j] < n,
            picked(views, order@) == stable_sorted(views.take(i as int)),
        decreases n - i,
    {
        let ghost sorted = picked(views, order@);
        let ghost key = views[i as int].0;
        let mut p: usize = i;
        let mut placed = false;
        assert(sorted.take(p as int) =~= sorted);
        while p > 0 && !placed
            invariant
                p <= i,
                i < n,
                n == items.len(),
                views == keyed_views(items@),
                key == views[i as int].0,
                order.len() == i,
                forall|j: int| 0 <= j < i ==> order[j] < n,
                sorted == picked(views, order@),
                insertion_point(sorted, key) == insertion_point(sorted.take(p as int), key),
                placed ==> p > 0 && lex_le(sorted[p - 1].0, key),
            decreases p + (if placed { 0int } else { 1int }),
        {
            let before = order[p - 1];
            if key_le(&items[before].key, &items[i].key) {
                placed = true;
            } else {
                assert(sorted.take(p as int).drop_last() =~= sorted.take(p - 1));
                p -= 1;
            }
        }
        assert(insertion_point(sorted, key) == p) by {
            if placed {
                assert(sorted.take(p as int).last() == sorted[p - 1]);
            }
        }
        order.insert(p, i);
        proof {
            let next = views.take(i + 1);
            assert(next.drop_last() =~= views.take(i as int));
            assert(next.last() == views[i as int]);
            assert(picked(views, order@) =~= sorted.insert(p as int, views[i as int]));
        }
        i += 1;
    }
    assert(views.take(n as int) =~= views);
    let ghost sorted = stable_sorted(views);
    let mut names: Vec<String> = Vec::new();
    let mut j: usize = 0;
    while j < n
        invariant
            j <= n,
            n == items.len(),
            views == keyed_views(items@),
            order.len() == n,
            forall|k: int| 0 <= k < n ==> order[k] < n,
            sorted == picked(views, order@),
            names.len() == j,
            string_views(names@) == names_of(sorted).take(j as int),
        decreases n - j,
    {
        let ghost earlier = names@;
        let name = items[order[j]].name.clone();
        names.push(name);
        proof {
            assert(sorted[j as int] == views[order[j as int] as int]);
            assert(name@ == names_of(sorted)[j as int]);
            assert forall|k: int| 0 <= k < j + 1 implies string_views(names@)[k] == names_of(
                sorted,
            ).take(j + 1)[k] by {
                if k < j {
                    assert(string_views(earlier)[k] == names_of(sorted).take(j as int)[k]);
                }
            }
            assert(string_views(names@) =~= names_of(sorted).take(j + 1));
        }
        j += 1;
    }
    assert(names_of(sorted).take(n as int) =~= names_of(sorted));
    names
}

/// Returns the names in ascending order of their lower-case forms; names with
/// the same lower-case form stay in the order in which they came.
pub fn sort_names(names: &Vec<String>) -> (sorted: Vec<String>)
    ensures
        string_views(sorted@) == sorted_names(string_views(names@)),
{
    let n = names.len();
    let mut items: Vec<KeyedName> = Vec::new();
    let mut i: usize = 0;
    while i < n
        invariant
            i <= n,
            n == names.len(),
            items.len() == i,
            keyed_views(items@) == with_lowercase_keys(string_views(names@)).take(i as int),
        decreases n - i,
    {
        let ghost earlier = items@;
        let ghost keyed = with_lowercase_keys(string_views(names@));
        let key = sort_key(names[i].as_str());
        items.push(KeyedName { key, name: names[i].clone() });
        proof {
            assert(string_views(names@)[i as int] == names[i as int]@);
            assert(items@[i as int]@ == keyed[i as int]);
            assert forall|k: int| 0 <= k < i + 1 implies keyed_views(items@)[k] == keyed.take(
                i + 1,
            )[k] by {
                if k < i {
                    assert(keyed_views(earlier)[k] == keyed.take(i as int)[k]);
                }
            }
            assert(keyed_views(items@) =~= keyed.take(i + 1));
        }
        i += 1;
    }
    assert(with_lowercase_keys(string_views(names@)).take(n as int) =~= with_lowercase_keys(
        string_views(names@),
    ));
    sort_keyed(&items)
}

} // verus!
