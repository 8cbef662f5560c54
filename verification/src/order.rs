//! The order of texts, and a stable sort of positions by their keys.
//!
//! Texts are ordered as strings are: character by character, by code point,
//! a text before every longer text that begins with it.

use vstd::prelude::*;

verus! {

/// `a` comes before `b` in the order of texts.
pub open spec fn text_less(a: Seq<char>, b: Seq<char>) -> bool
    decreases a.len(),
{
    if b.len() == 0 {
        false
    } else if a.len() == 0 {
        true
    } else if a[0] != b[0] {
        (a[0] as u32) < (b[0] as u32)
    } else {
        text_less(a.drop_first(), b.drop_first())
    }
}

/// Different characters have different code points.
pub proof fn lemma_code_points_differ(x: char, y: char)
    requires
        x != y,
    ensures
        x as u32 != y as u32,
{
}

/// No text comes before itself.
pub proof fn lemma_text_less_irreflexive(a: Seq<char>)
    ensures
        !text_less(a, a),
    decreases a.len(),
{
    if a.len() > 0 {
        lemma_text_less_irreflexive(a.drop_first());
    }
}

/// Of two different texts one comes before the other, and only one.
pub proof fn lemma_text_less_total(a: Seq<char>, b: Seq<char>)
    ensures
        text_less(a, b) || text_less(b, a) || a == b,
        !(text_less(a, b) && text_less(b, a)),
    decreases a.len(),
{
    if a.len() > 0 && b.len() > 0 {
        if a[0] == b[0] {
            lemma_text_less_total(a.drop_first(), b.drop_first());
            if a.drop_first() == b.drop_first() {
                assert(a =~= seq![a[0]] + a.drop_first());
            }
        } else {
            lemma_code_points_differ(a[0], b[0]);
        }
    }
}

/// The order of texts is transitive.
pub proof fn lemma_text_less_transitive(a: Seq<char>, b: Seq<char>, c: Seq<char>)
    requires
        text_less(a, b),
        text_less(b, c),
    ensures
        text_less(a, c),
    decreases a.len(),
{
    if a.len() > 0 && b.len() > 0 && c.len() > 0 {
        if a[0] == b[0] && b[0] == c[0] {
            lemma_text_less_transitive(a.drop_first(), b.drop_first(), c.drop_first());
        }
    }
}

/// Whether `a` comes before `b` in the order of texts.
pub fn less_than(a: &Vec<char>, b: &Vec<char>) -> (less: bool)
    ensures
        less == text_less(a@, b@),
{
    let mut i: usize = 0;
    assert(a@.skip(0) =~= a@);
    assert(b@.skip(0) =~= b@);
    while i < a.len() && i < b.len()
        invariant
            i <= a.len(),
            i <= b.len(),
            text_less(a@, b@) == text_less(a@.skip(i as int), b@.skip(i as int)),
        decreases a.len() - i,
    {
        let ghost x = a@.skip(i as int);
        let ghost y = b@.skip(i as int);
        assert(x.drop_first() =~= a@.skip(i + 1));
        assert(y.drop_first() =~= b@.skip(i + 1));
        if a[i] != b[i] {
            return (a[i] as u32) < (b[i] as u32);
        }
        i += 1;
    }
    i < b.len()
}

/// In a list sorted by `keys`, the position `a` has to stand before the
/// position `b`: its key comes first, or, in descending order, last.
/// Positions without a key have to stand nowhere.
pub open spec fn goes_before(keys: Seq<Seq<char>>, descending: bool, a: usize, b: usize) -> bool {
    if a < keys.len() && b < keys.len() {
        if descending {
            text_less(keys[b as int], keys[a as int])
        } else {
            text_less(keys[a as int], keys[b as int])
        }
    } else {
        false
    }
}

/// A sorted list with `x` put in: behind every position that need not stand
/// behind it.
pub open spec fn insert_sorted(
    sorted: Seq<usize>,
    x: usize,
    keys: Seq<Seq<char>>,
    descending: bool,
) -> Seq<usize>
    decreases sorted.len(),
{
    if sorted.len() > 0 && goes_before(keys, descending, x, sorted.last()) {
        insert_sorted(sorted.drop_last(), x, keys, descending).push(sorted.last())
    } else {
        sorted.push(x)
    }
}

/// The positions of `list` sorted by their keys; positions with equal keys
/// stay in the order they had.
pub open spec fn stable_sorted(list: Seq<usize>, keys: Seq<Seq<char>>, descending: bool) -> Seq<
    usize,
>
    decreases list.len(),
{
    if list.len() == 0 {
        Seq::empty()
    } else {
        insert_sorted(stable_sorted(list.drop_last(), keys, descending), list.last(), keys, descending)
    }
}

/// No position of `list` stands behind one that it has to stand before.
pub open spec fn is_sorted(list: Seq<usize>, keys: Seq<Seq<char>>, descending: bool) -> bool {
    forall|i: int, j: int|
        0 <= i < j < list.len() ==> !goes_before(keys, descending, list[j], list[i])
}

/// Whoever need not stand before `b` need not stand before what `b` need
/// not stand before.
proof fn lemma_goes_before_chain(
    keys: Seq<Seq<char>>,
    descending: bool,
    a: usize,
    b: usize,
    c: usize,
)
    requires
        a < keys.len(),
        b < keys.len(),
        c < keys.len(),
        !goes_before(keys, descending, a, b),
        !goes_before(keys, descending, b, c),
    ensures
        !goes_before(keys, descending, a, c),
{
    let ka = keys[a as int];
    let kb = keys[b as int];
    let kc = keys[c as int];
    lemma_text_less_total(ka, kb);
    lemma_text_less_total(kb, kc);
    lemma_text_less_total(ka, kc);
    if descending {
        if text_less(ka, kb) && text_less(kb, kc) {
            lemma_text_less_transitive(ka, kb, kc);
        }
    } else {
        if text_less(kc, kb) && text_less(kb, ka) {
            lemma_text_less_transitive(kc, kb, ka);
        }
    }
}

/// Putting a position into a sorted list keeps the list sorted and adds
/// just that position.
pub proof fn lemma_insert_sorted(
    sorted: Seq<usize>,
    x: usize,
    keys: Seq<Seq<char>>,
    descending: bool,
)
    requires
        is_sorted(sorted, keys, descending),
        x < keys.len(),
        forall|i: int| 0 <= i < sorted.len() ==> sorted[i] < keys.len(),
    ensures
        is_sorted(insert_sorted(sorted, x, keys, descending), keys, descending),
        insert_sorted(sorted, x, keys, descending).len() == sorted.len() + 1,
        insert_sorted(sorted, x, keys, descending).to_multiset() == sorted.to_multiset().insert(x),
        forall|i: int|
            0 <= i < sorted.len() + 1 ==> #[trigger] insert_sorted(sorted, x, keys, descending)[i]
                < keys.len(),
    decreases sorted.len(),
{
    broadcast use vstd::seq_lib::group_to_multiset_ensures;

    let out = insert_sorted(sorted, x, keys, descending);
    if sorted.len() > 0 && goes_before(keys, descending, x, sorted.last()) {
        let front = sorted.drop_last();
        let last = sorted.last();
        lemma_insert_sorted(front, x, keys, descending);
        assert(sorted =~= front.push(last));
        assert forall|i: int, j: int| 0 <= i < j < out.len() implies !goes_before(
            keys,
            descending,
            out[j],
            out[i],
        ) by {
            if j == out.len() - 1 {
                lemma_member_of_insert(front, x, keys, descending, i);
                if out[i] == x {
                    lemma_text_less_total(keys[x as int], keys[last as int]);
                }
            }
        }
    } else {
        assert forall|i: int, j: int| 0 <= i < j < out.len() implies !goes_before(
            keys,
            descending,
            out[j],
            out[i],
        ) by {
            if j == out.len() - 1 && i < sorted.len() - 1 {
                lemma_goes_before_chain(keys, descending, x, sorted.last(), sorted[i]);
            }
        }
    }
}

/// Every position of a list with `x` put in is `x` or a position of the
/// list.
proof fn lemma_member_of_insert(
    sorted: Seq<usize>,
    x: usize,
    keys: Seq<Seq<char>>,
    descending: bool,
    i: int,
)
    requires
        0 <= i < insert_sorted(sorted, x, keys, descending).len(),
    ensures
        insert_sorted(sorted, x, keys, descending)[i] == x || exists|at: int|
            0 <= at < sorted.len() && sorted[at] == insert_sorted(sorted, x, keys, descending)[i],
    decreases sorted.len(),
{
    if sorted.len() > 0 && goes_before(keys, descending, x, sorted.last()) {
        let front = sorted.drop_last();
        if i < insert_sorted(front, x, keys, descending).len() {
            lemma_member_of_insert(front, x, keys, descending, i);
        }
    }
}

/// A sorted list is sorted, and holds the positions of the list it was made
/// from, each as often as that list.
pub proof fn lemma_stable_sorted(list: Seq<usize>, keys: Seq<Seq<char>>, descending: bool)
    requires
        forall|i: int| 0 <= i < list.len() ==> list[i] < keys.len(),
    ensures
        is_sorted(stable_sorted(list, keys, descending), keys, descending),
        stable_sorted(list, keys, descending).len() == list.len(),
        stable_sorted(list, keys, descending).to_multiset() == list.to_multiset(),
        forall|i: int|
            0 <= i < list.len() ==> #[trigger] stable_sorted(list, keys, descending)[i]
                < keys.len(),
    decreases list.len(),
{
    broadcast use vstd::seq_lib::group_to_multiset_ensures;

    if list.len() > 0 {
        let front = list.drop_last();
        lemma_stable_sorted(front, keys, descending);
        lemma_insert_sorted(stable_sorted(front, keys, descending), list.last(), keys, descending);
        assert(list =~= front.push(list.last()));
    }
}

/// Where `x` comes to stand in a sorted list: behind the positions before
/// the place, which keep their order, and before those from the place on,
/// each of which it has to stand before.
proof fn lemma_insert_place(sorted: Seq<usize>, x: usize, keys: Seq<Seq<char>>, descending: bool) -> (place:
    int)
    ensures
        0 <= place <= sorted.len(),
        insert_sorted(sorted, x, keys, descending) == sorted.take(place).push(x) + sorted.skip(
            place,
        ),
        forall|q: int| place <= q < sorted.len() ==> goes_before(keys, descending, x, sorted[q]),
    decreases sorted.len(),
{
    if sorted.len() > 0 && goes_before(keys, descending, x, sorted.last()) {
        let front = sorted.drop_last();
        let place = lemma_insert_place(front, x, keys, descending);
        assert(sorted.take(place) =~= front.take(place));
        assert(front.skip(place).push(sorted.last()) =~= sorted.skip(place));
        assert((front.take(place).push(x) + front.skip(place)).push(sorted.last())
            =~= sorted.take(place).push(x) + sorted.skip(place));
        assert forall|q: int| place <= q < sorted.len() implies goes_before(
            keys,
            descending,
            x,
            sorted[q],
        ) by {
            if q < front.len() {
                assert(sorted[q] == front[q]);
            }
        }
        place
    } else {
        assert(sorted.take(sorted.len() as int) =~= sorted);
        assert(sorted.push(x) =~= sorted.push(x) + sorted.skip(sorted.len() as int));
        sorted.len() as int
    }
}

/// Sorting is stable: of two positions of the list, the earlier one stands
/// before the later one in the sorted list too, unless the later one has to
/// stand before it.
pub proof fn lemma_stable_sorted_is_stable(
    list: Seq<usize>,
    keys: Seq<Seq<char>>,
    descending: bool,
    i: int,
    j: int,
)
    requires
        forall|k: int| 0 <= k < list.len() ==> list[k] < keys.len(),
        0 <= i < j < list.len(),
        !goes_before(keys, descending, list[j], list[i]),
    ensures
        exists|a: int, b: int|
            0 <= a < b < list.len() && #[trigger] stable_sorted(list, keys, descending)[a]
                == list[i] && #[trigger] stable_sorted(list, keys, descending)[b] == list[j],
    decreases list.len(),
{
    broadcast use vstd::seq_lib::group_to_multiset_ensures;

    let front = list.drop_last();
    let x = list.last();
    let sorted = stable_sorted(front, keys, descending);
    let out = stable_sorted(list, keys, descending);
    lemma_stable_sorted(front, keys, descending);
    lemma_stable_sorted(list, keys, descending);
    let place = lemma_insert_place(sorted, x, keys, descending);
    if j < list.len() - 1 {
        lemma_stable_sorted_is_stable(front, keys, descending, i, j);
        let (a, b) = choose|a: int, b: int|
            0 <= a < b < front.len() && #[trigger] sorted[a] == front[i] && #[trigger] sorted[b]
                == front[j];
        let a2 = if a < place {
            a
        } else {
            a + 1
        };
        let b2 = if b < place {
            b
        } else {
            b + 1
        };
        assert(out[a2] == list[i] && out[b2] == list[j]);
    } else {
        assert(front.to_multiset().count(list[i]) > 0) by {
            assert(front[i] == list[i]);
        }
        assert(sorted.contains(list[i]));
        let a = choose|a: int| 0 <= a < sorted.len() && sorted[a] == list[i];
        assert(a < place);
        assert(out[a] == list[i] && out[place] == list[j]);
    }
}

/// Puts `x` into a sorted list.
fn insert(sorted: &mut Vec<usize>, x: usize, keys: &Vec<Vec<char>>, descending: bool)
    ensures
        final(sorted)@ == insert_sorted(old(sorted)@, x, keys.deep_view(), descending),
{
    let ghost start = sorted@;
    let ghost k = keys.deep_view();
    let mut at: usize = sorted.len();
    assert(start.take(at as int) =~= start);
    while at > 0 && before(keys, descending, x, sorted[at - 1])
        invariant
            at <= sorted.len(),
            sorted@ == start,
            k == keys.deep_view(),
            insert_sorted(start, x, k, descending) =~= insert_sorted(
                start.take(at as int),
                x,
                k,
                descending,
            ) + start.skip(at as int),
        decreases at,
    {
        let ghost front = start.take(at as int);
        assert(front.drop_last() =~= start.take(at - 1));
        at -= 1;
    }
    sorted.insert(at, x);
}

/// Whether the position `a` has to stand before the position `b`.
pub fn before(keys: &Vec<Vec<char>>, descending: bool, a: usize, b: usize) -> (first: bool)
    ensures
        first == goes_before(keys.deep_view(), descending, a, b),
{
    if a < keys.len() && b < keys.len() {
        assert(keys.deep_view()[a as int] =~= keys[a as int]@);
        assert(keys.deep_view()[b as int] =~= keys[b as int]@);
        if descending {
            less_than(&keys[b], &keys[a])
        } else {
            less_than(&keys[a], &keys[b])
        }
    } else {
        false
    }
}

/// Sorts the positions of `list` by their keys; positions with equal keys
/// stay in the order they had. Where every position has a key, the result is
/// sorted and holds each position as often as the list does.
pub fn sort_by_keys(list: &Vec<usize>, keys: &Vec<Vec<char>>, descending: bool) -> (sorted: Vec<
    usize,
>)
    ensures
        sorted@ == stable_sorted(list@, keys.deep_view(), descending),
        (forall|i: int| 0 <= i < list.len() ==> list[i] < keys.len()) ==> is_sorted(
            sorted@,
            keys.deep_view(),
            descending,
        ) && sorted@.to_multiset() == list@.to_multiset(),
{
    let mut sorted: Vec<usize> = Vec::new();
    let mut i: usize = 0;
    while i < list.len()
        invariant
            i <= list.len(),
            sorted@ == stable_sorted(list@.take(i as int), keys.deep_view(), descending),
        decreases list.len() - i,
    {
        let ghost seen = list@.take(i + 1);
        assert(seen.drop_last() =~= list@.take(i as int));
        insert(&mut sorted, list[i], keys, descending);
        i += 1;
    }
    assert(list@.take(list.len() as int) =~= list@);
    proof {
        if forall|i: int| 0 <= i < list.len() ==> list[i] < keys.len() {
            lemma_stable_sorted(list@, keys.deep_view(), descending);
        }
    }
    sorted
}

} // verus!
