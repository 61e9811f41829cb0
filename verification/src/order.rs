//! Films from the best rated to the worst.
use crate::film::Film;
use crate::rating::Rating;
use vstd::prelude::*;

verus! {

/// The place of a rating among all ratings: a film without one comes below each film with one.
pub open spec fn rank(rating: Option<Rating>) -> int {
    match rating {
        None => 0,
        Some(r) => r.0 + 1,
    }
}

/// The place of a film by the rating of one member and, where that is equal, by the rating of
/// another. There are 257 places for one rating, so the first decides wherever it differs.
pub open spec fn pair_rank(entry: (Film, Option<Rating>)) -> int {
    rank(entry.0.rating) * 257 + rank(entry.1)
}

/// Whether items stand from the highest key to the lowest.
pub open spec fn descending<T>(s: Seq<T>, key: spec_fn(T) -> int) -> bool {
    forall|i: int, j: int| 0 <= i <= j < s.len() ==> key(#[trigger] s[i]) >= key(#[trigger] s[j])
}

/// The items of one key.
pub open spec fn of_key<T>(s: Seq<T>, key: spec_fn(T) -> int, k: int) -> Seq<T> {
    s.filter(|x: T| key(x) == k)
}

/// Whether `out` holds the items of `items` from the highest key to the lowest, and those of one
/// key in the order in which `items` has them.
pub open spec fn in_order<T>(out: Seq<T>, items: Seq<T>, key: spec_fn(T) -> int) -> bool {
    &&& descending(out, key)
    &&& forall|k: int| #[trigger] of_key(out, key, k) == of_key(items, key, k)
}

/// The items of one key in two sequences that are put together.
proof fn lemma_of_key_add<T>(a: Seq<T>, b: Seq<T>, key: spec_fn(T) -> int, k: int)
    ensures
        of_key(a + b, key, k) == of_key(a, key, k) + of_key(b, key, k),
{
    Seq::filter_distributes_over_add(a, b, |x: T| key(x) == k);
}

/// The items of one key when one item is added.
proof fn lemma_of_key_push<T>(s: Seq<T>, x: T, key: spec_fn(T) -> int, k: int)
    ensures
        of_key(s.push(x), key, k) == if key(x) == k {
            of_key(s, key, k).push(x)
        } else {
            of_key(s, key, k)
        },
{
    reveal(Seq::filter);
    assert(s.push(x).drop_last() =~= s);
}

/// Where no item has a key, there are none of that key.
proof fn lemma_of_key_none<T>(s: Seq<T>, key: spec_fn(T) -> int, k: int)
    requires
        forall|i: int| 0 <= i < s.len() ==> key(#[trigger] s[i]) != k,
    ensures
        of_key(s, key, k) == Seq::<T>::empty(),
    decreases s.len(),
{
    reveal(Seq::filter);
    if s.len() > 0 {
        lemma_of_key_none(s.drop_last(), key, k);
        assert(key(s[s.len() - 1]) != k);
    }
}

/// The items of the key of the first item start with that item.
proof fn lemma_of_key_first<T>(s: Seq<T>, key: spec_fn(T) -> int, k: int)
    requires
        s.len() > 0,
    ensures
        of_key(s, key, k) == if key(s[0]) == k {
            seq![s[0]] + of_key(s.skip(1), key, k)
        } else {
            of_key(s.skip(1), key, k)
        },
{
    let head = seq![s[0]];
    assert(s =~= head + s.skip(1));
    lemma_of_key_add(head, s.skip(1), key, k);
    let empty = Seq::<T>::empty();
    assert(head =~= empty.push(s[0]));
    lemma_of_key_push(empty, s[0], key, k);
    lemma_of_key_none(empty, key, k);
    if key(s[0]) == k {
        assert(of_key(head, key, k) =~= head);
    } else {
        assert(empty + of_key(s.skip(1), key, k) =~= of_key(s.skip(1), key, k));
    }
}

/// Two descending sequences with the same items of each key are the same.
proof fn lemma_descending_is_unique<T>(a: Seq<T>, b: Seq<T>, key: spec_fn(T) -> int)
    requires
        descending(a, key),
        descending(b, key),
        forall|k: int| #[trigger] of_key(a, key, k) == of_key(b, key, k),
    ensures
        a == b,
    decreases a.len() + b.len(),
{
    if a.len() == 0 {
        if b.len() > 0 {
            lemma_of_key_first(b, key, key(b[0]));
            lemma_of_key_none(a, key, key(b[0]));
            assert(of_key(a, key, key(b[0])) == of_key(b, key, key(b[0])));
            assert(of_key(b, key, key(b[0])).len() > 0);
        }
        assert(a =~= b);
    } else {
        let k = key(a[0]);
        lemma_of_key_first(a, key, k);
        assert(of_key(a, key, k) == of_key(b, key, k));
        assert(of_key(a, key, k).len() > 0);
        if b.len() == 0 {
            lemma_of_key_none(b, key, k);
        }
        let m = key(b[0]);
        lemma_of_key_first(b, key, m);
        assert(of_key(a, key, m) == of_key(b, key, m));
        assert(of_key(b, key, m).len() > 0);
        if m > k {
            lemma_of_key_none(a, key, m);
        }
        if k > m {
            lemma_of_key_none(b, key, k);
        }
        assert(k == m);
        assert(of_key(a, key, k)[0] == a[0]);
        assert(of_key(b, key, k)[0] == b[0]);
        assert forall|j: int| #[trigger]
            of_key(a.skip(1), key, j) == of_key(b.skip(1), key, j) by {
            lemma_of_key_first(a, key, j);
            lemma_of_key_first(b, key, j);
            assert(of_key(a, key, j) == of_key(b, key, j));
            if j == k {
                assert(of_key(a.skip(1), key, j) =~= of_key(a, key, j).skip(1));
                assert(of_key(b.skip(1), key, j) =~= of_key(b, key, j).skip(1));
            }
        }
        lemma_descending_is_unique(a.skip(1), b.skip(1), key);
        assert(a =~= seq![a[0]] + a.skip(1));
        assert(b =~= seq![b[0]] + b.skip(1));
    }
}

/// How often an item occurs can be counted among the items of its key.
proof fn lemma_count_of_key<T>(s: Seq<T>, key: spec_fn(T) -> int, x: T)
    ensures
        s.to_multiset().count(x) == of_key(s, key, key(x)).to_multiset().count(x),
    decreases s.len(),
{
    broadcast use vstd::seq_lib::group_to_multiset_ensures;

    let k = key(x);
    if s.len() == 0 {
        lemma_of_key_none(s, key, k);
        assert(s =~= of_key(s, key, k));
    } else {
        let rest = s.drop_last();
        lemma_count_of_key(rest, key, x);
        assert(s =~= rest.push(s.last()));
        lemma_of_key_push(rest, s.last(), key, k);
    }
}

/// The place by two ratings goes by the first, and by the second only where the first is equal.
pub proof fn law_second_rating_breaks_ties(
    a: (Film, Option<Rating>),
    b: (Film, Option<Rating>),
)
    ensures
        pair_rank(a) > pair_rank(b) <==> rank(a.0.rating) > rank(b.0.rating) || (rank(
            a.0.rating,
        ) == rank(b.0.rating) && rank(a.1) > rank(b.1)),
        pair_rank(a) == pair_rank(b) <==> a.0.rating == b.0.rating && a.1 == b.1,
{
}

/// There is only one order: what is put in order from the same items is the same.
pub proof fn law_order_is_unique<T>(a: Seq<T>, b: Seq<T>, items: Seq<T>, key: spec_fn(T) -> int)
    requires
        in_order(a, items, key),
        in_order(b, items, key),
    ensures
        a == b,
{
    assert forall|k: int| #[trigger] of_key(a, key, k) == of_key(b, key, k) by {
        assert(of_key(b, key, k) == of_key(items, key, k));
    }
    lemma_descending_is_unique(a, b, key);
}

/// Putting items in order neither adds nor loses one.
pub proof fn law_order_keeps_the_items<T>(out: Seq<T>, items: Seq<T>, key: spec_fn(T) -> int)
    requires
        in_order(out, items, key),
    ensures
        out.to_multiset() == items.to_multiset(),
        out.len() == items.len(),
{
    broadcast use vstd::seq_lib::group_to_multiset_ensures;

    assert forall|x: T| out.to_multiset().count(x) == items.to_multiset().count(x) by {
        lemma_count_of_key(out, key, x);
        lemma_count_of_key(items, key, x);
        assert(of_key(out, key, key(x)) == of_key(items, key, key(x)));
    }
    assert(out.to_multiset() =~= items.to_multiset());
    out.to_multiset_ensures();
    items.to_multiset_ensures();
}

/// The place of a rating among all ratings.
fn rank_of(rating: Option<Rating>) -> (res: u32)
    ensures
        res == rank(rating),
        res <= 256,
{
    match rating {
        None => 0,
        Some(r) => r.0 as u32 + 1,
    }
}

/// The place of a film by the ratings of two members.
fn pair_rank_of(entry: &(Film, Option<Rating>)) -> (res: u32)
    ensures
        res == pair_rank(*entry),
{
    rank_of(entry.0.rating) * 257 + rank_of(entry.1)
}

/// The items of a sequence in the opposite order.
fn reversed(mut items: Vec<(Film, Option<Rating>)>) -> (out: Vec<(Film, Option<Rating>)>)
    ensures
        out@ == items@.reverse(),
{
    let ghost all = items@;
    let mut out: Vec<(Film, Option<Rating>)> = Vec::new();
    while items.len() > 0
        invariant
            items@.len() + out@.len() == all.len(),
            items@ == all.take(items@.len() as int),
            out@ == all.skip(items@.len() as int).reverse(),
        decreases items.len(),
    {
        let ghost n = items@.len() as int;
        match items.pop() {
            Some(item) => {
                out.push(item);
            },
            None => {},
        }
        assert(items@ =~= all.take(n - 1));
        assert(out@ =~= all.skip(n - 1).reverse());
    }
    assert(all.skip(0) =~= all);
    out
}

/// One step of merging from the end: `left` and `right` are what is still to be merged, `done` is
/// merged, and the last item of `left` ranks below that of `right`.
proof fn lemma_take_left<T>(left: Seq<T>, right: Seq<T>, done: Seq<T>, key: spec_fn(T) -> int)
    requires
        left.len() > 0,
        descending(right, key),
        right.len() > 0 ==> key(left.last()) < key(right.last()),
    ensures
        forall|k: int| #[trigger]
            of_key(left.drop_last() + right + (seq![left.last()] + done), key, k) == of_key(
                left + right + done,
                key,
                k,
            ),
{
    let x = left.last();
    let rest = left.drop_last();
    assert forall|k: int| #[trigger]
        of_key(rest + right + (seq![x] + done), key, k) == of_key(left + right + done, key, k) by {
        lemma_of_key_add(rest + right, seq![x] + done, key, k);
        lemma_of_key_add(rest, right, key, k);
        lemma_of_key_first(seq![x] + done, key, k);
        assert((seq![x] + done).skip(1) =~= done);
        lemma_of_key_add(left + right, done, key, k);
        lemma_of_key_add(left, right, key, k);
        assert(left =~= rest.push(x));
        lemma_of_key_push(rest, x, key, k);
        if key(x) == k {
            lemma_of_key_none(right, key, k);
            assert(of_key(rest + right + (seq![x] + done), key, k) =~= of_key(
                left + right + done,
                key,
                k,
            ));
        }
    }
}

/// Merges two sequences that are in order; of equal ranks, those of `left` come first.
fn merge(
    mut left: Vec<(Film, Option<Rating>)>,
    mut right: Vec<(Film, Option<Rating>)>,
) -> (out: Vec<(Film, Option<Rating>)>)
    requires
        descending(left@, |e: (Film, Option<Rating>)| pair_rank(e)),
        descending(right@, |e: (Film, Option<Rating>)| pair_rank(e)),
    ensures
        in_order(out@, left@ + right@, |e: (Film, Option<Rating>)| pair_rank(e)),
{
    let ghost key = |e: (Film, Option<Rating>)| pair_rank(e);
    let ghost all = left@ + right@;
    let mut back: Vec<(Film, Option<Rating>)> = Vec::new();
    let ghost mut done = Seq::<(Film, Option<Rating>)>::empty();
    assert(left@ + right@ + done =~= all);
    while left.len() > 0 || right.len() > 0
        invariant
            key == (|e: (Film, Option<Rating>)| pair_rank(e)),
            done == back@.reverse(),
            descending(left@, key),
            descending(right@, key),
            descending(done, key),
            done.len() > 0 && left@.len() > 0 ==> key(left@.last()) >= key(done[0]),
            done.len() > 0 && right@.len() > 0 ==> key(right@.last()) >= key(done[0]),
            forall|k: int| #[trigger]
                of_key(left@ + right@ + done, key, k) == of_key(all, key, k),
        decreases left.len() + right.len(),
    {
        let from_left = if right.len() == 0 {
            true
        } else if left.len() == 0 {
            false
        } else {
            pair_rank_of(&left[left.len() - 1]) < pair_rank_of(&right[right.len() - 1])
        };
        let ghost old_left = left@;
        let ghost old_right = right@;
        let ghost old_done = done;
        let ghost old_back = back@;
        let taken = if from_left {
            left.pop()
        } else {
            right.pop()
        };
        match taken {
            Some(item) => {
                back.push(item);
                proof {
                    done = seq![item] + done;
                    assert(done =~= back@.reverse());
                    if from_left {
                        lemma_take_left(old_left, old_right, old_done, key);
                        assert(left@ =~= old_left.drop_last());
                        assert forall|k: int| #[trigger]
                            of_key(left@ + right@ + done, key, k) == of_key(all, key, k) by {
                            assert(of_key(old_left + old_right + old_done, key, k) == of_key(
                                all,
                                key,
                                k,
                            ));
                        }
                    } else {
                        assert(right@ =~= old_right.drop_last());
                        assert(left@ + right@ + done =~= old_left + old_right + old_done);
                    }
                }
            },
            None => {},
        }
    }
    assert(left@ + right@ + done =~= done);
    let out = reversed(back);
    assert(out@ =~= done);
    out
}

/// Puts films in order: from the highest rating of the first member to the lowest; of equal ones,
/// from the highest rating of the second member to the lowest; and where both are equal, as they
/// came.
pub fn sort_entries(mut entries: Vec<(Film, Option<Rating>)>) -> (out: Vec<(Film, Option<Rating>)>)
    ensures
        in_order(out@, entries@, |e: (Film, Option<Rating>)| pair_rank(e)),
    decreases entries.len(),
{
    let ghost key = |e: (Film, Option<Rating>)| pair_rank(e);
    if entries.len() <= 1 {
        return entries;
    }
    let ghost all = entries@;
    let middle = entries.len() / 2;
    let back = entries.split_off(middle);
    let front = sort_entries(entries);
    let back = sort_entries(back);
    let out = merge(front, back);
    proof {
        assert(all =~= all.take(middle as int) + all.skip(middle as int));
        assert forall|k: int| #[trigger] of_key(out@, key, k) == of_key(all, key, k) by {
            lemma_of_key_add(all.take(middle as int), all.skip(middle as int), key, k);
            lemma_of_key_add(front@, back@, key, k);
            assert(of_key(front@, key, k) == of_key(all.take(middle as int), key, k));
            assert(of_key(back@, key, k) == of_key(all.skip(middle as int), key, k));
            assert(of_key(out@, key, k) == of_key(front@ + back@, key, k));
        }
    }
    out
}

/// Whether a rating is better than another: it has more half stars, or the other is none.
pub open spec fn better(a: Option<Rating>, b: Option<Rating>) -> bool {
    match (a, b) {
        (Some(x), Some(y)) => x.0 > y.0,
        (Some(_), None) => true,
        (None, _) => false,
    }
}

/// A rating has a higher place exactly when it is better, and the same place only where it is the
/// same rating.
pub proof fn law_better_ratings_rank_higher(a: Option<Rating>, b: Option<Rating>)
    ensures
        rank(a) > rank(b) <==> better(a, b),
        rank(a) > rank(b) <==> (a matches Some(x) && (b matches Some(y) ==> x.0 > y.0)),
        rank(a) == rank(b) <==> a == b,
{
}

/// A film with two ratings has a higher place exactly when its first rating is better, or when that
/// is the same and its second one is better; and the same place only where both are the same.
pub proof fn law_first_rating_decides(x: (Film, Option<Rating>), y: (Film, Option<Rating>))
    ensures
        pair_rank(x) > pair_rank(y) <==> better(x.0.rating, y.0.rating) || (x.0.rating
            == y.0.rating && better(x.1, y.1)),
        pair_rank(x) == pair_rank(y) <==> x.0.rating == y.0.rating && x.1 == y.1,
{
}

} // verus!
