//! What two members have watched, side by side.
use crate::film::Film;
use crate::order::sort_entries;
use crate::rating::Rating;
use std::collections::{HashMap, HashSet};
use vstd::prelude::*;

verus! {

/// A film on a page of films, with the ratings that members gave it.
#[derive(Debug)]
pub struct Card {
    /// The film.
    pub movie: Film,
    /// The name of each member, and the rating that the member gave the film.
    pub ratings: Vec<(String, Option<Rating>)>,
}

/// Whether one of the films has a given number.
pub open spec fn watched(films: Seq<Film>, id: u64) -> bool {
    exists|i: int| 0 <= i < films.len() && (#[trigger] films[i]).id == id
}

/// The rating of the first film with a given number.
pub open spec fn first_rating(films: Seq<Film>, id: u64) -> Option<Option<Rating>>
    decreases films.len(),
{
    if films.len() == 0 {
        None
    } else if first_rating(films.drop_last(), id) is Some {
        first_rating(films.drop_last(), id)
    } else if films.last().id == id {
        Some(films.last().rating)
    } else {
        None
    }
}

/// The films of the first member that the second has not watched, as they came.
pub open spec fn only_first(movies1: Seq<Film>, movies2: Seq<Film>) -> Seq<Film> {
    movies1.filter(|film: Film| !watched(movies2, film.id))
}

/// The films of the first member that the second has watched too, as they came, each with the
/// rating of the second.
pub open spec fn shared(movies1: Seq<Film>, movies2: Seq<Film>) -> Seq<(Film, Option<Rating>)> {
    movies1.filter_map(
        |film: Film|
            match first_rating(movies2, film.id) {
                Some(rating) => Some((film, rating)),
                None => None,
            },
    )
}

/// The films on the cards.
pub open spec fn movies(cards: Seq<Card>) -> Seq<Film> {
    cards.map_values(|card: Card| card.movie)
}

/// The films on the cards, each with the second rating on its card.
pub open spec fn rated_movies(cards: Seq<Card>) -> Seq<(Film, Option<Rating>)> {
    cards.map_values(|card: Card| (card.movie, card.ratings@[1].1))
}

impl Card {
    /// Whether the card shows the rating of one member: the one of the film.
    pub open spec fn rated_by(self, user: Seq<char>) -> bool {
        &&& self.ratings@.len() == 1
        &&& self.ratings@[0].0@ == user
        &&& self.ratings@[0].1 == self.movie.rating
    }

    /// Whether the card shows the ratings of two members: the one of the film, and another.
    pub open spec fn rated_by_both(self, user1: Seq<char>, user2: Seq<char>) -> bool {
        &&& self.ratings@.len() == 2
        &&& self.ratings@[0].0@ == user1
        &&& self.ratings@[0].1 == self.movie.rating
        &&& self.ratings@[1].0@ == user2
    }
}

/// Films with no second rating.
spec fn unpaired(films: Seq<Film>) -> Seq<(Film, Option<Rating>)> {
    films.map_values(|film: Film| (film, None::<Rating>))
}

/// The films of one rank are found again among the unpaired ones.
proof fn lemma_unpaired_of_key(films: Seq<Film>, k: int)
    ensures
        unpaired(
            crate::order::of_key(films, |film: Film| crate::order::rank(film.rating), k),
        ) == crate::order::of_key(
            unpaired(films),
            |e: (Film, Option<Rating>)| crate::order::pair_rank(e),
            k * 257,
        ),
    decreases films.len(),
{
    reveal(Seq::filter);
    if films.len() > 0 {
        lemma_unpaired_of_key(films.drop_last(), k);
        assert(unpaired(films).drop_last() =~= unpaired(films.drop_last()));
        assert(unpaired(films).last() == (films.last(), None::<Rating>));
    }
    assert(unpaired(
        crate::order::of_key(films, |film: Film| crate::order::rank(film.rating), k),
    ) =~= crate::order::of_key(
        unpaired(films),
        |e: (Film, Option<Rating>)| crate::order::pair_rank(e),
        k * 257,
    ));
}

/// Unpaired films in order are films in order.
proof fn lemma_unpaired_order(out: Seq<Film>, films: Seq<Film>)
    requires
        crate::order::in_order(
            unpaired(out),
            unpaired(films),
            |e: (Film, Option<Rating>)| crate::order::pair_rank(e),
        ),
    ensures
        crate::order::in_order(out, films, |film: Film| crate::order::rank(film.rating)),
{
    let key = |film: Film| crate::order::rank(film.rating);
    let pair_key = |e: (Film, Option<Rating>)| crate::order::pair_rank(e);
    assert forall|i: int, j: int| 0 <= i <= j < out.len() implies key(#[trigger] out[i]) >= key(
        #[trigger] out[j],
    ) by {
        assert(pair_key(unpaired(out)[i]) >= pair_key(unpaired(out)[j]));
    }
    assert forall|k: int| #[trigger]
        crate::order::of_key(out, key, k) == crate::order::of_key(films, key, k) by {
        lemma_unpaired_of_key(out, k);
        lemma_unpaired_of_key(films, k);
        let a = crate::order::of_key(out, key, k);
        let b = crate::order::of_key(films, key, k);
        assert(crate::order::of_key(unpaired(out), pair_key, k * 257) == crate::order::of_key(
            unpaired(films),
            pair_key,
            k * 257,
        ));
        assert(a.len() == unpaired(a).len());
        assert forall|i: int| 0 <= i < a.len() implies a[i] == b[i] by {
            assert(unpaired(a)[i] == unpaired(b)[i]);
        }
        assert(a =~= b);
    }
}

/// The films that the first member has watched and the second has not, the best rated first; each
/// on a card with the rating of the first.
pub fn get_diff(user1: &str, movies1: Vec<Film>, movies2: &Vec<Film>) -> (cards: Vec<Card>)
    ensures
        crate::order::in_order(
            movies(cards@),
            only_first(movies1@, movies2@),
            |film: Film| crate::order::rank(film.rating),
        ),
        forall|i: int| 0 <= i < cards@.len() ==> (#[trigger] cards@[i]).rated_by(user1@),
        is_diff_page(cards@, user1@, movies1@, movies2@),
{
    broadcast use vstd::std_specs::hash::group_hash_axioms;

    let mut watched_by_2: HashSet<u64> = HashSet::new();
    let mut n: usize = 0;
    while n < movies2.len()
        invariant
            n <= movies2.len(),
            forall|id: u64| #[trigger]
                watched_by_2@.contains(id) <==> watched(movies2@.take(n as int), id),
        decreases movies2.len() - n,
    {
        let ghost before = movies2@.take(n as int);
        let ghost after = movies2@.take(n + 1);
        watched_by_2.insert(movies2[n].id);
        assert forall|id: u64| #[trigger] watched_by_2@.contains(id) <==> watched(after, id) by {
            if watched(before, id) {
                let i = choose|i: int| 0 <= i < before.len() && (#[trigger] before[i]).id == id;
                assert(after[i].id == id);
            }
            if id == movies2@[n as int].id {
                assert(after[n as int].id == id);
            }
            if watched(after, id) && id != movies2@[n as int].id {
                let i = choose|i: int| 0 <= i < after.len() && (#[trigger] after[i]).id == id;
                assert(before[i].id == id);
            }
        }
        n += 1;
    }
    assert(movies2@.take(movies2@.len() as int) =~= movies2@);
    let ghost all = movies1@;
    let ghost unseen = |film: Film| !watched(movies2@, film.id);
    let mut diff: Vec<(Film, Option<Rating>)> = Vec::new();
    proof {
        reveal(Seq::filter);
        assert(unpaired(all.take(0).filter(unseen)) =~= Seq::<(Film, Option<Rating>)>::empty());
    }
    for film in it: movies1.into_iter()
        invariant
            it.seq() == all,
            unseen == (|film: Film| !watched(movies2@, film.id)),
            forall|id: u64| #[trigger] watched_by_2@.contains(id) <==> watched(movies2@, id),
            diff@ == unpaired(all.take(it.index()).filter(unseen)),
    {
        proof {
            reveal(Seq::filter);
            let i = it.index();
            assert(all.take(i + 1).drop_last() =~= all.take(i));
            assert(all.take(i + 1).last() == film);
        }
        let ghost kept = all.take(it.index()).filter(unseen);
        if !watched_by_2.contains(&film.id) {
            assert(unpaired(kept.push(film)) =~= unpaired(kept).push((film, None::<Rating>)));
            diff.push((film, None));
        }
    }
    assert(all.take(all.len() as int) =~= all);
    let sorted = sort_entries(diff);
    let ghost order = sorted@;
    let mut cards: Vec<Card> = Vec::new();
    for entry in it: sorted.into_iter()
        invariant
            it.seq() == order,
            cards@.len() == it.index(),
            forall|i: int|
                0 <= i < cards@.len() ==> (#[trigger] cards@[i]).rated_by(user1@)
                    && cards@[i].movie == order[i].0,
    {
        let (movie, _) = entry;
        let mut ratings: Vec<(String, Option<Rating>)> = Vec::new();
        ratings.push((user1.to_owned(), movie.rating));
        cards.push(Card { movie, ratings });
    }
    proof {
        crate::order::law_order_keeps_the_items(
            order,
            unpaired(only_first(all, movies2@)),
            |e: (Film, Option<Rating>)| crate::order::pair_rank(e),
        );
        assert forall|i: int| 0 <= i < order.len() implies (#[trigger] order[i]).1 is None by {
            broadcast use vstd::seq_lib::group_to_multiset_ensures;

            let from = unpaired(only_first(all, movies2@));
            assert(order.to_multiset().count(order[i]) > 0);
            assert(from.contains(order[i]));
        }
        assert(unpaired(movies(cards@)) =~= order);
        lemma_unpaired_order(movies(cards@), only_first(all, movies2@));
        law_diff_page(cards@, user1@, all, movies2@);
    }
    cards
}

/// The films that both members have watched, by the rating of the first member and, where that is
/// equal, by the rating of the second, the best rated first; each on a card with both ratings.
pub fn get_and(user1: &str, user2: &str, movies1: Vec<Film>, movies2: &Vec<Film>) -> (cards: Vec<
    Card,
>)
    ensures
        crate::order::in_order(
            rated_movies(cards@),
            shared(movies1@, movies2@),
            |e: (Film, Option<Rating>)| crate::order::pair_rank(e),
        ),
        forall|i: int|
            0 <= i < cards@.len() ==> (#[trigger] cards@[i]).rated_by_both(user1@, user2@),
        is_and_page(cards@, user1@, user2@, movies1@, movies2@),
{
    broadcast use vstd::std_specs::hash::group_hash_axioms;

    let mut watched_by_2: HashMap<u64, Option<Rating>> = HashMap::new();
    let mut n: usize = 0;
    while n < movies2.len()
        invariant
            n <= movies2.len(),
            forall|id: u64| #[trigger]
                watched_by_2@.contains_key(id) <==> first_rating(
                    movies2@.take(n as int),
                    id,
                ) is Some,
            forall|id: u64| #[trigger]
                watched_by_2@.contains_key(id) ==> first_rating(movies2@.take(n as int), id)
                    == Some(watched_by_2@[id]),
        decreases movies2.len() - n,
    {
        let id = movies2[n].id;
        assert(movies2@.take(n + 1).drop_last() =~= movies2@.take(n as int));
        assert(movies2@.take(n + 1).last() == movies2@[n as int]);
        if !watched_by_2.contains_key(&id) {
            watched_by_2.insert(id, movies2[n].rating);
        }
        n += 1;
    }
    assert(movies2@.take(movies2@.len() as int) =~= movies2@);
    let ghost all = movies1@;
    let ghost paired = |film: Film|
        match first_rating(movies2@, film.id) {
            Some(rating) => Some((film, rating)),
            None => None,
        };
    let mut diff: Vec<(Film, Option<Rating>)> = Vec::new();
    assert(all.take(0).filter_map(paired) =~= Seq::<(Film, Option<Rating>)>::empty());
    for film in it: movies1.into_iter()
        invariant
            it.seq() == all,
            paired == (|film: Film|
                match first_rating(movies2@, film.id) {
                    Some(rating) => Some((film, rating)),
                    None => None,
                }),
            forall|id: u64| #[trigger]
                watched_by_2@.contains_key(id) <==> first_rating(movies2@, id) is Some,
            forall|id: u64| #[trigger]
                watched_by_2@.contains_key(id) ==> first_rating(movies2@, id) == Some(
                    watched_by_2@[id],
                ),
            diff@ == all.take(it.index()).filter_map(paired),
    {
        proof {
            let i = it.index();
            assert(all.take(i + 1).drop_last() =~= all.take(i));
            assert(all.take(i + 1).last() == film);
            assert(watched_by_2@.contains_key(film.id) <==> first_rating(
                movies2@,
                film.id,
            ) is Some);
        }
        let found = watched_by_2.get(&film.id);
        match found {
            Some(rating) => {
                let entry = (film, *rating);
                diff.push(entry);
            },
            None => {},
        }
    }
    assert(all.take(all.len() as int) =~= all);
    let sorted = sort_entries(diff);
    let ghost order = sorted@;
    let mut cards: Vec<Card> = Vec::new();
    for entry in it: sorted.into_iter()
        invariant
            it.seq() == order,
            cards@.len() == it.index(),
            forall|i: int|
                0 <= i < cards@.len() ==> (#[trigger] cards@[i]).rated_by_both(user1@, user2@)
                    && (cards@[i].movie, cards@[i].ratings@[1].1) == order[i],
    {
        let (movie, other_rating) = entry;
        let mut ratings: Vec<(String, Option<Rating>)> = Vec::new();
        ratings.push((user1.to_owned(), movie.rating));
        ratings.push((user2.to_owned(), other_rating));
        cards.push(Card { movie, ratings });
    }
    assert(rated_movies(cards@) =~= order);
    proof {
        law_and_page(cards@, user1@, user2@, all, movies2@);
    }
    cards
}

/// The rating that counts is that of the first film with the number; there is one exactly when
/// there is such a film.
pub proof fn law_first_rating(films: Seq<Film>, id: u64)
    ensures
        first_rating(films, id) is Some <==> watched(films, id),
        first_rating(films, id) matches Some(rating) ==> exists|i: int|
            0 <= i < films.len() && (#[trigger] films[i]).id == id && films[i].rating == rating
                && forall|j: int| 0 <= j < i ==> (#[trigger] films[j]).id != id,
    decreases films.len(),
{
    if films.len() > 0 {
        let rest = films.drop_last();
        law_first_rating(rest, id);
        if watched(films, id) && films.last().id != id {
            let i = choose|i: int| 0 <= i < films.len() && (#[trigger] films[i]).id == id;
            assert(rest[i].id == id);
        }
        if first_rating(rest, id) is Some {
            let i = choose|i: int|
                0 <= i < rest.len() && (#[trigger] rest[i]).id == id && rest[i].rating
                    == first_rating(rest, id)->0 && forall|j: int|
                    0 <= j < i ==> (#[trigger] rest[j]).id != id;
            assert(films[i].id == id);
            assert forall|j: int| 0 <= j < i implies (#[trigger] films[j]).id != id by {
                assert(rest[j].id != id);
            }
        } else if films.last().id == id {
            let i = films.len() - 1;
            assert(films[i].id == id);
            assert forall|j: int| 0 <= j < i implies (#[trigger] films[j]).id != id by {
                assert(rest[j].id != id);
            }
        }
    }
}

/// The films of shared entries.
pub open spec fn entry_films(entries: Seq<(Film, Option<Rating>)>) -> Seq<Film> {
    entries.map_values(|e: (Film, Option<Rating>)| e.0)
}

/// The films of entries do not depend on the order of the entries.
proof fn lemma_entry_films(a: Seq<(Film, Option<Rating>)>, b: Seq<(Film, Option<Rating>)>)
    requires
        a.to_multiset() == b.to_multiset(),
    ensures
        entry_films(a).to_multiset() == entry_films(b).to_multiset(),
    decreases a.len(),
{
    broadcast use vstd::seq_lib::group_to_multiset_ensures;

    assert(a.len() == a.to_multiset().len());
    assert(b.len() == b.to_multiset().len());
    if a.len() == 0 {
        assert(a =~= b);
    } else {
        let e = a[0];
        assert(a.contains(e));
        assert(b.to_multiset().count(e) > 0);
        assert(b.contains(e));
        let i = choose|i: int| 0 <= i < b.len() && b[i] == e;
        lemma_entry_films(a.remove(0), b.remove(i));
        assert(entry_films(a.remove(0)) =~= entry_films(a).remove(0));
        assert(entry_films(b.remove(i)) =~= entry_films(b).remove(i));
        assert(entry_films(a).to_multiset() =~= entry_films(a).remove(0).to_multiset().insert(e.0));
        assert(entry_films(b).to_multiset() =~= entry_films(b).remove(i).to_multiset().insert(e.0));
    }
}

/// The films of the first member are those that only the first has watched and the shared ones,
/// each as often as the first member has it; and no number is among both.
pub proof fn law_only_first_and_shared_split(movies1: Seq<Film>, movies2: Seq<Film>)
    ensures
        only_first(movies1, movies2).to_multiset().add(
            entry_films(shared(movies1, movies2)).to_multiset(),
        ) == movies1.to_multiset(),
        only_first(movies1, movies2).len() + shared(movies1, movies2).len() == movies1.len(),
        forall|i: int, j: int|
            0 <= i < only_first(movies1, movies2).len() && 0 <= j < shared(movies1, movies2).len()
                ==> (#[trigger] only_first(movies1, movies2)[i]).id != (#[trigger] shared(
                movies1,
                movies2,
            )[j]).0.id,
    decreases movies1.len(),
{
    broadcast use vstd::seq_lib::group_to_multiset_ensures;

    reveal(Seq::filter);
    let alone = only_first(movies1, movies2);
    let both = shared(movies1, movies2);
    if movies1.len() > 0 {
        let rest = movies1.drop_last();
        let last = movies1.last();
        law_only_first_and_shared_split(rest, movies2);
        law_first_rating(movies2, last.id);
        assert(movies1 =~= rest.push(last));
        match first_rating(movies2, last.id) {
            Some(rating) => {
                assert(both =~= shared(rest, movies2).push((last, rating)));
                assert(entry_films(both) =~= entry_films(shared(rest, movies2)).push(last));
            },
            None => {
                assert(alone =~= only_first(rest, movies2).push(last));
            },
        }
    } else {
        assert(entry_films(both) =~= Seq::<Film>::empty());
        assert(alone =~= movies1);
    }
    assert(alone.to_multiset().add(entry_films(both).to_multiset()) =~= movies1.to_multiset());
    assert forall|i: int, j: int| 0 <= i < alone.len() && 0 <= j < both.len() implies (
    #[trigger] alone[i]).id != (#[trigger] both[j]).0.id by {
        assert(alone.contains(alone[i]));
        assert(both.contains(both[j]));
        law_only_first(movies1, movies2, alone[i]);
        law_shared(movies1, movies2, both[j].0, both[j].1);
        law_first_rating(movies2, both[j].0.id);
    }
}

/// The two pages share out the films of the first member: together the cards of [`get_diff`] and
/// those of [`get_and`] show them, each as often as the first member has it, and no number is on
/// cards of both.
pub proof fn law_pages_share_out_the_films(
    diff: Seq<Card>,
    and: Seq<Card>,
    movies1: Seq<Film>,
    movies2: Seq<Film>,
)
    requires
        crate::order::in_order(
            movies(diff),
            only_first(movies1, movies2),
            |film: Film| crate::order::rank(film.rating),
        ),
        crate::order::in_order(
            rated_movies(and),
            shared(movies1, movies2),
            |e: (Film, Option<Rating>)| crate::order::pair_rank(e),
        ),
    ensures
        movies(diff).to_multiset().add(movies(and).to_multiset()) == movies1.to_multiset(),
        forall|i: int, j: int|
            0 <= i < diff.len() && 0 <= j < and.len() ==> (#[trigger] diff[i]).movie.id != (
            #[trigger] and[j]).movie.id,
{
    crate::order::law_order_keeps_the_items(
        movies(diff),
        only_first(movies1, movies2),
        |film: Film| crate::order::rank(film.rating),
    );
    crate::order::law_order_keeps_the_items(
        rated_movies(and),
        shared(movies1, movies2),
        |e: (Film, Option<Rating>)| crate::order::pair_rank(e),
    );
    lemma_entry_films(rated_movies(and), shared(movies1, movies2));
    assert(entry_films(rated_movies(and)) =~= movies(and));
    law_only_first_and_shared_split(movies1, movies2);
    assert forall|i: int, j: int| 0 <= i < diff.len() && 0 <= j < and.len() implies (
    #[trigger] diff[i]).movie.id != (#[trigger] and[j]).movie.id by {
        let e = rated_movies(and)[j];
        assert(movies(diff).contains(movies(diff)[i]));
        assert(rated_movies(and).contains(e));
        law_diff_cards(diff, movies1, movies2, diff[i].movie);
        law_and_cards(and, movies1, movies2, e.0, e.1);
        law_first_rating(movies2, e.0.id);
    }
}

/// A film is among those that only the first member has watched exactly when the first has watched
/// it and the second has not.
pub proof fn law_only_first(movies1: Seq<Film>, movies2: Seq<Film>, film: Film)
    ensures
        only_first(movies1, movies2).contains(film) <==> movies1.contains(film) && !watched(
            movies2,
            film.id,
        ),
    decreases movies1.len(),
{
    reveal(Seq::filter);
    if movies1.len() > 0 {
        let rest = movies1.drop_last();
        let last = movies1.last();
        law_only_first(rest, movies2, film);
        assert(movies1 =~= rest.push(last));
        lemma_contains_push(rest, last, film);
        lemma_contains_push(only_first(rest, movies2), last, film);
    }
}

/// A film is among the shared ones, with a rating, exactly when the first member has watched it and
/// the rating is the one that counts for the second.
pub proof fn law_shared(
    movies1: Seq<Film>,
    movies2: Seq<Film>,
    film: Film,
    rating: Option<Rating>,
)
    ensures
        shared(movies1, movies2).contains((film, rating)) <==> movies1.contains(film)
            && first_rating(movies2, film.id) == Some(rating),
    decreases movies1.len(),
{
    if movies1.len() > 0 {
        let rest = movies1.drop_last();
        let last = movies1.last();
        law_shared(rest, movies2, film, rating);
        assert(movies1 =~= rest.push(last));
        lemma_contains_push(rest, last, film);
        match first_rating(movies2, last.id) {
            Some(found) => {
                assert(shared(movies1, movies2) =~= shared(rest, movies2).push((last, found)));
                lemma_contains_push(shared(rest, movies2), (last, found), (film, rating));
            },
            None => {},
        }
    }
}

/// What a sequence contains when one item is added.
proof fn lemma_contains_push<T>(s: Seq<T>, last: T, x: T)
    ensures
        s.push(last).contains(x) <==> s.contains(x) || x == last,
{
    let longer = s.push(last);
    if s.contains(x) {
        let i = choose|i: int| 0 <= i < s.len() && s[i] == x;
        assert(longer[i] == x);
    }
    if x == last {
        assert(longer[s.len() as int] == x);
    }
    if longer.contains(x) && x != last {
        let i = choose|i: int| 0 <= i < longer.len() && longer[i] == x;
        assert(s[i] == x);
    }
}

/// The films on the cards of [`get_diff`] are those that the first member has watched and the
/// second has not.
pub proof fn law_diff_cards(cards: Seq<Card>, movies1: Seq<Film>, movies2: Seq<Film>, film: Film)
    requires
        crate::order::in_order(
            movies(cards),
            only_first(movies1, movies2),
            |film: Film| crate::order::rank(film.rating),
        ),
    ensures
        movies(cards).contains(film) <==> movies1.contains(film) && !watched(movies2, film.id),
{
    broadcast use vstd::seq_lib::group_to_multiset_ensures;

    crate::order::law_order_keeps_the_items(
        movies(cards),
        only_first(movies1, movies2),
        |film: Film| crate::order::rank(film.rating),
    );
    law_only_first(movies1, movies2, film);
    assert(movies(cards).contains(film) <==> movies(cards).to_multiset().count(film) > 0);
    assert(only_first(movies1, movies2).contains(film) <==> only_first(
        movies1,
        movies2,
    ).to_multiset().count(film) > 0);
}

/// The films on the cards of [`get_and`] are those that both members have watched, each with the
/// rating of the second.
pub proof fn law_and_cards(
    cards: Seq<Card>,
    movies1: Seq<Film>,
    movies2: Seq<Film>,
    film: Film,
    rating: Option<Rating>,
)
    requires
        crate::order::in_order(
            rated_movies(cards),
            shared(movies1, movies2),
            |e: (Film, Option<Rating>)| crate::order::pair_rank(e),
        ),
    ensures
        rated_movies(cards).contains((film, rating)) <==> movies1.contains(film) && first_rating(
            movies2,
            film.id,
        ) == Some(rating),
{
    broadcast use vstd::seq_lib::group_to_multiset_ensures;

    crate::order::law_order_keeps_the_items(
        rated_movies(cards),
        shared(movies1, movies2),
        |e: (Film, Option<Rating>)| crate::order::pair_rank(e),
    );
    law_shared(movies1, movies2, film, rating);
    assert(rated_movies(cards).contains((film, rating)) <==> rated_movies(
        cards,
    ).to_multiset().count((film, rating)) > 0);
    assert(shared(movies1, movies2).contains((film, rating)) <==> shared(
        movies1,
        movies2,
    ).to_multiset().count((film, rating)) > 0);
}

/// Compared with themselves, a member has watched nothing alone and shares each film.
pub proof fn law_compared_with_oneself(films: Seq<Film>)
    ensures
        only_first(films, films) == Seq::<Film>::empty(),
        shared(films, films).len() == films.len(),
{
    law_only_first_and_shared_split(films, films);
    let alone = only_first(films, films);
    if alone.len() > 0 {
        let film = alone[0];
        assert(alone.contains(film));
        law_only_first(films, films, film);
        let i = choose|i: int| 0 <= i < films.len() && films[i] == film;
        assert(films[i].id == film.id);
    }
    assert(alone =~= Seq::<Film>::empty());
}

/// Which films are shared does not depend on which member comes first.
pub proof fn law_shared_is_symmetric(movies1: Seq<Film>, movies2: Seq<Film>, id: u64)
    ensures
        (exists|e: (Film, Option<Rating>)| #[trigger]
            shared(movies1, movies2).contains(e) && e.0.id == id) <==> (exists|
            e: (Film, Option<Rating>),
        | #[trigger]
            shared(movies2, movies1).contains(e) && e.0.id == id),
{
    lemma_shared_both(movies1, movies2, id);
    lemma_shared_both(movies2, movies1, id);
}

/// A film is shared exactly when both have watched it.
proof fn lemma_shared_both(movies1: Seq<Film>, movies2: Seq<Film>, id: u64)
    ensures
        (exists|e: (Film, Option<Rating>)| #[trigger]
            shared(movies1, movies2).contains(e) && e.0.id == id) <==> watched(movies1, id)
            && watched(movies2, id),
{
    let both = shared(movies1, movies2);
    law_first_rating(movies2, id);
    if watched(movies1, id) && watched(movies2, id) {
        let i = choose|i: int| 0 <= i < movies1.len() && (#[trigger] movies1[i]).id == id;
        let rating = first_rating(movies2, id)->0;
        assert(movies1.contains(movies1[i]));
        law_shared(movies1, movies2, movies1[i], rating);
        assert(both.contains((movies1[i], rating)));
    }
    if exists|e: (Film, Option<Rating>)| #[trigger] both.contains(e) && e.0.id == id {
        let e = choose|e: (Film, Option<Rating>)| #[trigger] both.contains(e) && e.0.id == id;
        law_shared(movies1, movies2, e.0, e.1);
        let i = choose|i: int| 0 <= i < movies1.len() && movies1[i] == e.0;
        assert(movies1[i].id == id);
    }
}

/// A film counts as watched exactly when one of the list has its number, rated or not; and the
/// rating that counts is that of the first such film.
pub proof fn law_what_counts_as_watched(films: Seq<Film>, id: u64, i: int)
    ensures
        watched(films, id) <==> exists|j: int| 0 <= j < films.len() && (#[trigger] films[j]).id == id,
        first_rating(films, id) is Some <==> exists|j: int|
            0 <= j < films.len() && (#[trigger] films[j]).id == id,
        0 <= i < films.len() && films[i].id == id && (forall|j: int|
            0 <= j < i ==> (#[trigger] films[j]).id != id) ==> first_rating(films, id) == Some(
            films[i].rating,
        ),
{
    law_first_rating(films, id);
    if 0 <= i < films.len() && films[i].id == id && (forall|j: int|
        0 <= j < i ==> (#[trigger] films[j]).id != id) {
        assert(watched(films, id));
        let rating = first_rating(films, id)->0;
        let k = choose|k: int|
            0 <= k < films.len() && (#[trigger] films[k]).id == id && films[k].rating == rating
                && forall|j: int| 0 <= j < k ==> (#[trigger] films[j]).id != id;
        if k < i {
            assert(films[k].id != id);
        }
        if i < k {
            assert(films[i].id != id);
        }
    }
}

/// Which films are chosen is decided for each by itself, and they stay in the order in which they
/// came: what is chosen of two lists, one behind the other, is what is chosen of each.
pub proof fn law_films_stay_as_they_came(a: Seq<Film>, b: Seq<Film>, movies2: Seq<Film>)
    ensures
        only_first(a + b, movies2) == only_first(a, movies2) + only_first(b, movies2),
        shared(a + b, movies2) == shared(a, movies2) + shared(b, movies2),
    decreases b.len(),
{
    Seq::filter_distributes_over_add(a, b, |film: Film| !watched(movies2, film.id));
    if b.len() == 0 {
        assert(a + b =~= a);
        assert(shared(b, movies2) =~= Seq::<(Film, Option<Rating>)>::empty());
        assert(shared(a, movies2) + shared(b, movies2) =~= shared(a, movies2));
    } else {
        law_films_stay_as_they_came(a, b.drop_last(), movies2);
        assert((a + b).drop_last() =~= a + b.drop_last());
        assert((a + b).last() == b.last());
        assert(shared(a + b, movies2) =~= shared(a, movies2) + shared(b, movies2));
    }
}

/// A filter that goes by a key keeps the items of that key.
proof fn lemma_filter_by_key<T>(
    s: Seq<T>,
    p: spec_fn(T) -> bool,
    key: spec_fn(T) -> int,
    k: int,
)
    requires
        forall|x: T| #[trigger] p(x) == (key(x) == k),
    ensures
        s.filter(p) == crate::order::of_key(s, key, k),
    decreases s.len(),
{
    reveal(Seq::filter);
    if s.len() > 0 {
        lemma_filter_by_key(s.drop_last(), p, key, k);
        assert(p(s.last()) == (key(s.last()) == k));
    }
}

/// What one filter keeps of what another keeps.
proof fn lemma_filter_twice<T>(
    s: Seq<T>,
    p: spec_fn(T) -> bool,
    q: spec_fn(T) -> bool,
    both: spec_fn(T) -> bool,
)
    requires
        forall|x: T| #[trigger] both(x) == (p(x) && q(x)),
    ensures
        s.filter(p).filter(q) == s.filter(both),
    decreases s.len(),
{
    reveal(Seq::filter);
    if s.len() > 0 {
        let rest = s.drop_last();
        lemma_filter_twice(rest, p, q, both);
        assert(both(s.last()) == (p(s.last()) && q(s.last())));
        if p(s.last()) {
            assert(s.filter(p).drop_last() =~= rest.filter(p));
        }
    }
}

/// What the page with the films of one member shows: no film stands behind one with a worse rating;
/// the films of one rating are those of the first member that have it and that the second has not
/// watched, in the order in which they came; and each card has the name of the first member and the
/// rating of the film.
pub open spec fn is_diff_page(
    cards: Seq<Card>,
    user1: Seq<char>,
    movies1: Seq<Film>,
    movies2: Seq<Film>,
) -> bool {
    &&& forall|i: int, j: int|
        0 <= i < j < cards.len() ==> !crate::order::better(
            (#[trigger] cards[j]).movie.rating,
            (#[trigger] cards[i]).movie.rating,
        )
    &&& forall|r: Option<Rating>| #[trigger]
        with_rating(movies(cards), r) == with_rating(movies1, r).filter(
            |film: Film|
                !exists|k: int| 0 <= k < movies2.len() && (#[trigger] movies2[k]).id == film.id,
        )
    &&& forall|i: int|
        0 <= i < cards.len() ==> {
            &&& (#[trigger] cards[i]).ratings@.len() == 1
            &&& cards[i].ratings@[0].0@ == user1
            &&& cards[i].ratings@[0].1 == cards[i].movie.rating
        }
}

/// The films of a list that have a given rating.
pub open spec fn with_rating(films: Seq<Film>, r: Option<Rating>) -> Seq<Film> {
    films.filter(|film: Film| film.rating == r)
}

/// What the page with the films of both members shows: no film stands behind one with a worse
/// rating of the first member, or with the same and a worse one of the second; the films of two
/// ratings are those of the first member that the first gave the one and the second gave the other,
/// in the order in which they came; and each card has the names of both members, the rating of the
/// film, and the rating that counts for the second member.
pub open spec fn is_and_page(
    cards: Seq<Card>,
    user1: Seq<char>,
    user2: Seq<char>,
    movies1: Seq<Film>,
    movies2: Seq<Film>,
) -> bool {
    &&& forall|i: int, j: int|
        0 <= i < j < cards.len() ==> !crate::order::better(
            (#[trigger] cards[j]).ratings@[0].1,
            (#[trigger] cards[i]).ratings@[0].1,
        ) && (cards[i].ratings@[0].1 == cards[j].ratings@[0].1 ==> !crate::order::better(
            cards[j].ratings@[1].1,
            cards[i].ratings@[1].1,
        ))
    &&& forall|r1: Option<Rating>, r2: Option<Rating>| #[trigger]
        with_ratings(cards, r1, r2) == with_rating(movies1, r1).filter(
            |film: Film| first_rating(movies2, film.id) == Some(r2),
        )
    &&& forall|i: int|
        0 <= i < cards.len() ==> {
            &&& (#[trigger] cards[i]).ratings@.len() == 2
            &&& cards[i].ratings@[0].0@ == user1
            &&& cards[i].ratings@[0].1 == cards[i].movie.rating
            &&& cards[i].ratings@[1].0@ == user2
            &&& first_rating(movies2, cards[i].movie.id) == Some(cards[i].ratings@[1].1)
        }
}

/// The films on the cards that show two given ratings.
pub open spec fn with_ratings(
    cards: Seq<Card>,
    r1: Option<Rating>,
    r2: Option<Rating>,
) -> Seq<Film> {
    entry_films(
        rated_movies(cards).filter(|e: (Film, Option<Rating>)| e.0.rating == r1 && e.1 == r2),
    )
}

/// The cards of [`get_diff`] show what the page with the films of one member is for.
pub proof fn law_diff_page(cards: Seq<Card>, user1: Seq<char>, movies1: Seq<Film>, movies2: Seq<Film>)
    requires
        crate::order::in_order(
            movies(cards),
            only_first(movies1, movies2),
            |film: Film| crate::order::rank(film.rating),
        ),
        forall|i: int| 0 <= i < cards.len() ==> (#[trigger] cards[i]).rated_by(user1),
    ensures
        is_diff_page(cards, user1, movies1, movies2),
{
    let key = |film: Film| crate::order::rank(film.rating);
    let films = movies(cards);
    assert forall|i: int, j: int| 0 <= i < j < cards.len() implies !crate::order::better(
        (#[trigger] cards[j]).movie.rating,
        (#[trigger] cards[i]).movie.rating,
    ) by {
        assert(key(films[i]) >= key(films[j]));
        crate::order::law_better_ratings_rank_higher(cards[j].movie.rating, cards[i].movie.rating);
    }
    assert forall|r: Option<Rating>| #[trigger]
        with_rating(films, r) == with_rating(movies1, r).filter(
            |film: Film|
                !exists|k: int| 0 <= k < movies2.len() && (#[trigger] movies2[k]).id == film.id,
        ) by {
        let k = crate::order::rank(r);
        let rated = |film: Film| film.rating == r;
        let unseen = |film: Film|
            !exists|k: int| 0 <= k < movies2.len() && (#[trigger] movies2[k]).id == film.id;
        let alone = |film: Film| !watched(movies2, film.id);
        let both = |film: Film| film.rating == r && !watched(movies2, film.id);
        assert forall|film: Film| #[trigger] rated(film) == (key(film) == k) by {
            crate::order::law_better_ratings_rank_higher(film.rating, r);
        }
        lemma_filter_by_key(films, rated, key, k);
        lemma_filter_by_key(only_first(movies1, movies2), rated, key, k);
        assert(crate::order::of_key(films, key, k) == crate::order::of_key(
            only_first(movies1, movies2),
            key,
            k,
        ));
        assert(only_first(movies1, movies2) == movies1.filter(alone));
        lemma_filter_twice(movies1, alone, rated, both);
        lemma_filter_twice(movies1, rated, unseen, both);
    }
}

/// What a filter of entries keeps among the shared ones, by their films: those that have a rating
/// of the second member and whose entry the filter keeps.
proof fn lemma_filter_of_shared(
    movies1: Seq<Film>,
    movies2: Seq<Film>,
    p: spec_fn((Film, Option<Rating>)) -> bool,
    q: spec_fn(Film) -> bool,
)
    requires
        forall|film: Film| #[trigger]
            q(film) == (first_rating(movies2, film.id) is Some && p(
                (film, first_rating(movies2, film.id)->0),
            )),
    ensures
        entry_films(shared(movies1, movies2).filter(p)) == movies1.filter(q),
    decreases movies1.len(),
{
    reveal(Seq::filter);
    let both = shared(movies1, movies2);
    if movies1.len() > 0 {
        let rest = movies1.drop_last();
        let last = movies1.last();
        lemma_filter_of_shared(rest, movies2, p, q);
        match first_rating(movies2, last.id) {
            Some(rating) => {
                let entry = (last, rating);
                assert(both =~= shared(rest, movies2).push(entry));
                assert(both.drop_last() =~= shared(rest, movies2));
                assert(p(entry) == q(last));
                if p(entry) {
                    assert(entry_films(shared(rest, movies2).filter(p).push(entry))
                        =~= entry_films(shared(rest, movies2).filter(p)).push(last));
                }
            },
            None => {
                assert(both =~= shared(rest, movies2));
            },
        }
    } else {
        assert(entry_films(both.filter(p)) =~= movies1.filter(q));
    }
}

/// The cards of [`get_and`] show what the page with the films of both members is for.
pub proof fn law_and_page(
    cards: Seq<Card>,
    user1: Seq<char>,
    user2: Seq<char>,
    movies1: Seq<Film>,
    movies2: Seq<Film>,
)
    requires
        crate::order::in_order(
            rated_movies(cards),
            shared(movies1, movies2),
            |e: (Film, Option<Rating>)| crate::order::pair_rank(e),
        ),
        forall|i: int| 0 <= i < cards.len() ==> (#[trigger] cards[i]).rated_by_both(user1, user2),
    ensures
        is_and_page(cards, user1, user2, movies1, movies2),
{
    let key = |e: (Film, Option<Rating>)| crate::order::pair_rank(e);
    let entries = rated_movies(cards);
    assert forall|i: int, j: int| 0 <= i < j < cards.len() implies !crate::order::better(
        (#[trigger] cards[j]).ratings@[0].1,
        (#[trigger] cards[i]).ratings@[0].1,
    ) && (cards[i].ratings@[0].1 == cards[j].ratings@[0].1 ==> !crate::order::better(
        cards[j].ratings@[1].1,
        cards[i].ratings@[1].1,
    )) by {
        assert(key(entries[i]) >= key(entries[j]));
        crate::order::law_first_rating_decides(entries[j], entries[i]);
        assert(cards[i].rated_by_both(user1, user2) && cards[j].rated_by_both(user1, user2));
    }
    assert forall|r1: Option<Rating>, r2: Option<Rating>| #[trigger]
        with_ratings(cards, r1, r2) == with_rating(movies1, r1).filter(
            |film: Film| first_rating(movies2, film.id) == Some(r2),
        ) by {
        let p = |e: (Film, Option<Rating>)| e.0.rating == r1 && e.1 == r2;
        let k = crate::order::rank(r1) * 257 + crate::order::rank(r2);
        assert forall|e: (Film, Option<Rating>)| #[trigger] p(e) == (key(e) == k) by {
            let same = (Film { rating: r1, ..e.0 }, r2);
            assert(key(same) == k);
            crate::order::law_first_rating_decides(e, same);
        }
        lemma_filter_by_key(entries, p, key, k);
        lemma_filter_by_key(shared(movies1, movies2), p, key, k);
        assert(crate::order::of_key(entries, key, k) == crate::order::of_key(
            shared(movies1, movies2),
            key,
            k,
        ));
        let first = |film: Film| film.rating == r1;
        let second = |film: Film| first_rating(movies2, film.id) == Some(r2);
        let both = |film: Film| film.rating == r1 && first_rating(movies2, film.id) == Some(r2);
        lemma_filter_twice(movies1, first, second, both);
        lemma_filter_of_shared(movies1, movies2, p, both);
        assert(with_ratings(cards, r1, r2) == entry_films(entries.filter(p)));
        assert(with_rating(movies1, r1).filter(second) == movies1.filter(both));
    }
    assert forall|i: int| 0 <= i < cards.len() implies first_rating(
        movies2,
        (#[trigger] cards[i]).movie.id,
    ) == Some(cards[i].ratings@[1].1) by {
        let e = entries[i];
        assert(entries.contains(e));
        law_and_cards(cards, movies1, movies2, e.0, e.1);
    }
}

} // verus!
