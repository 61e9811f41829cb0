use letterboxd_diff::compare::{get_and, get_diff, Card};
use letterboxd_diff::film::Film;
use letterboxd_diff::rating::Rating;
use std::collections::hash_map::DefaultHasher;
use std::collections::HashSet;
use std::hash::{Hash, Hasher};

fn film(id: u64, name: &str, rating: Option<u8>) -> Film {
    Film {
        id,
        name: name.to_string(),
        url: format!("https://letterboxd.com/film/{}", name),
        poster: format!("/poster/{}", name),
        rating: rating.map(Rating),
    }
}

fn names(cards: &[Card]) -> Vec<&str> {
    cards.iter().map(|c| c.movie.name.as_str()).collect()
}

#[test]
fn films_are_equal_by_number() {
    assert!(film(1, "a", None) == film(1, "b", Some(3)));
    assert!(film(1, "a", None) != film(2, "a", None));
    let mut set = HashSet::new();
    assert!(set.insert(film(1, "a", None)));
    assert!(!set.insert(film(1, "b", Some(3))));
    assert!(set.insert(film(2, "a", None)));
    assert_eq!(set.len(), 2);
}

#[test]
fn equal_films_are_hashed_alike() {
    let hashed = |f: &Film| {
        let mut state = DefaultHasher::new();
        f.hash(&mut state);
        state.finish()
    };
    let mut number = DefaultHasher::new();
    7u64.hash(&mut number);
    assert_eq!(hashed(&film(7, "a", None)), number.finish());
    assert_eq!(hashed(&film(7, "b", Some(3))), number.finish());
    assert_ne!(hashed(&film(8, "a", None)), number.finish());
}

#[test]
fn films_of_one_member_only() {
    let movies1 = vec![
        film(1, "unrated", None),
        film(2, "five", Some(5)),
        film(3, "shared", Some(10)),
        film(4, "ten", Some(10)),
        film(5, "five again", Some(5)),
        film(6, "zero", Some(0)),
        film(2, "five twice", Some(5)),
    ];
    let movies2 = vec![film(3, "other title", None), film(9, "more", Some(1))];
    let cards = get_diff("ann", movies1, &movies2);
    assert_eq!(
        names(&cards),
        vec!["ten", "five", "five again", "five twice", "zero", "unrated"]
    );
    for card in &cards {
        assert_eq!(card.ratings, vec![("ann".to_string(), card.movie.rating)]);
    }
}

#[test]
fn films_of_both_members() {
    let movies1 = vec![
        film(1, "a", Some(5)),
        film(2, "b", Some(8)),
        film(3, "c", Some(5)),
        film(4, "d", None),
        film(5, "e", Some(5)),
        film(6, "alone", Some(10)),
        film(7, "f", None),
        film(8, "g", Some(5)),
    ];
    let movies2 = vec![
        film(8, "x", Some(2)),
        film(7, "x", Some(1)),
        film(5, "x", None),
        film(4, "x", None),
        film(3, "x", Some(9)),
        film(2, "x", Some(1)),
        film(1, "x", Some(2)),
        film(1, "again", Some(10)),
    ];
    let cards = get_and("ann", "bob", movies1, &movies2);
    assert_eq!(names(&cards), vec!["b", "c", "a", "g", "e", "f", "d"]);
    let ratings: Vec<(Option<Rating>, Option<Rating>)> =
        cards.iter().map(|c| (c.ratings[0].1, c.ratings[1].1)).collect();
    assert_eq!(
        ratings,
        vec![
            (Some(Rating(8)), Some(Rating(1))),
            (Some(Rating(5)), Some(Rating(9))),
            (Some(Rating(5)), Some(Rating(2))),
            (Some(Rating(5)), Some(Rating(2))),
            (Some(Rating(5)), None),
            (None, Some(Rating(1))),
            (None, None),
        ]
    );
    for card in &cards {
        assert_eq!(card.ratings.len(), 2);
        assert_eq!(card.ratings[0].0, "ann");
        assert_eq!(card.ratings[1].0, "bob");
        assert_eq!(card.ratings[0].1, card.movie.rating);
    }
}

#[test]
fn a_member_against_themselves() {
    let list = || vec![film(1, "a", Some(1)), film(2, "b", None), film(1, "c", Some(9))];
    assert!(get_diff("ann", list(), &list()).is_empty());
    let cards = get_and("ann", "ann", list(), &list());
    assert_eq!(names(&cards), vec!["c", "a", "b"]);
    assert_eq!(cards[0].ratings[1].1, Some(Rating(1)));
    assert!(get_diff("ann", vec![], &list()).is_empty());
    assert!(get_and("ann", "bob", list(), &vec![]).is_empty());
}

#[test]
fn pages_share_out_the_films() {
    let list = || {
        vec![film(1, "a", Some(1)), film(2, "b", None), film(1, "c", Some(9)), film(3, "d", None)]
    };
    let other = vec![film(1, "x", None), film(4, "y", Some(2))];
    let diff = get_diff("ann", list(), &other);
    let and = get_and("ann", "bob", list(), &other);
    let mut all: Vec<&str> = names(&diff).into_iter().chain(names(&and)).collect();
    all.sort();
    assert_eq!(all, vec!["a", "b", "c", "d"]);
    for left in &diff {
        assert!(and.iter().all(|right| right.movie.id != left.movie.id));
    }
}

#[test]
fn long_lists_come_out_as_a_stable_sort_has_them() {
    let mut seed: u64 = 12345;
    let mut next = |n: u64| {
        seed = seed.wrapping_mul(6364136223846793005).wrapping_add(1442695040888963407);
        (seed >> 33) % n
    };
    let mut rate = || match next(13) {
        0 => None,
        n => Some((n - 1) as u8),
    };
    let mut movies1 = Vec::new();
    let mut movies2 = Vec::new();
    for id in 0..700u64 {
        movies1.push(film(id, &id.to_string(), rate()));
        if id % 3 != 0 {
            movies2.push(film(id, "", rate()));
        }
    }
    let other = |id: u64| movies2.iter().find(|f| f.id == id).map(|f| f.rating);
    let mut alone: Vec<(u64, Option<Rating>)> =
        movies1.iter().filter(|f| other(f.id).is_none()).map(|f| (f.id, f.rating)).collect();
    alone.sort_by(|a, b| b.1.cmp(&a.1));
    let mut both: Vec<(u64, Option<Rating>, Option<Rating>)> = movies1
        .iter()
        .filter_map(|f| other(f.id).map(|r| (f.id, f.rating, r)))
        .collect();
    both.sort_by(|a, b| (b.1, b.2).cmp(&(a.1, a.2)));
    let copy: Vec<Film> = movies1.iter().map(|f| film(f.id, &f.name, f.rating.map(|r| r.0))).collect();
    let diff = get_diff("ann", copy, &movies2);
    assert_eq!(diff.iter().map(|c| (c.movie.id, c.movie.rating)).collect::<Vec<_>>(), alone);
    let and = get_and("ann", "bob", movies1, &movies2);
    let seen: Vec<_> =
        and.iter().map(|c| (c.movie.id, c.ratings[0].1, c.ratings[1].1)).collect();
    assert_eq!(seen, both);
}
