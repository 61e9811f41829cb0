//! Films as a member has watched them.
use crate::rating::Rating;
use core::hash::{Hash, Hasher};
use vstd::prelude::*;

verus! {

/// A film that a member has watched. Two of them are equal when they are of the same film.
#[derive(Debug, Eq)]
pub struct Film {
    /// The number of the film on the site.
    pub id: u64,
    /// Its title.
    pub name: String,
    /// The address of its page.
    pub url: String,
    /// Where its poster is served.
    pub poster: String,
    /// The rating that the member gave it.
    pub rating: Option<Rating>,
}

/// A [`Film`] as a mathematical value.
pub struct FilmView {
    pub id: u64,
    pub name: Seq<char>,
    pub url: Seq<char>,
    pub poster: Seq<char>,
    pub rating: Option<Rating>,
}

impl View for Film {
    type V = FilmView;

    open spec fn view(&self) -> FilmView {
        FilmView {
            id: self.id,
            name: self.name@,
            url: self.url@,
            poster: self.poster@,
            rating: self.rating,
        }
    }
}

/// `u64::hash`: feeds a number to a hasher. What that does to the hasher is left to each hasher, so
/// nothing is claimed of it.
#[verifier::external_body]
pub fn feed<H: Hasher>(n: &u64, state: &mut H) {
    n.hash(state)
}

impl Hash for Film {
    /// Feeds the number of the film, and nothing else, to a hasher.
    fn hash<H: Hasher>(&self, state: &mut H)
        ensures
            exists|r: &mut H|
                *r == *old(state) && *final(r) == *final(state) && #[trigger] call_ensures(
                    feed::<H>,
                    (&self.id, r),
                    (),
                ),
    {
        let f = feed::<H>;
        f(&self.id, state)
    }
}

impl PartialEq for Film {
    fn eq(&self, other: &Self) -> (res: bool) {
        self.id == other.id
    }
}

impl vstd::std_specs::cmp::PartialEqSpecImpl for Film {
    open spec fn obeys_eq_spec() -> bool {
        true
    }

    open spec fn eq_spec(&self, other: &Self) -> bool {
        self.id == other.id
    }
}

/// Equal films are hashed alike: from one state of a hasher, what may come of hashing one may come
/// of hashing the other, whatever their titles, addresses and ratings.
pub proof fn law_equal_films_are_hashed_alike<H: Hasher>(a: Film, b: Film, before: H, after: H)
    requires
        vstd::std_specs::cmp::PartialEqSpec::eq_spec(&a, &b),
        exists|r: &mut H|
            *r == before && *final(r) == after && #[trigger] call_ensures(
                feed::<H>,
                (&a.id, r),
                (),
            ),
    ensures
        exists|r: &mut H|
            *r == before && *final(r) == after && #[trigger] call_ensures(
                feed::<H>,
                (&b.id, r),
                (),
            ),
{
}

/// The view of a film holds what the film holds.
pub proof fn law_film_view(film: Film)
    ensures
        film@.id == film.id,
        film@.name == film.name@,
        film@.url == film.url@,
        film@.poster == film.poster@,
        film@.rating == film.rating,
{
}

/// Two films are equal exactly when they have the same number.
pub proof fn law_films_are_equal_by_number(a: Film, b: Film)
    ensures
        vstd::std_specs::cmp::PartialEqSpec::eq_spec(&a, &b) <==> a.id == b.id,
{
}

} // verus!
