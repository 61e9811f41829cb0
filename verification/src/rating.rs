//! Ratings in half stars.
use crate::decimal::to_decimal;
use crate::error::ClientError;
use crate::text::{same_text, trim};
use vstd::prelude::*;

verus! {

/// A rating: the number of half stars.
#[derive(Debug, Copy, Clone, Ord, PartialOrd, Eq, PartialEq, Structural)]
pub struct Rating(pub u8);

/// The stars of a rating: one full star for two half stars, and half a star for what is left.
pub open spec fn stars(n: int) -> Seq<char> {
    Seq::new((n / 2) as nat, |i: int| '★') + if n % 2 == 1 {
        seq!['½']
    } else {
        Seq::empty()
    }
}

/// How a rating is shown: by its stars, where it has at least half a star and at most five.
pub open spec fn shown(rating: Rating) -> Seq<char> {
    if 1 <= rating.0 <= 10 {
        stars(rating.0 as int)
    } else {
        "no rating"@
    }
}

/// The half stars that a text has room for: two for each character, and one for a final half star.
pub open spec fn half_stars(text: Seq<char>) -> int {
    if text.len() > 0 && text.last() == '½' {
        2 * text.len() - 1
    } else {
        2 * text.len() as int
    }
}

/// The rating that a text shows, white space around it aside: from half a star to five stars, and
/// nothing but stars.
pub open spec fn read(text: Seq<char>) -> Option<Rating> {
    let t = crate::text::trimmed(text);
    if 1 <= half_stars(t) <= 10 && t == stars(half_stars(t)) {
        Some(Rating(half_stars(t) as u8))
    } else {
        None
    }
}

/// A rating as a number of stars, with one decimal where it is not whole.
pub open spec fn number(rating: Rating) -> Seq<char> {
    crate::decimal::decimal((rating.0 / 2) as nat) + if rating.0 % 2 == 1 {
        ".5"@
    } else {
        Seq::empty()
    }
}

impl TryFrom<u8> for Rating {
    type Error = ClientError;

    fn try_from(value: u8) -> (res: Result<Self, ClientError>) {
        if value <= 10 {
            Ok(Rating(value))
        } else {
            Err(ClientError::InvalidRating(value))
        }
    }
}

impl vstd::std_specs::convert::TryFromSpecImpl<u8> for Rating {
    open spec fn obeys_try_from_spec() -> bool {
        true
    }

    open spec fn try_from_spec(value: u8) -> Result<Self, ClientError> {
        if value <= 10 {
            Ok(Rating(value))
        } else {
            Err(ClientError::InvalidRating(value))
        }
    }
}

/// The stars of a rating as text.
fn star_text(n: u8) -> (res: &'static str)
    requires
        1 <= n <= 10,
    ensures
        res@ == stars(n as int),
{
    proof {
        reveal_strlit("½");
        reveal_strlit("★");
        reveal_strlit("★½");
        reveal_strlit("★★");
        reveal_strlit("★★½");
        reveal_strlit("★★★");
        reveal_strlit("★★★½");
        reveal_strlit("★★★★");
        reveal_strlit("★★★★½");
        reveal_strlit("★★★★★");
    }
    match n {
        1 => "½",
        2 => "★",
        3 => "★½",
        4 => "★★",
        5 => "★★½",
        6 => "★★★",
        7 => "★★★½",
        8 => "★★★★",
        9 => "★★★★½",
        _ => "★★★★★",
    }
}

impl Rating {
    /// The rating as it is shown to a reader.
    pub fn to_string(&self) -> (res: String)
        ensures
            res@ == shown(*self),
    {
        if 1 <= self.0 && self.0 <= 10 {
            star_text(self.0).to_owned()
        } else {
            "no rating".to_owned()
        }
    }

    /// The rating as a number of stars.
    pub fn to_number(&self) -> (res: String)
        ensures
            res@ == number(*self),
    {
        let mut text = to_decimal((self.0 / 2) as u64);
        if self.0 % 2 == 1 {
            text.append(".5");
        } else {
            assert(text@ + Seq::<char>::empty() =~= text@);
        }
        text
    }

    /// Reads a rating from its stars.
    pub fn parse(text: &str) -> (res: Option<Rating>)
        ensures
            res == read(text@),
    {
        let t = trim(text);
        let mut n: u8 = 1;
        while n <= 10
            invariant
                1 <= n <= 11,
                t@ == crate::text::trimmed(text@),
                forall|k: int| 1 <= k < n ==> t@ != #[trigger] stars(k),
            decreases 11 - n,
        {
            if same_text(t, star_text(n)) {
                proof {
                    lemma_half_stars(n as int);
                }
                return Some(Rating(n));
            }
            n += 1;
        }
        None
    }
}

/// The stars of a number of half stars have room for as many.
proof fn lemma_half_stars(n: int)
    requires
        n >= 1,
    ensures
        half_stars(stars(n)) == n,
{
    let s = stars(n);
    assert(s.len() == (n + 1) / 2);
    if n % 2 == 1 {
        assert(s.last() == '½');
    } else {
        assert(s.last() == '★');
    }
}

/// There is no white space around stars.
proof fn lemma_stars_are_trimmed(n: int)
    requires
        n >= 1,
    ensures
        crate::text::trimmed(stars(n)) == stars(n),
{
    let s = stars(n);
    assert(s[0] == '★' || s[0] == '½');
    assert(s.last() == '★' || s.last() == '½');
}

/// What is shown of a rating is read back as that rating; what is shown in place of a rating is
/// read as none.
pub proof fn law_shown_rating_reads_back(rating: Rating)
    ensures
        1 <= rating.0 <= 10 ==> read(shown(rating)) == Some(rating),
        !(1 <= rating.0 <= 10) ==> read(shown(rating)) is None,
{
    if 1 <= rating.0 <= 10 {
        lemma_half_stars(rating.0 as int);
        lemma_stars_are_trimmed(rating.0 as int);
    } else {
        reveal_strlit("no rating");
        let t = "no rating"@;
        assert(crate::text::trimmed(t) == t);
    }
}

/// What a text is read as is shown by that text, white space around it aside.
pub proof fn law_read_rating_shows_its_text(text: Seq<char>)
    ensures
        read(text) matches Some(rating) ==> shown(rating) == crate::text::trimmed(text)
            && 1 <= rating.0 <= 10,
{
}

/// Different ratings are shown differently.
pub proof fn law_ratings_are_told_apart(a: Rating, b: Rating)
    requires
        1 <= a.0 <= 10,
        shown(a) == shown(b),
    ensures
        a == b,
{
    law_shown_rating_reads_back(a);
    law_shown_rating_reads_back(b);
}

/// A rating is shown by a full star for each two half stars, and by a half star at the end where
/// one half star is left.
pub proof fn law_stars_are_counted(rating: Rating)
    ensures
        1 <= rating.0 <= 10 ==> {
            &&& shown(rating).len() == (rating.0 + 1) / 2
            &&& forall|i: int| 0 <= i && 2 * i + 1 < rating.0 ==> #[trigger] shown(rating)[i] == '★'
            &&& rating.0 % 2 == 1 ==> shown(rating).last() == '½'
        },
        !(1 <= rating.0 <= 10) ==> shown(rating) == "no rating"@,
{
}

/// A text is read as a rating exactly when it shows that rating, white space around it aside.
pub proof fn law_text_is_read_as_what_it_shows(text: Seq<char>, rating: Rating)
    ensures
        read(text) == Some(rating) <==> 1 <= rating.0 <= 10 && shown(rating)
            == crate::text::trimmed(text),
{
    if 1 <= rating.0 <= 10 && shown(rating) == crate::text::trimmed(text) {
        lemma_half_stars(rating.0 as int);
    }
}

/// The number of a rating is the number of its whole stars, and a half where one half star is left.
pub proof fn law_number_counts_the_stars(rating: Rating)
    ensures
        exists|whole: nat|
            (2 * whole == rating.0 && number(rating) == #[trigger] crate::decimal::decimal(whole))
                || (2 * whole + 1 == rating.0 && number(rating) == crate::decimal::decimal(whole)
                + ".5"@),
{
    let whole = (rating.0 / 2) as nat;
    assert(crate::decimal::decimal(whole) + Seq::<char>::empty() =~= crate::decimal::decimal(
        whole,
    ));
    assert(2 * whole + rating.0 % 2 == rating.0);
}

/// A number is a rating exactly when it is at most ten, and the rating is then that number.
pub proof fn law_ratings_go_up_to_ten(value: u8, rating: Rating)
    ensures
        <Rating as vstd::std_specs::convert::TryFromSpec<u8>>::try_from_spec(value) == Ok::<
            Rating,
            ClientError,
        >(rating) <==> value <= 10 && rating.0 == value,
        value > 10 ==> <Rating as vstd::std_specs::convert::TryFromSpec<u8>>::try_from_spec(value)
            == Err::<Rating, ClientError>(ClientError::InvalidRating(value)),
{
}

} // verus!
