//! What can go wrong between a request and the films that it asks for.
use crate::decimal::{to_decimal, ParseIntError};
use crate::status::Status;
use crate::text::join;
use vstd::prelude::*;

verus! {

/// The failures that have a name of their own.
#[derive(Debug, PartialEq, Eq)]
pub enum LetterboxdError {
    /// An element or an attribute that a film cannot do without is missing.
    HtmlMissingAttr(String),
    /// There is no member of this name.
    UserNotFound(String),
    /// The page counts its pages, and names none of them.
    PaginationElementNotFound,
    /// The name cannot be that of a member.
    InvalidUsername(String),
    /// A number is not one.
    ParseError(ParseIntError),
    /// A request failed; the text is what the network layer says of it.
    NetworkError(String),
    /// The site asks for fewer requests.
    RateLimitExceeded,
}

/// What was being done when something went wrong.
#[derive(Debug, Clone, Copy, PartialEq, Eq, Structural)]
pub enum Stage {
    /// Building the client that sends the requests.
    HttpClient,
    /// Reading the number of the last page.
    PageNumber,
    /// Reading the rating of a film.
    Rating,
    /// Reading the identifier of a film.
    FilmId,
    /// Reading the body of a reply.
    ResponseText,
    /// Reading the films of one page.
    PageFilms,
    /// Fetching the first page.
    FirstPage,
    /// Finding out how many pages there are.
    PageCount,
    /// Gathering the films of all pages.
    CollectFilms,
}

/// Any failure on the way to the films of a member.
#[derive(Debug, PartialEq, Eq)]
pub enum ClientError {
    /// A failure with a name of its own.
    Letterboxd(LetterboxdError),
    /// A rating above the highest.
    InvalidRating(u8),
    /// A text that is no rating.
    UnknownRating(String),
    /// A text that is no number.
    InvalidNumber(ParseIntError),
    /// A reply with a status that nothing is made of.
    UnexpectedStatus(Status),
    /// So many requests were allowed, and none was answered.
    RetriesExhausted(usize),
    /// A failure outside of this library, by its text.
    Outside(String),
    /// A failure, and what was being done.
    While(Stage, Box<ClientError>),
}

/// A [`LetterboxdError`] as a mathematical value.
pub enum LetterboxdErrorView {
    HtmlMissingAttr(Seq<char>),
    UserNotFound(Seq<char>),
    PaginationElementNotFound,
    InvalidUsername(Seq<char>),
    ParseError(ParseIntError),
    NetworkError(Seq<char>),
    RateLimitExceeded,
}

/// A [`ClientError`] as a mathematical value.
pub enum ClientErrorView {
    Letterboxd(LetterboxdErrorView),
    InvalidRating(u8),
    UnknownRating(Seq<char>),
    InvalidNumber(ParseIntError),
    UnexpectedStatus(u16),
    RetriesExhausted(usize),
    Outside(Seq<char>),
    While(Stage, Box<ClientErrorView>),
}

impl View for LetterboxdError {
    type V = LetterboxdErrorView;

    open spec fn view(&self) -> LetterboxdErrorView {
        match *self {
            LetterboxdError::HtmlMissingAttr(s) => LetterboxdErrorView::HtmlMissingAttr(s@),
            LetterboxdError::UserNotFound(s) => LetterboxdErrorView::UserNotFound(s@),
            LetterboxdError::PaginationElementNotFound =>
                LetterboxdErrorView::PaginationElementNotFound,
            LetterboxdError::InvalidUsername(s) => LetterboxdErrorView::InvalidUsername(s@),
            LetterboxdError::ParseError(e) => LetterboxdErrorView::ParseError(e),
            LetterboxdError::NetworkError(s) => LetterboxdErrorView::NetworkError(s@),
            LetterboxdError::RateLimitExceeded => LetterboxdErrorView::RateLimitExceeded,
        }
    }
}

impl View for ClientError {
    type V = ClientErrorView;

    open spec fn view(&self) -> ClientErrorView
        decreases self,
    {
        match *self {
            ClientError::Letterboxd(e) => ClientErrorView::Letterboxd(e@),
            ClientError::InvalidRating(n) => ClientErrorView::InvalidRating(n),
            ClientError::UnknownRating(s) => ClientErrorView::UnknownRating(s@),
            ClientError::InvalidNumber(e) => ClientErrorView::InvalidNumber(e),
            ClientError::UnexpectedStatus(s) => ClientErrorView::UnexpectedStatus(s@),
            ClientError::RetriesExhausted(n) => ClientErrorView::RetriesExhausted(n),
            ClientError::Outside(s) => ClientErrorView::Outside(s@),
            ClientError::While(stage, cause) => ClientErrorView::While(stage, Box::new((*cause)@)),
        }
    }
}

impl From<ParseIntError> for LetterboxdError {
    fn from(e: ParseIntError) -> (res: Self) {
        LetterboxdError::ParseError(e)
    }
}

impl vstd::std_specs::convert::FromSpecImpl<ParseIntError> for LetterboxdError {
    open spec fn obeys_from_spec() -> bool {
        true
    }

    open spec fn from_spec(e: ParseIntError) -> LetterboxdError {
        LetterboxdError::ParseError(e)
    }
}

impl LetterboxdErrorView {
    /// The sentence that tells a reader of the failure.
    pub open spec fn message(self) -> Seq<char> {
        match self {
            LetterboxdErrorView::HtmlMissingAttr(s) => "missing HTML attribute: "@ + s,
            LetterboxdErrorView::UserNotFound(s) => "user not found: "@ + s,
            LetterboxdErrorView::PaginationElementNotFound => "pagination element not found"@,
            LetterboxdErrorView::InvalidUsername(s) => "invalid username: "@ + s,
            LetterboxdErrorView::ParseError(e) => "parsing failed: "@ + e.message(),
            LetterboxdErrorView::NetworkError(s) => "network error: "@ + s,
            LetterboxdErrorView::RateLimitExceeded => "rate limit exceeded"@,
        }
    }
}

impl ClientErrorView {
    /// The sentence that tells a reader of the failure. Where it is known what was being done, it
    /// names that, and not the cause.
    pub open spec fn message(self) -> Seq<char> {
        match self {
            ClientErrorView::Letterboxd(e) => e.message(),
            ClientErrorView::InvalidRating(n) => "Invalid rating value: "@
                + crate::decimal::decimal(n as nat),
            ClientErrorView::UnknownRating(s) => "Unknown rating format: '"@ + s + "'"@,
            ClientErrorView::InvalidNumber(e) => e.message(),
            ClientErrorView::UnexpectedStatus(code) => "Unexpected status code: "@
                + crate::status::status_display(code),
            ClientErrorView::RetriesExhausted(n) => "Failed to fetch page after "@
                + crate::decimal::decimal(n as nat) + " retries"@,
            ClientErrorView::Outside(s) => s,
            ClientErrorView::While(stage, _) => stage.message(),
        }
    }

    /// The failure, and what was being done.
    pub open spec fn during(self, stage: Stage) -> ClientErrorView {
        ClientErrorView::While(stage, Box::new(self))
    }
}

impl Stage {
    /// The sentence that tells a reader that the stage was not completed.
    pub open spec fn message(self) -> Seq<char> {
        match self {
            Stage::HttpClient => "Failed to build reqwest client"@,
            Stage::PageNumber => "Failed to parse page number"@,
            Stage::Rating => "Failed to parse rating"@,
            Stage::FilmId => "Failed to parse film ID"@,
            Stage::ResponseText => "Failed to get response text"@,
            Stage::PageFilms => "Failed to parse films from page"@,
            Stage::FirstPage => "Failed to fetch first page"@,
            Stage::PageCount => "Failed to get page count"@,
            Stage::CollectFilms => "Failed to collect films"@,
        }
    }

    /// The sentence as text.
    pub fn to_str(&self) -> (res: &'static str)
        ensures
            res@ == self.message(),
    {
        match self {
            Stage::HttpClient => "Failed to build reqwest client",
            Stage::PageNumber => "Failed to parse page number",
            Stage::Rating => "Failed to parse rating",
            Stage::FilmId => "Failed to parse film ID",
            Stage::ResponseText => "Failed to get response text",
            Stage::PageFilms => "Failed to parse films from page",
            Stage::FirstPage => "Failed to fetch first page",
            Stage::PageCount => "Failed to get page count",
            Stage::CollectFilms => "Failed to collect films",
        }
    }
}

impl LetterboxdError {
    /// The sentence that tells a reader of the failure.
    pub fn to_string(&self) -> (res: String)
        ensures
            res@ == self@.message(),
    {
        match self {
            LetterboxdError::HtmlMissingAttr(s) => join("missing HTML attribute: ", s.as_str()),
            LetterboxdError::UserNotFound(s) => join("user not found: ", s.as_str()),
            LetterboxdError::PaginationElementNotFound => "pagination element not found".to_owned(),
            LetterboxdError::InvalidUsername(s) => join("invalid username: ", s.as_str()),
            LetterboxdError::ParseError(e) => join("parsing failed: ", e.to_str()),
            LetterboxdError::NetworkError(s) => join("network error: ", s.as_str()),
            LetterboxdError::RateLimitExceeded => "rate limit exceeded".to_owned(),
        }
    }
}

impl ClientError {
    /// The sentence that tells a reader of the failure.
    pub fn to_string(&self) -> (res: String)
        ensures
            res@ == self@.message(),
    {
        match self {
            ClientError::Letterboxd(e) => e.to_string(),
            ClientError::InvalidRating(n) => join(
                "Invalid rating value: ",
                to_decimal(*n as u64).as_str(),
            ),
            ClientError::UnknownRating(s) => {
                let mut text = join("Unknown rating format: '", s.as_str());
                text.append("'");
                text
            },
            ClientError::InvalidNumber(e) => e.to_str().to_owned(),
            ClientError::UnexpectedStatus(status) => join(
                "Unexpected status code: ",
                status.display().as_str(),
            ),
            ClientError::RetriesExhausted(n) => {
                let mut text = join("Failed to fetch page after ", to_decimal(*n as u64).as_str());
                text.append(" retries");
                text
            },
            ClientError::Outside(s) => s.clone(),
            ClientError::While(stage, _) => stage.to_str().to_owned(),
        }
    }

    /// The failure, and what was being done.
    pub fn during(self, stage: Stage) -> (res: ClientError)
        ensures
            res@ == self@.during(stage),
    {
        ClientError::While(stage, Box::new(self))
    }
}

/// The sentence on a failure ends with what it is about, whole, behind words that say what failed.
pub proof fn law_messages_name_their_subject(subject: Seq<char>)
    ensures
        LetterboxdErrorView::HtmlMissingAttr(subject).message() == "missing HTML attribute: "@
            + subject,
        LetterboxdErrorView::UserNotFound(subject).message() == "user not found: "@ + subject,
        LetterboxdErrorView::InvalidUsername(subject).message() == "invalid username: "@ + subject,
        LetterboxdErrorView::NetworkError(subject).message() == "network error: "@ + subject,
        ClientErrorView::UnknownRating(subject).message() == "Unknown rating format: '"@ + subject
            + "'"@,
        ClientErrorView::Outside(subject).message() == subject,
{
}

/// The sentence on a number is that of the number, whatever it is.
pub proof fn law_messages_tell_their_numbers(
    rating: u8,
    retries: usize,
    code: u16,
    number: ParseIntError,
)
    ensures
        ClientErrorView::InvalidRating(rating).message() == "Invalid rating value: "@
            + crate::decimal::decimal(rating as nat),
        ClientErrorView::RetriesExhausted(retries).message() == "Failed to fetch page after "@
            + crate::decimal::decimal(retries as nat) + " retries"@,
        ClientErrorView::UnexpectedStatus(code).message() == "Unexpected status code: "@
            + crate::status::status_display(code),
        LetterboxdErrorView::ParseError(number).message() == "parsing failed: "@
            + ClientErrorView::InvalidNumber(number).message(),
{
}

/// Where it is known what was being done, the sentence tells that, whatever the cause was; and the
/// cause is kept. A failure with a name of its own is told by its own sentence.
pub proof fn law_stage_is_told_in_place_of_the_cause(
    cause: ClientErrorView,
    other: ClientErrorView,
    stage: Stage,
    named: LetterboxdErrorView,
)
    ensures
        cause.during(stage).message() == other.during(stage).message(),
        cause.during(stage).message() == stage.message(),
        cause.during(stage) == other.during(stage) ==> cause == other,
        ClientErrorView::Letterboxd(named).message() == named.message(),
{
}

/// The view of a failure holds what the failure holds.
pub proof fn law_error_views(named: LetterboxdError, e: ClientError)
    ensures
        named@ matches LetterboxdErrorView::HtmlMissingAttr(s) ==> named is HtmlMissingAttr
            && named->HtmlMissingAttr_0@ == s,
        named@ matches LetterboxdErrorView::UserNotFound(s) ==> named is UserNotFound
            && named->UserNotFound_0@ == s,
        named@ matches LetterboxdErrorView::InvalidUsername(s) ==> named is InvalidUsername
            && named->InvalidUsername_0@ == s,
        named@ matches LetterboxdErrorView::ParseError(n) ==> named
            == LetterboxdError::ParseError(n),
        named@ matches LetterboxdErrorView::NetworkError(s) ==> named is NetworkError
            && named->NetworkError_0@ == s,
        named@ is PaginationElementNotFound ==> named is PaginationElementNotFound,
        named@ is RateLimitExceeded ==> named is RateLimitExceeded,
        e@ matches ClientErrorView::Letterboxd(view) ==> e is Letterboxd && e->Letterboxd_0@
            == view,
        e@ matches ClientErrorView::InvalidRating(n) ==> e == ClientError::InvalidRating(n),
        e@ matches ClientErrorView::UnknownRating(s) ==> e is UnknownRating && e->UnknownRating_0@
            == s,
        e@ matches ClientErrorView::InvalidNumber(n) ==> e == ClientError::InvalidNumber(n),
        e@ matches ClientErrorView::UnexpectedStatus(code) ==> e is UnexpectedStatus
            && e->UnexpectedStatus_0@ == code,
        e@ matches ClientErrorView::RetriesExhausted(n) ==> e == ClientError::RetriesExhausted(n),
        e@ matches ClientErrorView::Outside(s) ==> e is Outside && e->Outside_0@ == s,
        e@ matches ClientErrorView::While(stage, cause) ==> e is While && e->While_0 == stage
            && (*e->While_1)@ == *cause,
{
}

} // verus!
