//! The films of a member, page by page.
use crate::config::{quota_per_minute, ClientConfig, RequestQuota, Timeout, USER_AGENT};
use crate::decimal::to_decimal;
use crate::error::{ClientError, ClientErrorView, LetterboxdError, LetterboxdErrorView, Stage};
use crate::fetch::{Fetch, FetchView};
use crate::film::{Film, FilmView};
use crate::rating::Rating;
use crate::scrape::{
    film_from_item, films_from_items, grid_items, page_links, pages_from_links, parse_rating,
    GridItem, BASE_URL,
};
use crate::sender::{HttpSettings, Sender};
use crate::text::{characters, is_alphanumeric, join, trim};
use vstd::prelude::*;

verus! {

/// A client of the site.
#[derive(Debug)]
pub struct LetterboxdClient {
    sender: Sender,
    config: ClientConfig,
    quota: RequestQuota,
}

/// Whether a character may stand in the name of a member: a letter or a number, none of which is
/// white space, a hyphen or an underscore.
pub open spec fn is_name_character(c: char) -> bool {
    ||| crate::text::unicode_alphanumeric(c) && !crate::text::is_white_space(c)
    ||| c == '-'
    ||| c == '_'
}

/// Whether an ASCII character may stand in the name of a member.
pub open spec fn is_ascii_name_character(c: char) -> bool {
    crate::text::is_ascii_alphanumeric(c) || c == '-' || c == '_'
}

/// What is wrong with the name of a member, if anything is.
pub open spec fn name_error(username: Seq<char>) -> Option<LetterboxdErrorView> {
    if crate::text::trimmed(username).len() == 0 {
        Some(LetterboxdErrorView::InvalidUsername("Username cannot be empty"@))
    } else if exists|i: int|
        0 <= i < username.len() && !is_name_character(#[trigger] username[i]) {
        Some(LetterboxdErrorView::InvalidUsername("Username contains invalid characters"@))
    } else {
        None
    }
}

/// The address of a page of the films of a member.
pub open spec fn page_url(username: Seq<char>, page: nat) -> Seq<char> {
    BASE_URL@ + "/"@ + username + "/films/page/"@ + crate::decimal::decimal(page)
}

/// The fetching of a page of the films of a member, before the first event, or what is wrong with
/// the name of the member.
pub open spec fn page_fetch(username: Seq<char>, page: nat, max_retries: usize) -> Result<
    FetchView,
    ClientErrorView,
> {
    match name_error(username) {
        Some(e) => Err(ClientErrorView::Letterboxd(e)),
        None => Ok(
            FetchView {
                username,
                url: page_url(username, page),
                attempt: 0,
                max_retries,
                last_error: None,
            },
        ),
    }
}

/// The films of some pages, one page behind the other.
pub open spec fn all_films(pages: Seq<Seq<FilmView>>) -> Seq<FilmView>
    decreases pages.len(),
{
    if pages.len() == 0 {
        Seq::empty()
    } else {
        all_films(pages.drop_last()) + pages.last()
    }
}

/// Some pages of films as a mathematical value.
pub open spec fn pages_view(pages: Seq<Vec<Film>>) -> Seq<Seq<FilmView>> {
    pages.map_values(|films: Vec<Film>| crate::scrape::films_view(films@))
}

/// What happens while the films of one page are read.
#[derive(Debug)]
pub enum PageEvent {
    /// The films are asked for.
    Start,
    /// The page could not be fetched.
    NoPage(ClientError),
    /// The body of the page was read, or could not be; the text then says why.
    Body(Result<String, String>),
}

/// A [`PageEvent`] as a mathematical value.
pub enum PageEventView {
    Start,
    NoPage(ClientErrorView),
    Body(Result<Seq<char>, Seq<char>>),
}

/// What is to be done next.
#[derive(Debug)]
pub enum PageAction {
    /// Fetch the page.
    FetchPage(Fetch),
    /// These are the films.
    Done(Vec<Film>),
    /// The films cannot be had.
    Failed(ClientError),
}

/// A [`PageAction`] as a mathematical value.
pub enum PageActionView {
    FetchPage(FetchView),
    Done(Seq<FilmView>),
    Failed(ClientErrorView),
}

impl View for PageEvent {
    type V = PageEventView;

    open spec fn view(&self) -> PageEventView {
        match *self {
            PageEvent::Start => PageEventView::Start,
            PageEvent::NoPage(e) => PageEventView::NoPage(e@),
            PageEvent::Body(body) => PageEventView::Body(crate::text::result_view(body)),
        }
    }
}

impl View for PageAction {
    type V = PageActionView;

    open spec fn view(&self) -> PageActionView {
        match *self {
            PageAction::FetchPage(fetch) => PageActionView::FetchPage(fetch@),
            PageAction::Done(films) => PageActionView::Done(crate::scrape::films_view(films@)),
            PageAction::Failed(e) => PageActionView::Failed(e@),
        }
    }
}

/// What is done on an event while the films of one page are read.
pub open spec fn page_step(
    username: Seq<char>,
    page: nat,
    max_retries: usize,
    event: PageEventView,
) -> PageActionView {
    match event {
        PageEventView::Start => match page_fetch(username, page, max_retries) {
            Ok(fetch) => PageActionView::FetchPage(fetch),
            Err(e) => PageActionView::Failed(e),
        },
        PageEventView::NoPage(e) => PageActionView::Failed(e),
        PageEventView::Body(Err(text)) => PageActionView::Failed(
            ClientErrorView::Outside(text).during(Stage::ResponseText),
        ),
        PageEventView::Body(Ok(body)) => match crate::scrape::page_films(
            crate::scrape::items_on(body),
        ) {
            Ok(films) => PageActionView::Done(films),
            Err(e) => PageActionView::Failed(e),
        },
    }
}

/// What happens while the films of a member are gathered.
#[derive(Debug)]
pub enum UserEvent {
    /// The films are asked for.
    Start,
    /// The first page could not be fetched.
    NoFirstPage(ClientError),
    /// The body of the first page was read, or could not be; the text then says why.
    FirstBody(Result<String, String>),
    /// The pages were fetched, and their films are here in the order in which the pages came; or
    /// one of them could not be had.
    Pages(Result<Vec<Vec<Film>>, ClientError>),
}

/// A [`UserEvent`] as a mathematical value.
pub enum UserEventView {
    Start,
    NoFirstPage(ClientErrorView),
    FirstBody(Result<Seq<char>, Seq<char>>),
    Pages(Result<Seq<Seq<FilmView>>, ClientErrorView>),
}

/// What is to be done next.
#[derive(Debug)]
pub enum UserAction {
    /// Fetch the first page.
    FetchFirstPage(Fetch),
    /// Fetch the films of the pages from the first to the last, so many at once.
    FetchPages {
        /// The number of the last page.
        last: usize,
        /// How many pages are fetched at once.
        at_once: usize,
    },
    /// These are the films.
    Done(Vec<Film>),
    /// The films cannot be had.
    Failed(ClientError),
}

/// A [`UserAction`] as a mathematical value.
pub enum UserActionView {
    FetchFirstPage(FetchView),
    FetchPages { last: int, at_once: usize },
    Done(Seq<FilmView>),
    Failed(ClientErrorView),
}

impl View for UserEvent {
    type V = UserEventView;

    open spec fn view(&self) -> UserEventView {
        match *self {
            UserEvent::Start => UserEventView::Start,
            UserEvent::NoFirstPage(e) => UserEventView::NoFirstPage(e@),
            UserEvent::FirstBody(body) => UserEventView::FirstBody(crate::text::result_view(body)),
            UserEvent::Pages(Ok(pages)) => UserEventView::Pages(Ok(pages_view(pages@))),
            UserEvent::Pages(Err(e)) => UserEventView::Pages(Err(e@)),
        }
    }
}

impl View for UserAction {
    type V = UserActionView;

    open spec fn view(&self) -> UserActionView {
        match *self {
            UserAction::FetchFirstPage(fetch) => UserActionView::FetchFirstPage(fetch@),
            UserAction::FetchPages { last, at_once } => UserActionView::FetchPages {
                last: last as int,
                at_once,
            },
            UserAction::Done(films) => UserActionView::Done(crate::scrape::films_view(films@)),
            UserAction::Failed(e) => UserActionView::Failed(e@),
        }
    }
}

/// What is done on an event while the films of a member are gathered.
pub open spec fn user_step(
    username: Seq<char>,
    max_retries: usize,
    at_once: usize,
    event: UserEventView,
) -> UserActionView {
    match event {
        UserEventView::Start => match page_fetch(username, 1, max_retries) {
            Ok(fetch) => UserActionView::FetchFirstPage(fetch),
            Err(e) => UserActionView::Failed(e),
        },
        UserEventView::NoFirstPage(e) => UserActionView::Failed(e.during(Stage::FirstPage)),
        UserEventView::FirstBody(Err(text)) => UserActionView::Failed(
            ClientErrorView::Outside(text).during(Stage::ResponseText),
        ),
        UserEventView::FirstBody(Ok(body)) => match crate::scrape::page_count(
            crate::scrape::pagination_on(body),
        ) {
            Ok(last) => UserActionView::FetchPages { last, at_once },
            Err(e) => UserActionView::Failed(e.during(Stage::PageCount)),
        },
        UserEventView::Pages(Err(e)) => UserActionView::Failed(e.during(Stage::CollectFilms)),
        UserEventView::Pages(Ok(pages)) => UserActionView::Done(all_films(pages)),
    }
}

impl LetterboxdClient {
    #[verifier::type_invariant]
    spec fn consistent(self) -> bool {
        &&& self.config.requests_per_minute > 0
        &&& self.quota == crate::config::per_minute(self.config.requests_per_minute)
        &&& self.sender.settings().fits(self.config)
    }

    /// How the client talks to the site.
    pub closed spec fn settings(self) -> ClientConfig {
        self.config
    }

    /// What sends the requests of the client.
    pub closed spec fn sender(self) -> Sender {
        self.sender
    }

    /// A client with a configuration, on what sends its requests as the configuration asks for, or
    /// on the text that says why that could not be built.
    pub fn from_built(config: ClientConfig, built: Result<Sender, String>) -> (res: Result<
        LetterboxdClient,
        ClientError,
    >)
        requires
            built matches Ok(sender) ==> config.requests_per_minute > 0 && sender.settings().fits(
                config,
            ),
        ensures
            match built {
                Ok(sender) => res is Ok && res->Ok_0.settings() == config && res->Ok_0.sender()
                    == sender,
                Err(text) => res is Err && res->Err_0@ == ClientErrorView::Outside(text@).during(
                    Stage::HttpClient,
                ),
            },
    {
        match built {
            Ok(sender) => {
                let quota = quota_per_minute(config.requests_per_minute);
                Ok(LetterboxdClient { sender, config, quota })
            },
            Err(text) => Err(ClientError::Outside(text).during(Stage::HttpClient)),
        }
    }

    /// A client with a configuration. Its requests carry the user agent of the configuration, take
    /// no longer than its timeout, and allow for replies that are compressed with gzip.
    pub fn new_with_config(config: ClientConfig) -> (res: Result<LetterboxdClient, ClientError>)
        requires
            config.timeout.nanos < 1_000_000_000,
            crate::sender::is_header_text(config.user_agent@) ==> config.requests_per_minute > 0,
        ensures
            res matches Ok(client) ==> client.settings() == config,
            res matches Ok(client) ==> client.sender().settings().user_agent@ == config.user_agent@
                && client.sender().settings().timeout == config.timeout
                && client.sender().settings().gzip,
            res matches Err(e) ==> e@ matches ClientErrorView::While(Stage::HttpClient, cause)
                && *cause is Outside,
            !crate::sender::is_header_text(config.user_agent@) ==> res is Err,
    {
        let built = Sender::build(HttpSettings::of(&config));
        LetterboxdClient::from_built(config, built)
    }

    /// A client with the default configuration.
    pub fn new() -> (res: Result<LetterboxdClient, ClientError>)
        ensures
            res matches Ok(client) ==> client.settings().is_default(),
            res matches Ok(client) ==> client.sender().settings().user_agent@ == USER_AGENT@
                && client.sender().settings().timeout == (Timeout { secs: 30, nanos: 0 })
                && client.sender().settings().gzip,
            res matches Err(e) ==> e@ matches ClientErrorView::While(Stage::HttpClient, cause)
                && *cause is Outside,
    {
        LetterboxdClient::new_with_config(ClientConfig::default())
    }

    /// What sends the requests of the client, as its configuration asks for.
    pub fn client(&self) -> (res: &reqwest::Client)
        ensures
            *res == self.sender().http(),
            self.sender().settings().fits(self.settings()),
    {
        proof {
            use_type_invariant(self);
        }
        self.sender.client()
    }

    /// How the client talks to the site.
    pub fn config(&self) -> (res: &ClientConfig)
        ensures
            *res == self.settings(),
    {
        &self.config
    }

    /// How the requests of the client are spread over time.
    pub fn quota(&self) -> (res: RequestQuota)
        ensures
            res == crate::config::per_minute(self.settings().requests_per_minute),
            self.settings().requests_per_minute > 0,
    {
        proof {
            use_type_invariant(self);
        }
        self.quota
    }

    /// Checks the name of a member: it is not empty, and holds letters, numbers, hyphens and
    /// underscores only.
    pub fn validate_username(username: &str) -> (res: Result<(), LetterboxdError>)
        ensures
            match res {
                Ok(()) => name_error(username@) is None,
                Err(e) => name_error(username@) == Some(e@),
            },
            res is Ok <==> username@.len() > 0 && forall|i: int|
                0 <= i < username@.len() ==> is_name_character(#[trigger] username@[i]),
            res is Ok ==> forall|i: int|
                0 <= i < username@.len() && (#[trigger] username@[i]) as int <= 0x7f
                    ==> is_ascii_name_character(username@[i]),
            res is Ok ==> !username@.contains('/'),
            username@.len() > 0 && (forall|i: int|
                0 <= i < username@.len() ==> is_ascii_name_character(#[trigger] username@[i]))
                ==> res is Ok,
    {
        proof {
            law_accepted_names(username@);
        }
        if trim(username).is_empty() {
            proof {
                if username@.len() > 0 && is_ascii_name_character(username@[0])
                    && is_ascii_name_character(username@[username@.len() - 1]) {
                    assert(crate::text::trimmed(username@) == username@);
                }
            }
            return Err(LetterboxdError::InvalidUsername("Username cannot be empty".to_owned()));
        }
        let chars = characters(username);
        let mut i: usize = 0;
        while i < chars.len()
            invariant
                i <= chars.len(),
                chars@ == username@,
                crate::text::trimmed(username@).len() > 0,
                forall|j: int| 0 <= j < i ==> is_name_character(#[trigger] username@[j]),
                forall|j: int|
                    0 <= j < i && (#[trigger] username@[j]) as int <= 0x7f
                        ==> is_ascii_name_character(username@[j]),
            decreases chars.len() - i,
        {
            let c = chars[i];
            if !(is_alphanumeric(c) || c == '-' || c == '_') {
                assert(!is_name_character(username@[i as int]));
                assert(!is_ascii_name_character(username@[i as int]));
                return Err(
                    LetterboxdError::InvalidUsername(
                        "Username contains invalid characters".to_owned(),
                    ),
                );
            }
            i += 1;
        }
        Ok(())
    }

    /// Reads a rating from its stars.
    pub fn parse_rating(rating: &str) -> (res: Result<Rating, ClientError>)
        ensures
            match res {
                Ok(r) => crate::scrape::rating_of(rating@) == Ok::<Rating, ClientErrorView>(r),
                Err(e) => crate::scrape::rating_of(rating@) == Err::<Rating, ClientErrorView>(e@),
            },
    {
        parse_rating(rating)
    }

    /// Finds out how many pages the films of a member have, from one of the pages.
    pub fn get_pages(&self, html: &str) -> (res: Result<usize, ClientError>)
        ensures
            match res {
                Ok(n) => crate::scrape::page_count(crate::scrape::pagination_on(html@)) == Ok::<
                    int,
                    ClientErrorView,
                >(n as int),
                Err(e) => crate::scrape::page_count(crate::scrape::pagination_on(html@)) == Err::<
                    int,
                    ClientErrorView,
                >(e@),
            },
    {
        let links = page_links(html);
        pages_from_links(&links)
    }

    /// Reads a film from an item of the grid of films.
    pub fn film_from_elem_ref(&self, movie: &GridItem) -> (res: Result<Film, ClientError>)
        ensures
            match res {
                Ok(film) => crate::scrape::film_of(movie@) == Ok::<FilmView, ClientErrorView>(
                    film@,
                ),
                Err(e) => crate::scrape::film_of(movie@) == Err::<FilmView, ClientErrorView>(e@),
            },
    {
        film_from_item(movie)
    }

    /// Starts to fetch a page of the films of a member.
    pub fn get_letterboxd_film_by_page(&self, username: &str, page: usize) -> (res: Result<
        Fetch,
        ClientError,
    >)
        ensures
            page_fetch(username@, page as nat, self.settings().max_retries) == (match res {
                Ok(fetch) => Ok::<FetchView, ClientErrorView>(fetch@),
                Err(e) => Err::<FetchView, ClientErrorView>(e@),
            }),
    {
        match LetterboxdClient::validate_username(username) {
            Ok(()) => {},
            Err(e) => {
                return Err(ClientError::Letterboxd(e));
            },
        }
        let mut url = join(BASE_URL, "/");
        url.append(username);
        url.append("/films/page/");
        url.append(to_decimal(page as u64).as_str());
        Ok(
            Fetch {
                username: username.to_owned(),
                url,
                attempt: 0,
                max_retries: self.config.max_retries,
                last_error: None,
            },
        )
    }

    /// Decides what is done on an event while the films of one page are read.
    pub fn get_movies_from_page(&self, username: &str, page: usize, event: PageEvent) -> (action:
        PageAction)
        ensures
            action@ == page_step(username@, page as nat, self.settings().max_retries, event@),
    {
        match event {
            PageEvent::Start => match self.get_letterboxd_film_by_page(username, page) {
                Ok(fetch) => PageAction::FetchPage(fetch),
                Err(e) => PageAction::Failed(e),
            },
            PageEvent::NoPage(e) => PageAction::Failed(e),
            PageEvent::Body(Err(text)) => PageAction::Failed(
                ClientError::Outside(text).during(Stage::ResponseText),
            ),
            PageEvent::Body(Ok(body)) => {
                let items = grid_items(body.as_str());
                match films_from_items(&items) {
                    Ok(films) => PageAction::Done(films),
                    Err(e) => PageAction::Failed(e),
                }
            },
        }
    }

    /// Decides what is done on an event while the films of a member are gathered.
    pub fn get_movies_of_user(&self, username: &str, event: UserEvent) -> (action: UserAction)
        ensures
            action@ == user_step(
                username@,
                self.settings().max_retries,
                self.settings().concurrent_requests,
                event@,
            ),
    {
        match event {
            UserEvent::Start => match self.get_letterboxd_film_by_page(username, 1) {
                Ok(fetch) => UserAction::FetchFirstPage(fetch),
                Err(e) => UserAction::Failed(e),
            },
            UserEvent::NoFirstPage(e) => UserAction::Failed(e.during(Stage::FirstPage)),
            UserEvent::FirstBody(Err(text)) => UserAction::Failed(
                ClientError::Outside(text).during(Stage::ResponseText),
            ),
            UserEvent::FirstBody(Ok(body)) => match self.get_pages(body.as_str()) {
                Ok(last) => UserAction::FetchPages {
                    last,
                    at_once: self.config.concurrent_requests,
                },
                Err(e) => UserAction::Failed(e.during(Stage::PageCount)),
            },
            UserEvent::Pages(Err(e)) => UserAction::Failed(e.during(Stage::CollectFilms)),
            UserEvent::Pages(Ok(pages)) => UserAction::Done(flatten(pages)),
        }
    }
}

/// Puts the films of some pages one page behind the other.
fn flatten(pages: Vec<Vec<Film>>) -> (res: Vec<Film>)
    ensures
        crate::scrape::films_view(res@) == all_films(pages_view(pages@)),
{
    let ghost all = pages_view(pages@);
    let mut films: Vec<Film> = Vec::new();
    assert(crate::scrape::films_view(films@) =~= Seq::<FilmView>::empty());
    for page in it: pages.into_iter()
        invariant
            all == pages_view(it.seq()),
            crate::scrape::films_view(films@) == all_films(all.take(it.index())),
    {
        proof {
            let i = it.index();
            assert(all.take(i + 1).drop_last() =~= all.take(i));
            assert(all.take(i + 1).last() == crate::scrape::films_view(page@));
        }
        let ghost before = films@;
        let ghost added = page@;
        let mut more = page;
        films.append(&mut more);
        assert(crate::scrape::films_view(before + added) =~= crate::scrape::films_view(before)
            + crate::scrape::films_view(added));
    }
    assert(all.take(all.len() as int) =~= all);
    films
}

/// A name is accepted exactly when it is not empty and holds nothing but letters, numbers, hyphens
/// and underscores.
pub proof fn law_accepted_names(username: Seq<char>)
    ensures
        name_error(username) is None <==> username.len() > 0 && forall|i: int|
            0 <= i < username.len() ==> is_name_character(#[trigger] username[i]),
{
    if username.len() > 0 && forall|i: int|
        0 <= i < username.len() ==> is_name_character(#[trigger] username[i]) {
        assert(is_name_character(username[0]));
        assert(is_name_character(username[username.len() - 1]));
        assert(crate::text::trimmed(username) == username);
    }
}

/// Two names put together are accepted exactly when both are.
pub proof fn law_names_put_together(a: Seq<char>, b: Seq<char>)
    requires
        a.len() > 0,
        b.len() > 0,
    ensures
        name_error(a + b) is None <==> name_error(a) is None && name_error(b) is None,
{
    let both = a + b;
    law_accepted_names(a);
    law_accepted_names(b);
    law_accepted_names(both);
    assert(forall|i: int| 0 <= i < a.len() ==> both[i] == #[trigger] a[i]);
    assert(forall|i: int| 0 <= i < b.len() ==> both[a.len() + i] == #[trigger] b[i]);
}

/// A name of white space only is refused as empty.
pub proof fn law_blank_names_are_refused(username: Seq<char>)
    requires
        crate::text::all_white_space(username),
    ensures
        name_error(username) == Some(
            LetterboxdErrorView::InvalidUsername("Username cannot be empty"@),
        ),
{
    let empty = Seq::<char>::empty();
    crate::text::law_trim_ignores_padding(username, empty, empty);
    assert(username + empty + empty =~= username);
}

/// The address of a page tells whose page it is, and which one, as long as there is no slash in
/// the name; and there is none in a name that is accepted.
pub proof fn law_page_url_tells_pages_apart(
    username1: Seq<char>,
    page1: nat,
    username2: Seq<char>,
    page2: nat,
)
    requires
        !username1.contains('/'),
        !username2.contains('/'),
        page_url(username1, page1) == page_url(username2, page2),
    ensures
        username1 == username2,
        page1 == page2,
{
    reveal_strlit("/films/page/");
    let front = BASE_URL@ + "/"@;
    let middle = "/films/page/"@;
    let a = page_url(username1, page1);
    let b = page_url(username2, page2);
    let n = front.len() as int;
    let l1 = username1.len() as int;
    let l2 = username2.len() as int;
    assert(a =~= front + username1 + middle + crate::decimal::decimal(page1));
    assert(b =~= front + username2 + middle + crate::decimal::decimal(page2));
    assert forall|i: int| 0 <= i < l1 implies a[n + i] == username1[i] && username1[i] != '/' by {
        assert(username1.contains(username1[i]));
    }
    assert forall|i: int| 0 <= i < l2 implies b[n + i] == username2[i] && username2[i] != '/' by {
        assert(username2.contains(username2[i]));
    }
    assert(a[n + l1] == '/');
    assert(b[n + l2] == '/');
    if l1 < l2 {
        assert(b[n + l1] == username2[l1]);
    }
    if l2 < l1 {
        assert(a[n + l2] == username1[l2]);
    }
    assert forall|i: int| 0 <= i < l1 implies username1[i] == username2[i] by {
        assert(a[n + i] == b[n + i]);
    }
    assert(username1 =~= username2);
    let m = n + l1 + middle.len();
    assert(crate::decimal::decimal(page1) =~= a.skip(m));
    assert(crate::decimal::decimal(page2) =~= b.skip(m));
    let max = (page1 + page2) as int;
    crate::decimal::law_decimal_reads_back(page1, max);
    crate::decimal::law_decimal_reads_back(page2, max);
}

/// A film is among the gathered ones exactly when it is on one of the pages, and none is lost or
/// added.
pub proof fn law_gathered_films(pages: Seq<Seq<FilmView>>, film: FilmView)
    ensures
        all_films(pages).contains(film) <==> exists|i: int|
            0 <= i < pages.len() && (#[trigger] pages[i]).contains(film),
        all_films(pages).len() == pages.map_values(
            |page: Seq<FilmView>| page.len() as int,
        ).fold_left(0, |sum: int, n: int| sum + n),
    decreases pages.len(),
{
    let lens = pages.map_values(|page: Seq<FilmView>| page.len() as int);
    if pages.len() == 0 {
        assert(!all_films(pages).contains(film));
    } else {
        let rest = pages.drop_last();
        law_gathered_films(rest, film);
        assert(lens.drop_last() =~= rest.map_values(|page: Seq<FilmView>| page.len() as int));
        let whole = all_films(pages);
        let before = all_films(rest);
        if before.contains(film) {
            let i = choose|i: int| 0 <= i < rest.len() && (#[trigger] rest[i]).contains(film);
            assert(pages[i].contains(film));
            let k = choose|k: int| 0 <= k < before.len() && before[k] == film;
            assert(whole[k] == film);
        }
        if pages.last().contains(film) {
            assert(pages[pages.len() - 1].contains(film));
            let k = choose|k: int| 0 <= k < pages.last().len() && pages.last()[k] == film;
            assert(whole[before.len() + k] == film);
        }
        if whole.contains(film) && !pages.last().contains(film) {
            let k = choose|k: int| 0 <= k < whole.len() && whole[k] == film;
            if k >= before.len() {
                assert(pages.last()[k - before.len()] == film);
            }
            assert(before[k] == film);
        }
        if exists|i: int| 0 <= i < pages.len() && (#[trigger] pages[i]).contains(film) {
            let i = choose|i: int| 0 <= i < pages.len() && (#[trigger] pages[i]).contains(film);
            if i < rest.len() {
                assert(rest[i].contains(film));
            }
        }
    }
}

/// The films of a page, put in front of or behind those of other pages.
proof fn lemma_films_of_one_page_more(pages: Seq<Seq<FilmView>>, i: int)
    requires
        0 <= i < pages.len(),
    ensures
        all_films(pages).to_multiset() == all_films(pages.remove(i)).to_multiset().add(
            pages[i].to_multiset(),
        ),
    decreases pages.len(),
{
    let rest = pages.drop_last();
    let n = pages.len() - 1;
    vstd::seq_lib::lemma_multiset_commutative(all_films(rest), pages.last());
    if i == n {
        assert(pages.remove(i) =~= rest);
    } else {
        lemma_films_of_one_page_more(rest, i);
        assert(pages.remove(i).drop_last() =~= rest.remove(i));
        assert(pages.remove(i).last() == pages.last());
        vstd::seq_lib::lemma_multiset_commutative(all_films(rest.remove(i)), pages.last());
    }
    assert(all_films(pages).to_multiset() =~= all_films(pages.remove(i)).to_multiset().add(
        pages[i].to_multiset(),
    ));
}

/// The order in which the pages come does not matter to which films are gathered, and how often.
pub proof fn law_order_of_pages_does_not_matter(
    pages1: Seq<Seq<FilmView>>,
    pages2: Seq<Seq<FilmView>>,
)
    requires
        pages1.to_multiset() == pages2.to_multiset(),
    ensures
        all_films(pages1).to_multiset() == all_films(pages2).to_multiset(),
    decreases pages1.len(),
{
    broadcast use vstd::seq_lib::group_to_multiset_ensures;

    assert(pages1.len() == pages1.to_multiset().len());
    assert(pages2.len() == pages2.to_multiset().len());
    if pages1.len() == 0 {
        assert(pages1 =~= pages2);
    } else {
        let page = pages1[0];
        assert(pages1.contains(page));
        assert(pages2.to_multiset().count(page) > 0);
        assert(pages2.contains(page));
        let i = choose|i: int| 0 <= i < pages2.len() && pages2[i] == page;
        lemma_films_of_one_page_more(pages1, 0);
        lemma_films_of_one_page_more(pages2, i);
        law_order_of_pages_does_not_matter(pages1.remove(0), pages2.remove(i));
    }
}

/// What a reader is told when the films of a member cannot be had: what is wrong with the name,
/// or which stage failed, and never the cause behind it.
pub proof fn law_what_the_reader_is_told(
    username: Seq<char>,
    max_retries: usize,
    at_once: usize,
    event: UserEventView,
)
    ensures
        user_step(username, max_retries, at_once, event) matches UserActionView::Failed(e)
            ==> e.message() == (match event {
            UserEventView::Start => name_error(username)->0.message(),
            UserEventView::NoFirstPage(_) => "Failed to fetch first page"@,
            UserEventView::FirstBody(Err(_)) => "Failed to get response text"@,
            UserEventView::FirstBody(Ok(_)) => "Failed to get page count"@,
            UserEventView::Pages(_) => "Failed to collect films"@,
        }),
{
}

/// A hyphen and an underscore may stand in a name; of the other characters, those that Unicode
/// counts as letters or numbers, and none that is white space.
pub proof fn law_characters_of_names(c: char)
    ensures
        c == '-' || c == '_' ==> is_name_character(c) && is_ascii_name_character(c),
        c != '-' && c != '_' ==> (is_name_character(c) <==> crate::text::unicode_alphanumeric(c)
            && !crate::text::is_white_space(c)),
        c != '-' && c != '_' ==> (is_ascii_name_character(c) <==> ('a' <= c <= 'z') || ('A' <= c
            <= 'Z') || ('0' <= c <= '9')),
{
}

/// Why a name is refused: it is empty, white space aside; or else there is a character in it that
/// may not stand in a name.
pub proof fn law_why_names_are_refused(username: Seq<char>)
    ensures
        (forall|i: int|
            0 <= i < username.len() ==> crate::text::is_white_space(#[trigger] username[i]))
            ==> name_error(username) == Some(
            LetterboxdErrorView::InvalidUsername("Username cannot be empty"@),
        ),
        (exists|i: int, j: int|
            0 <= i < username.len() && 0 <= j < username.len() && !crate::text::is_white_space(
                #[trigger] username[i],
            ) && !is_name_character(#[trigger] username[j])) ==> name_error(username) == Some(
            LetterboxdErrorView::InvalidUsername("Username contains invalid characters"@),
        ),
{
    if forall|i: int|
        0 <= i < username.len() ==> crate::text::is_white_space(#[trigger] username[i]) {
        law_blank_names_are_refused(username);
    }
    crate::text::law_trim_cuts_white_space_only(username);
    let (from, to) = choose|i: int, j: int|
        0 <= i <= j <= username.len() && crate::text::trimmed(username)
            == #[trigger] username.subrange(i, j) && (forall|k: int|
            0 <= k < i || j <= k < username.len() ==> crate::text::is_white_space(
                #[trigger] username[k],
            )) && (i < j ==> !crate::text::is_white_space(username[i])
            && !crate::text::is_white_space(username[j - 1]));
    assert(crate::text::trimmed(username).len() == to - from);
}

/// The address of a page names the member behind the site, and ends with the number of the page,
/// whatever the number is.
pub proof fn law_page_url_names_the_page(username: Seq<char>, page: nat)
    ensures
        page_url(username, page) == "https://letterboxd.com"@ + "/"@ + username + "/films/page/"@
            + crate::decimal::decimal(page),
{
}

/// A page is fetched for an accepted name, and for no other: from the address of the page, for the
/// member, with as many requests as the configuration allows and none of them sent.
pub proof fn law_pages_are_fetched_afresh(username: Seq<char>, page: nat, max_retries: usize)
    ensures
        page_fetch(username, page, max_retries) is Ok <==> username.len() > 0 && forall|i: int|
            0 <= i < username.len() ==> is_name_character(#[trigger] username[i]),
        page_fetch(username, page, max_retries) matches Ok(fetch) ==> {
            &&& fetch.username == username
            &&& fetch.url == page_url(username, page)
            &&& fetch.attempt == 0
            &&& fetch.max_retries == max_retries
            &&& fetch.last_error is None
        },
        page_fetch(username, page, max_retries) matches Err(e) ==> name_error(username) is Some && e
            == ClientErrorView::Letterboxd(name_error(username)->0),
{
    law_accepted_names(username);
}

/// The films of a page that has come are those that its items show, one for one and in their order,
/// exactly when each shows one. Otherwise the failure is that of the first item that shows none.
pub proof fn law_films_of_the_page_that_came(
    username: Seq<char>,
    page: nat,
    max_retries: usize,
    body: Seq<char>,
)
    ensures
        ({
            let action = page_step(username, page, max_retries, PageEventView::Body(Ok(body)));
            let items = crate::scrape::items_on(body);
            &&& action is Done <==> forall|i: int|
                0 <= i < items.len() ==> crate::scrape::film_of(#[trigger] items[i]) is Ok
            &&& action matches PageActionView::Done(films) ==> films.len() == items.len()
                && forall|i: int|
                0 <= i < items.len() ==> crate::scrape::film_of(items[i]) == Ok::<
                    FilmView,
                    ClientErrorView,
                >(#[trigger] films[i])
            &&& !(action is Done) ==> action is Failed && exists|i: int|
                0 <= i < items.len() && crate::scrape::film_of(#[trigger] items[i]) is Err
                    && action->Failed_0 == ClientErrorView::While(
                    Stage::PageFilms,
                    Box::new(crate::scrape::film_of(items[i])->Err_0),
                ) && forall|j: int| 0 <= j < i ==> crate::scrape::film_of(#[trigger] items[j]) is Ok
        }),
{
    crate::scrape::law_page_is_read_when_its_items_are(crate::scrape::items_on(body));
}

/// A page that could not be fetched fails for that reason, and one whose body could not be read for
/// the reason that was given. A page is fetched first, and only then.
pub proof fn law_pages_that_did_not_come(
    username: Seq<char>,
    page: nat,
    max_retries: usize,
    event: PageEventView,
    e: ClientErrorView,
    text: Seq<char>,
)
    ensures
        page_step(username, page, max_retries, PageEventView::NoPage(e)) == PageActionView::Failed(
            e,
        ),
        page_step(username, page, max_retries, PageEventView::Body(Err(text)))
            == PageActionView::Failed(
            ClientErrorView::While(
                Stage::ResponseText,
                Box::new(ClientErrorView::Outside(text)),
            ),
        ),
        page_step(username, page, max_retries, event) is FetchPage ==> event is Start,
        (match page_fetch(username, page, max_retries) {
            Ok(fetch) => page_step(username, page, max_retries, PageEventView::Start)
                == PageActionView::FetchPage(fetch),
            Err(refusal) => page_step(username, page, max_retries, PageEventView::Start)
                == PageActionView::Failed(refusal),
        }),
{
}

/// Films of pages put together are the films of the ones and then of the others.
proof fn lemma_all_films_add(a: Seq<Seq<FilmView>>, b: Seq<Seq<FilmView>>)
    ensures
        all_films(a + b) == all_films(a) + all_films(b),
    decreases b.len(),
{
    if b.len() == 0 {
        assert(a + b =~= a);
        assert(all_films(a) + all_films(b) =~= all_films(a));
    } else {
        lemma_all_films_add(a, b.drop_last());
        assert((a + b).drop_last() =~= a + b.drop_last());
        assert((a + b).last() == b.last());
        assert(all_films(a + b) =~= all_films(a) + all_films(b));
    }
}

/// When the pages have come, the answer holds each film of each page as often as the pages hold it,
/// and nothing else.
pub proof fn law_answer_holds_the_films_of_all_pages(
    username: Seq<char>,
    max_retries: usize,
    at_once: usize,
    pages: Seq<Seq<FilmView>>,
)
    ensures
        user_step(username, max_retries, at_once, UserEventView::Pages(Ok(pages))) is Done,
        user_step(
            username,
            max_retries,
            at_once,
            UserEventView::Pages(Ok(pages)),
        )->Done_0.to_multiset() == pages.map_values(
            |page: Seq<FilmView>| page.to_multiset(),
        ).fold_left(
            vstd::multiset::Multiset::<FilmView>::empty(),
            |sum: vstd::multiset::Multiset<FilmView>, page: vstd::multiset::Multiset<FilmView>|
                sum.add(page),
        ),
    decreases pages.len(),
{
    broadcast use vstd::seq_lib::group_to_multiset_ensures;

    let sets = pages.map_values(|page: Seq<FilmView>| page.to_multiset());
    if pages.len() == 0 {
        assert(all_films(pages).to_multiset() =~= vstd::multiset::Multiset::<FilmView>::empty());
    } else {
        let rest = pages.drop_last();
        law_answer_holds_the_films_of_all_pages(username, max_retries, at_once, rest);
        assert(sets.drop_last() =~= rest.map_values(|page: Seq<FilmView>| page.to_multiset()));
        vstd::seq_lib::lemma_multiset_commutative(all_films(rest), pages.last());
    }
}

/// The films of the pages follow each other as the pages came, and those of one page as they stand
/// on it.
pub proof fn law_answer_keeps_the_order_of_the_pages(
    username: Seq<char>,
    max_retries: usize,
    at_once: usize,
    a: Seq<Seq<FilmView>>,
    b: Seq<Seq<FilmView>>,
    page: Seq<FilmView>,
)
    ensures
        ({
            let films = |pages: Seq<Seq<FilmView>>|
                user_step(
                    username,
                    max_retries,
                    at_once,
                    UserEventView::Pages(Ok(pages)),
                )->Done_0;
            &&& films(a + b) == films(a) + films(b)
            &&& films(seq![page]) == page
            &&& films(seq![]) == Seq::<FilmView>::empty()
        }),
{
    lemma_all_films_add(a, b);
    assert(seq![page].drop_last() =~= Seq::<Seq<FilmView>>::empty());
    assert(all_films(seq![page].drop_last()) == Seq::<FilmView>::empty());
    assert(all_films(seq![page]) =~= page);
}

/// From the first page it is found out how many pages there are; all of them are then fetched, from
/// the first to that one, as many at once as the configuration says.
pub proof fn law_all_pages_are_fetched(
    username: Seq<char>,
    max_retries: usize,
    at_once: usize,
    event: UserEventView,
    body: Seq<char>,
    n: nat,
)
    ensures
        ({
            let action = user_step(
                username,
                max_retries,
                at_once,
                UserEventView::FirstBody(Ok(body)),
            );
            let links = crate::scrape::pagination_on(body);
            &&& links is None ==> action == (UserActionView::FetchPages { last: 1, at_once })
            &&& links is Some && links->0.len() > 0 ==> (action == (UserActionView::FetchPages {
                last: n as int,
                at_once,
            }) <==> crate::decimal::denotes(links->0.last(), n) && n <= usize::MAX)
            &&& links is Some && links->0.len() == 0 ==> action == UserActionView::Failed(
                ClientErrorView::While(
                    Stage::PageCount,
                    Box::new(
                        ClientErrorView::Letterboxd(
                            LetterboxdErrorView::PaginationElementNotFound,
                        ),
                    ),
                ),
            )
            &&& !(action is FetchPages) ==> action is Failed && crate::scrape::page_count(
                links,
            ) is Err && action->Failed_0 == ClientErrorView::While(
                Stage::PageCount,
                Box::new(crate::scrape::page_count(links)->Err_0),
            )
        }),
        user_step(username, max_retries, at_once, event) is FetchPages
            ==> event matches UserEventView::FirstBody(Ok(_)),
        user_step(username, max_retries, at_once, event) is Done
            ==> event matches UserEventView::Pages(Ok(_)),
{
    let links = crate::scrape::pagination_on(body);
    if links is Some {
        crate::scrape::law_number_of_pages(links->0, n);
    }
}

/// The first page is fetched first, for an accepted name. Whatever fails ends the gathering, with
/// the cause and what was being done.
pub proof fn law_what_fails_ends_the_gathering(
    username: Seq<char>,
    max_retries: usize,
    at_once: usize,
    e: ClientErrorView,
    text: Seq<char>,
)
    ensures
        (match page_fetch(username, 1, max_retries) {
            Ok(fetch) => user_step(username, max_retries, at_once, UserEventView::Start)
                == UserActionView::FetchFirstPage(fetch),
            Err(refusal) => user_step(username, max_retries, at_once, UserEventView::Start)
                == UserActionView::Failed(refusal),
        }),
        user_step(username, max_retries, at_once, UserEventView::NoFirstPage(e))
            == UserActionView::Failed(ClientErrorView::While(Stage::FirstPage, Box::new(e))),
        user_step(username, max_retries, at_once, UserEventView::FirstBody(Err(text)))
            == UserActionView::Failed(
            ClientErrorView::While(
                Stage::ResponseText,
                Box::new(ClientErrorView::Outside(text)),
            ),
        ),
        user_step(username, max_retries, at_once, UserEventView::Pages(Err(e)))
            == UserActionView::Failed(ClientErrorView::While(Stage::CollectFilms, Box::new(e))),
{
}

/// The view of an event and of an action holds what they hold.
pub proof fn law_client_views(
    page_event: PageEvent,
    page_action: PageAction,
    event: UserEvent,
    action: UserAction,
)
    ensures
        page_event is Start <==> page_event@ is Start,
        page_event matches PageEvent::NoPage(e) ==> page_event@ == PageEventView::NoPage(e@),
        page_event matches PageEvent::Body(Ok(body)) ==> page_event@ == PageEventView::Body(
            Ok(body@),
        ),
        page_event matches PageEvent::Body(Err(text)) ==> page_event@ == PageEventView::Body(
            Err(text@),
        ),
        page_action@ matches PageActionView::FetchPage(fetch) ==> page_action is FetchPage
            && page_action->FetchPage_0@ == fetch,
        page_action@ matches PageActionView::Done(films) ==> page_action is Done
            && page_action->Done_0@.map_values(|film: Film| film@) == films,
        page_action@ matches PageActionView::Failed(e) ==> page_action is Failed
            && page_action->Failed_0@ == e,
        event is Start <==> event@ is Start,
        event matches UserEvent::NoFirstPage(e) ==> event@ == UserEventView::NoFirstPage(e@),
        event matches UserEvent::FirstBody(Ok(body)) ==> event@ == UserEventView::FirstBody(
            Ok(body@),
        ),
        event matches UserEvent::FirstBody(Err(text)) ==> event@ == UserEventView::FirstBody(
            Err(text@),
        ),
        event matches UserEvent::Pages(Ok(pages)) ==> event@ is Pages && event@->Pages_0 is Ok
            && event@->Pages_0->Ok_0.len() == pages@.len() && forall|i: int|
            0 <= i < pages@.len() ==> #[trigger] event@->Pages_0->Ok_0[i] == pages@[i]@.map_values(
                |film: Film| film@,
            ),
        event matches UserEvent::Pages(Err(e)) ==> event@ == UserEventView::Pages(Err(e@)),
        action@ matches UserActionView::FetchFirstPage(fetch) ==> action is FetchFirstPage
            && action->FetchFirstPage_0@ == fetch,
        action@ matches UserActionView::FetchPages { last, at_once } ==> action is FetchPages
            && action->last == last && action->at_once == at_once,
        action@ matches UserActionView::Done(films) ==> action is Done
            && action->Done_0@.map_values(|film: Film| film@) == films,
        action@ matches UserActionView::Failed(e) ==> action is Failed && action->Failed_0@ == e,
{
}

} // verus!
