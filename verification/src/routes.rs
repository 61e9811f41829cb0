//! What the server answers.
use crate::cache::{CacheCommand, CacheCommandView, RedisCache};
use crate::decimal::parse_uint;
use crate::scrape::BASE_URL;
use crate::text::{join, trim};
use vstd::prelude::*;

verus! {

/// The port of the server, unless it is said otherwise.
pub const DEFAULT_PORT: u16 = 3030;

/// What is served when a page cannot be rendered.
pub const RENDER_FAILURE: &'static str = "Internal server error";

/// The key by which the health of the cache is tried.
pub const HEALTH_KEY: &'static str = "__health_check__";

/// The kind of an image that does not say its own.
pub const DEFAULT_CONTENT_TYPE: &'static str = "image/jpeg";

/// The field with the address of a poster.
pub const POSTER_FIELD: &'static str = "url2x";

/// What happens while a request to compare two members is answered.
#[derive(Debug)]
pub enum CompareEvent {
    /// Two members are to be compared, as they are named in the request.
    Request(String, String),
    /// The page with the comparison, or the message of what went wrong.
    Compared(Result<String, String>),
    /// The page that tells what went wrong, or why it could not be rendered.
    Rendered(Result<String, String>),
}

/// What is to be done next.
#[derive(Debug, PartialEq, Eq)]
pub enum CompareAction {
    /// Compare the two members.
    Compare(String, String),
    /// Render the page that tells what went wrong.
    RenderError(String),
    /// Answer with a page.
    Reply(String),
}

/// A [`CompareEvent`] as a mathematical value.
pub enum CompareEventView {
    Request(Seq<char>, Seq<char>),
    Compared(Result<Seq<char>, Seq<char>>),
    Rendered(Result<Seq<char>, Seq<char>>),
}

/// A [`CompareAction`] as a mathematical value.
pub enum CompareActionView {
    Compare(Seq<char>, Seq<char>),
    RenderError(Seq<char>),
    Reply(Seq<char>),
}

impl View for CompareEvent {
    type V = CompareEventView;

    open spec fn view(&self) -> CompareEventView {
        match *self {
            CompareEvent::Request(user1, user2) => CompareEventView::Request(user1@, user2@),
            CompareEvent::Compared(result) => CompareEventView::Compared(
                crate::text::result_view(result),
            ),
            CompareEvent::Rendered(result) => CompareEventView::Rendered(
                crate::text::result_view(result),
            ),
        }
    }
}

impl View for CompareAction {
    type V = CompareActionView;

    open spec fn view(&self) -> CompareActionView {
        match *self {
            CompareAction::Compare(user1, user2) => CompareActionView::Compare(user1@, user2@),
            CompareAction::RenderError(text) => CompareActionView::RenderError(text@),
            CompareAction::Reply(html) => CompareActionView::Reply(html@),
        }
    }
}

/// What is done on an event while a comparison is answered.
pub open spec fn compare_step(event: CompareEventView) -> CompareActionView {
    match event {
        CompareEventView::Request(user1, user2) => CompareActionView::Compare(
            crate::text::trimmed(user1),
            crate::text::trimmed(user2),
        ),
        CompareEventView::Compared(Ok(html)) => CompareActionView::Reply(html),
        CompareEventView::Compared(Err(text)) => CompareActionView::RenderError(text),
        CompareEventView::Rendered(Ok(html)) => CompareActionView::Reply(html),
        CompareEventView::Rendered(Err(_)) => CompareActionView::Reply(RENDER_FAILURE@),
    }
}

/// Decides what is done on an event while a comparison is answered.
pub fn handle_comparison(event: CompareEvent) -> (action: CompareAction)
    ensures
        action@ == compare_step(event@),
{
    match event {
        CompareEvent::Request(user1, user2) => CompareAction::Compare(
            trim(user1.as_str()).to_owned(),
            trim(user2.as_str()).to_owned(),
        ),
        CompareEvent::Compared(Ok(html)) => CompareAction::Reply(html),
        CompareEvent::Compared(Err(text)) => CompareAction::RenderError(text),
        CompareEvent::Rendered(Ok(html)) => CompareAction::Reply(html),
        CompareEvent::Rendered(Err(_)) => CompareAction::Reply(RENDER_FAILURE.to_owned()),
    }
}

/// What is served of a page that was rendered, or could not be.
pub fn rendered_or_failure(rendered: Result<String, String>) -> (res: String)
    ensures
        res@ == (match rendered {
            Ok(html) => html@,
            Err(_) => RENDER_FAILURE@,
        }),
        compare_step(CompareEventView::Rendered(crate::text::result_view(rendered)))
            == CompareActionView::Reply(res@),
{
    match rendered {
        Ok(html) => html,
        Err(_) => RENDER_FAILURE.to_owned(),
    }
}

/// The message that a page cannot be rendered: which one, and why.
pub open spec fn template_message(page: Seq<char>, error: Seq<char>) -> Seq<char> {
    page + " template error: "@ + error
}

/// The message that the page with the films of one member cannot be rendered.
pub fn diff_template_error(error: &str) -> (res: String)
    ensures
        res@ == "Diff template error: "@ + error@,
        res@ == template_message("Diff"@, error@),
{
    proof {
        reveal_strlit("Diff");
        reveal_strlit(" template error: ");
        reveal_strlit("Diff template error: ");
        assert("Diff"@ + " template error: "@ =~= "Diff template error: "@);
    }
    join("Diff template error: ", error)
}

/// The message that the page with the films of both members cannot be rendered.
pub fn and_template_error(error: &str) -> (res: String)
    ensures
        res@ == "And template error: "@ + error@,
        res@ == template_message("And"@, error@),
{
    proof {
        reveal_strlit("And");
        reveal_strlit(" template error: ");
        reveal_strlit("And template error: ");
        assert("And"@ + " template error: "@ =~= "And template error: "@);
    }
    join("And template error: ", error)
}

/// What is told of the health of the server.
#[derive(Debug, PartialEq, Eq)]
pub struct Health {
    /// Whether the server is healthy.
    pub status: String,
    /// What is wrong with it.
    pub error: Option<String>,
}

/// What happens while a request for the health of the server is answered.
#[derive(Debug)]
pub enum HealthEvent {
    /// The health is asked for.
    Request,
    /// What the database gave for the key, or why it gave no answer.
    Asked(Result<Option<String>, String>),
}

/// What is to be done next.
#[derive(Debug, PartialEq, Eq)]
pub enum HealthAction {
    /// Give the database a command.
    Command(CacheCommand),
    /// Answer with the health.
    Reply(Health),
}

/// A [`Health`] as a mathematical value.
pub struct HealthView {
    pub status: Seq<char>,
    pub error: Option<Seq<char>>,
}

/// A [`HealthAction`] as a mathematical value.
pub enum HealthActionView {
    Command(CacheCommandView),
    Reply(HealthView),
}

impl View for Health {
    type V = HealthView;

    open spec fn view(&self) -> HealthView {
        HealthView { status: self.status@, error: crate::text::text_view(self.error) }
    }
}

impl View for HealthAction {
    type V = HealthActionView;

    open spec fn view(&self) -> HealthActionView {
        match *self {
            HealthAction::Command(command) => HealthActionView::Command(command@),
            HealthAction::Reply(health) => HealthActionView::Reply(health@),
        }
    }
}

/// What is done on an event while a request for the health of the server is answered: the cache is
/// asked for a key, and the server is healthy when there is any answer.
pub open spec fn health_step(cache: RedisCache, event: HealthEvent) -> HealthActionView {
    match event {
        HealthEvent::Request => HealthActionView::Command(
            CacheCommandView::Get { key: cache.key(HEALTH_KEY@) },
        ),
        HealthEvent::Asked(Ok(_)) => HealthActionView::Reply(
            HealthView { status: "healthy"@, error: None },
        ),
        HealthEvent::Asked(Err(error)) => HealthActionView::Reply(
            HealthView { status: "unhealthy"@, error: Some(error@) },
        ),
    }
}

/// Decides what is done on an event while a request for the health of the server is answered.
pub fn handle_health(cache: &RedisCache, event: HealthEvent) -> (action: HealthAction)
    ensures
        action@ == health_step(*cache, event),
{
    match event {
        HealthEvent::Request => HealthAction::Command(cache.get(HEALTH_KEY)),
        HealthEvent::Asked(Ok(_)) => HealthAction::Reply(
            Health { status: "healthy".to_owned(), error: None },
        ),
        HealthEvent::Asked(Err(error)) => HealthAction::Reply(
            Health { status: "unhealthy".to_owned(), error: Some(error) },
        ),
    }
}

/// The text in a field of a JSON object: the field of the value that `serde_json` reads from the
/// bytes, where they are JSON, the value has the field, and the field is a text.
pub uninterp spec fn json_text(body: Seq<u8>, field: Seq<char>) -> Option<Seq<char>>;

/// `serde_json::from_slice`, the index of a `serde_json::Value` and `serde_json::Value::as_str`:
/// what they find is a function of the bytes and the name of the field.
#[verifier::external_body]
fn json_text_of(body: &Vec<u8>, field: &str) -> (res: Option<String>)
    ensures
        crate::text::text_view(res) == json_text(body@, field@),
{
    let value: serde_json::Value = serde_json::from_slice(body).ok()?;
    value[field].as_str().map(str::to_owned)
}

/// What happens while a poster is fetched. A request that fails has no answer.
#[derive(Debug)]
pub enum PosterEvent {
    /// The poster of a film is asked for, by the name of the film in addresses.
    Request(String),
    /// The site has answered where the poster is.
    Location(Option<Vec<u8>>),
    /// The poster has come: the kind of image that the answer says it is, and the bytes.
    Image(Option<(Option<String>, Vec<u8>)>),
}

/// What is to be done next.
#[derive(Debug, PartialEq, Eq)]
pub enum PosterAction {
    /// Ask the site, at an address, where the poster is.
    Locate(String),
    /// Get the poster from its address.
    Fetch(String),
    /// Answer with an image of a kind.
    Reply(String, Vec<u8>),
    /// Answer that there is no such poster.
    NotFound,
}

/// A [`PosterAction`] as a mathematical value.
pub enum PosterActionView {
    Locate(Seq<char>),
    Fetch(Seq<char>),
    Reply(Seq<char>, Seq<u8>),
    NotFound,
}

impl View for PosterAction {
    type V = PosterActionView;

    open spec fn view(&self) -> PosterActionView {
        match *self {
            PosterAction::Locate(url) => PosterActionView::Locate(url@),
            PosterAction::Fetch(url) => PosterActionView::Fetch(url@),
            PosterAction::Reply(kind, bytes) => PosterActionView::Reply(kind@, bytes@),
            PosterAction::NotFound => PosterActionView::NotFound,
        }
    }
}

/// Where the site says where the poster of a film is.
pub open spec fn poster_url(slug: Seq<char>) -> Seq<char> {
    BASE_URL@ + "/film/"@ + slug + "/poster/std/230/"@
}

/// What is done when the site has said where a poster is, or has not.
pub open spec fn poster_location(location: Option<Seq<char>>) -> PosterActionView {
    match location {
        Some(url) => PosterActionView::Fetch(url),
        None => PosterActionView::NotFound,
    }
}

/// What is done on an event while a poster is fetched.
pub open spec fn poster_step(event: PosterEvent) -> PosterActionView {
    match event {
        PosterEvent::Request(slug) => PosterActionView::Locate(poster_url(slug@)),
        PosterEvent::Location(None) => PosterActionView::NotFound,
        PosterEvent::Location(Some(body)) => poster_location(json_text(body@, POSTER_FIELD@)),
        PosterEvent::Image(None) => PosterActionView::NotFound,
        PosterEvent::Image(Some((Some(kind), bytes))) => PosterActionView::Reply(kind@, bytes@),
        PosterEvent::Image(Some((None, bytes))) => PosterActionView::Reply(
            DEFAULT_CONTENT_TYPE@,
            bytes@,
        ),
    }
}

/// Decides what is done when the site has said where a poster is, or has not.
pub fn follow_location(location: Option<String>) -> (action: PosterAction)
    ensures
        action@ == poster_location(crate::text::text_view(location)),
{
    match location {
        Some(url) => PosterAction::Fetch(url),
        None => PosterAction::NotFound,
    }
}

/// Decides what is done on an event while a poster is fetched.
pub fn handle_poster(event: PosterEvent) -> (action: PosterAction)
    ensures
        action@ == poster_step(event),
{
    match event {
        PosterEvent::Request(slug) => {
            let mut url = join(BASE_URL, "/film/");
            url.append(slug.as_str());
            url.append("/poster/std/230/");
            PosterAction::Locate(url)
        },
        PosterEvent::Location(None) => PosterAction::NotFound,
        PosterEvent::Location(Some(body)) => follow_location(json_text_of(&body, POSTER_FIELD)),
        PosterEvent::Image(None) => PosterAction::NotFound,
        PosterEvent::Image(Some((Some(kind), bytes))) => PosterAction::Reply(kind, bytes),
        PosterEvent::Image(Some((None, bytes))) => PosterAction::Reply(
            DEFAULT_CONTENT_TYPE.to_owned(),
            bytes,
        ),
    }
}

/// The port of the server: the one that a setting names, where it is one.
pub open spec fn port_setting(setting: Option<Seq<char>>) -> int {
    match setting {
        Some(text) => match crate::decimal::parsed(text, u16::MAX as int) {
            Ok(n) => n,
            Err(_) => DEFAULT_PORT as int,
        },
        None => DEFAULT_PORT as int,
    }
}

/// The port of the server, by its setting.
pub fn port(setting: Option<String>) -> (res: u16)
    ensures
        res == port_setting(crate::text::text_view(setting)),
{
    match setting {
        Some(text) => match parse_uint(text.as_str(), u16::MAX as u64) {
            Ok(n) => n as u16,
            Err(_) => DEFAULT_PORT,
        },
        None => DEFAULT_PORT,
    }
}

/// The path under which the poster of a film is served ends with the name by which it is found:
/// by that name the site is asked for the poster under the page of the film.
pub proof fn law_poster_is_found_from_the_film(item: crate::scrape::GridItemView)
    ensures
        crate::scrape::film_of(item) matches Ok(film) ==> exists|slug: Seq<char>|
            film.poster == "/poster/"@ + slug && #[trigger] poster_url(slug) == film.url
                + "/poster/std/230/"@,
{
    if crate::scrape::film_of(item) is Ok {
        let film = crate::scrape::film_of(item)->Ok_0;
        let slug = item.data->0.item_slug->0;
        assert(film.poster == "/poster/"@ + slug && poster_url(slug) == film.url
            + "/poster/std/230/"@);
    }
}

/// White space around the names of the members does not change what is compared.
pub proof fn law_padding_does_not_matter(
    before1: Seq<char>,
    user1: Seq<char>,
    after1: Seq<char>,
    before2: Seq<char>,
    user2: Seq<char>,
    after2: Seq<char>,
)
    requires
        crate::text::all_white_space(before1),
        crate::text::all_white_space(after1),
        crate::text::all_white_space(before2),
        crate::text::all_white_space(after2),
    ensures
        compare_step(
            CompareEventView::Request(before1 + user1 + after1, before2 + user2 + after2),
        ) == compare_step(CompareEventView::Request(user1, user2)),
{
    crate::text::law_trim_ignores_padding(before1, user1, after1);
    crate::text::law_trim_ignores_padding(before2, user2, after2);
}

/// Two members are compared in the order in which the request names them, by the names without the
/// white space around them.
pub proof fn law_members_are_compared_as_they_are_named(
    before1: Seq<char>,
    user1: Seq<char>,
    after1: Seq<char>,
    before2: Seq<char>,
    user2: Seq<char>,
    after2: Seq<char>,
)
    requires
        crate::text::all_white_space(before1),
        crate::text::all_white_space(after1),
        crate::text::all_white_space(before2),
        crate::text::all_white_space(after2),
        user1.len() > 0 ==> !crate::text::is_white_space(user1[0])
            && !crate::text::is_white_space(user1.last()),
        user2.len() > 0 ==> !crate::text::is_white_space(user2[0])
            && !crate::text::is_white_space(user2.last()),
    ensures
        compare_step(CompareEventView::Request(user1, user2)) == CompareActionView::Compare(
            user1,
            user2,
        ),
        compare_step(
            CompareEventView::Request(before1 + user1 + after1, before2 + user2 + after2),
        ) == CompareActionView::Compare(user1, user2),
{
    let none = Seq::<char>::empty();
    assert(none + user1 + none =~= user1);
    assert(none + user2 + none =~= user2);
    crate::text::law_trim_finds_the_text(none, user1, none);
    crate::text::law_trim_finds_the_text(none, user2, none);
    crate::text::law_trim_finds_the_text(before1, user1, after1);
    crate::text::law_trim_finds_the_text(before2, user2, after2);
}

/// Each request leads to a comparison, and nothing else does. A failure is told with its own
/// message, and nothing else leads to a page that tells of one.
pub proof fn law_what_leads_to_what(event: CompareEventView, message: Seq<char>)
    ensures
        compare_step(event) is Compare <==> event is Request,
        compare_step(event) == CompareActionView::RenderError(message) <==> event
            == CompareEventView::Compared(Err(message)),
{
}

/// A page that was made is served as it is, and a page is served for whatever came of a comparison
/// or of the page on its failure; where even that page could not be made, the reader is told of an
/// internal error.
pub proof fn law_pages_are_served_as_they_are(page: Seq<char>, event: CompareEventView)
    ensures
        compare_step(CompareEventView::Compared(Ok(page))) == CompareActionView::Reply(page),
        compare_step(CompareEventView::Rendered(Ok(page))) == CompareActionView::Reply(page),
        event is Rendered ==> compare_step(event) is Reply,
        event matches CompareEventView::Rendered(Err(_)) ==> compare_step(event)
            == CompareActionView::Reply("Internal server error"@),
{
}

/// The server is healthy exactly when the cache gave an answer, whatever the answer was; where it
/// gave none, the reason is told.
pub proof fn law_health_is_that_of_the_cache(cache: RedisCache, event: HealthEvent)
    ensures
        health_step(cache, event) is Command <==> event is Request,
        event is Request ==> health_step(cache, event)->Command_0 == (CacheCommandView::Get {
            key: cache.key("__health_check__"@),
        }),
        event matches HealthEvent::Asked(asked) ==> {
            let health = health_step(cache, event)->Reply_0;
            &&& asked is Ok <==> health.error is None
            &&& asked is Ok ==> health.status == "healthy"@
            &&& asked is Err ==> health.status == "unhealthy"@ && health.error == Some(
                asked->Err_0@,
            )
        },
{
}

/// An image that has come is the answer, whatever its bytes are, with the kind that came with it,
/// and as JPEG where none did.
pub proof fn law_image_that_came_is_the_answer(kind: String, bytes: Vec<u8>)
    ensures
        poster_step(PosterEvent::Image(Some((Some(kind), bytes)))) == PosterActionView::Reply(
            kind@,
            bytes@,
        ),
        poster_step(PosterEvent::Image(Some((None, bytes)))) == PosterActionView::Reply(
            "image/jpeg"@,
            bytes@,
        ),
{
}

/// There is no such poster exactly when a request has failed, or when the site has not said where
/// the poster is. An image is the answer only when one has come.
pub proof fn law_when_there_is_no_poster(event: PosterEvent)
    ensures
        poster_step(event) is NotFound <==> (event matches PosterEvent::Location(None)) || (
        event matches PosterEvent::Image(None)) || (event matches PosterEvent::Location(Some(body))
            && json_text(body@, "url2x"@) is None),
        poster_step(event) is Reply <==> (event matches PosterEvent::Image(Some(_))),
        poster_step(event) is Locate <==> event is Request,
{
}

/// The poster is asked for below the page of the film, by the name of the film in addresses; and it
/// is fetched from where the site says that it is.
pub proof fn law_where_the_poster_is_asked_for(slug: String, body: Vec<u8>, url: Seq<char>)
    ensures
        poster_step(PosterEvent::Request(slug)) == PosterActionView::Locate(
            "https://letterboxd.com"@ + "/film/"@ + slug@ + "/poster/std/230/"@,
        ),
        poster_step(PosterEvent::Location(Some(body))) == PosterActionView::Fetch(url) <==> json_text(
            body@,
            "url2x"@,
        ) == Some(url),
        poster_location(Some(url)) == PosterActionView::Fetch(url),
        poster_location(None) == PosterActionView::NotFound,
{
}

/// The port is the one that the setting denotes, where it denotes a number of 16 bits, and 3030
/// where it does not, or where there is no setting.
pub proof fn law_port_is_the_one_that_is_set(text: Seq<char>, n: nat)
    ensures
        crate::decimal::denotes(text, n) && n <= u16::MAX ==> port_setting(Some(text)) == n,
        (forall|m: nat| #[trigger] crate::decimal::denotes(text, m) ==> m > u16::MAX)
            ==> port_setting(Some(text)) == 3030,
        port_setting(None) == 3030,
{
    crate::decimal::law_numbers_are_read(text, u16::MAX as int, n);
    crate::decimal::law_what_is_read_is_denoted(text, u16::MAX as int);
}

/// The view of an event and of an action holds what they hold.
pub proof fn law_route_views(
    event: CompareEvent,
    action: CompareAction,
    health: Health,
    told: HealthAction,
    poster: PosterAction,
)
    ensures
        event matches CompareEvent::Request(user1, user2) ==> event@ == CompareEventView::Request(
            user1@,
            user2@,
        ),
        event matches CompareEvent::Compared(Ok(page)) ==> event@ == CompareEventView::Compared(
            Ok(page@),
        ),
        event matches CompareEvent::Compared(Err(text)) ==> event@ == CompareEventView::Compared(
            Err(text@),
        ),
        event matches CompareEvent::Rendered(Ok(page)) ==> event@ == CompareEventView::Rendered(
            Ok(page@),
        ),
        event matches CompareEvent::Rendered(Err(text)) ==> event@ == CompareEventView::Rendered(
            Err(text@),
        ),
        action@ matches CompareActionView::Compare(user1, user2) ==> action is Compare
            && action->Compare_0@ == user1 && action->Compare_1@ == user2,
        action@ matches CompareActionView::RenderError(text) ==> action is RenderError
            && action->RenderError_0@ == text,
        action@ matches CompareActionView::Reply(page) ==> action is Reply && action->Reply_0@
            == page,
        health@.status == health.status@,
        health@.error is Some <==> health.error is Some,
        health.error matches Some(text) ==> health@.error == Some(text@),
        told@ matches HealthActionView::Command(c) ==> told is Command && told->Command_0@ == c,
        told@ matches HealthActionView::Reply(view) ==> told is Reply && told->Reply_0@ == view,
        poster@ matches PosterActionView::Locate(url) ==> poster is Locate && poster->Locate_0@
            == url,
        poster@ matches PosterActionView::Fetch(url) ==> poster is Fetch && poster->Fetch_0@ == url,
        poster@ matches PosterActionView::Reply(kind, bytes) ==> poster is Reply
            && poster->Reply_0@ == kind && poster->Reply_1@ == bytes,
        poster@ is NotFound ==> poster is NotFound,
{
}

/// The message that a page cannot be rendered starts with the page and ends with the whole reason.
pub proof fn law_template_messages_tell_why(page: Seq<char>, error: Seq<char>)
    ensures
        template_message(page, error).len() >= page.len() + error.len(),
        template_message(page, error).take(page.len() as int) == page,
        template_message(page, error).skip(template_message(page, error).len() - error.len())
            == error,
{
    let message = template_message(page, error);
    assert(message.take(page.len() as int) =~= page);
    assert(message.skip(message.len() - error.len()) =~= error);
}

} // verus!
