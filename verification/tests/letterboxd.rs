use letterboxd_diff::client::{LetterboxdClient, PageAction, PageEvent, UserAction, UserEvent};
use letterboxd_diff::config::{ClientConfig, RequestQuota, Timeout};
use letterboxd_diff::decimal::ParseIntError;
use letterboxd_diff::error::{ClientError, LetterboxdError, Stage};
use letterboxd_diff::film::Film;
use letterboxd_diff::rating::Rating;
use letterboxd_diff::scrape::{FilmData, GridItem};
use letterboxd_diff::sender::HttpSettings;

#[test]
fn test_rating_parse() {
    assert_eq!(LetterboxdClient::parse_rating("★").unwrap(), Rating(2));
    assert_eq!(LetterboxdClient::parse_rating("★★★★½").unwrap(), Rating(9));
    assert!(LetterboxdClient::parse_rating("invalid").is_err());
}

#[test]
fn test_rating_display() {
    assert_eq!(Rating(2).to_string(), "★");
    assert_eq!(Rating(9).to_string(), "★★★★½");
    assert_eq!(Rating(11).to_string(), "no rating");
}

#[test]
fn test_username_validation() {
    assert!(LetterboxdClient::validate_username("valid-user").is_ok());
    assert!(LetterboxdClient::validate_username("").is_err());
    assert!(LetterboxdClient::validate_username("invalid/user").is_err());
}

#[test]
fn ratings_are_read_back_from_their_stars() {
    for n in 1..=10u8 {
        let rating = Rating(n);
        assert_eq!(LetterboxdClient::parse_rating(&rating.to_string()).unwrap(), rating);
        let padded = format!(" \u{3000}{}\n\u{85}", rating.to_string());
        assert_eq!(LetterboxdClient::parse_rating(&padded).unwrap(), rating);
    }
    assert_eq!(Rating(0).to_string(), "no rating");
    assert_eq!(Rating(1).to_string(), "½");
    assert_eq!(Rating(10).to_string(), "★★★★★");
    for text in ["", "no rating", "★★★★★★", "½★", "★ ★", "½½", "★★★★★½"] {
        match LetterboxdClient::parse_rating(text) {
            Err(e) => {
                assert_eq!(e, ClientError::UnknownRating(text.to_string()));
                assert_eq!(e.to_string(), format!("Unknown rating format: '{}'", text));
            }
            Ok(r) => panic!("{} was read as {:?}", text, r),
        }
    }
    assert_eq!(
        LetterboxdClient::parse_rating(" x ").unwrap_err(),
        ClientError::UnknownRating(" x ".to_string())
    );
}

#[test]
fn ratings_come_from_numbers_up_to_ten() {
    assert_eq!(Rating::try_from(0), Ok(Rating(0)));
    assert_eq!(Rating::try_from(10), Ok(Rating(10)));
    let e = Rating::try_from(11).unwrap_err();
    assert_eq!(e, ClientError::InvalidRating(11));
    assert_eq!(e.to_string(), "Invalid rating value: 11");
}

#[test]
fn ratings_as_numbers() {
    for n in 0..=255u8 {
        assert_eq!(Rating(n).to_number(), format!("{}", (n as f64) / 2.0));
    }
    assert_eq!(Rating(9).to_number(), "4.5");
    assert_eq!(Rating(8).to_number(), "4");
}

#[test]
fn names_of_members() {
    let empty = LetterboxdError::InvalidUsername("Username cannot be empty".to_string());
    let invalid = LetterboxdError::InvalidUsername("Username contains invalid characters".to_string());
    for name in ["a", "A-b_9", "été", "ユーザー", "٣", "-", "_"] {
        assert_eq!(LetterboxdClient::validate_username(name), Ok(()));
    }
    for name in ["", " ", "\t\n\u{a0}\u{2003}"] {
        assert_eq!(LetterboxdClient::validate_username(name).unwrap_err(), empty);
    }
    for name in [" bob", "bob ", "a.b", "a/b", "a?b", "x\u{0}", "😀", "a b"] {
        assert_eq!(LetterboxdClient::validate_username(name).unwrap_err(), invalid);
    }
    assert_eq!(empty.to_string(), "invalid username: Username cannot be empty");
}

#[test]
fn names_put_together() {
    let accepted = |name: &str| LetterboxdClient::validate_username(name).is_ok();
    let names = ["a", "-", "été", " ", "\u{3000}", "a b", "x/", "٣_", "\u{85}", "½"];
    for a in names {
        for b in names {
            let both = format!("{}{}", a, b);
            assert_eq!(accepted(&both), accepted(a) && accepted(b), "{:?}", both);
        }
    }
    let blank = [
        '\t', '\n', '\u{b}', '\u{c}', '\r', ' ', '\u{85}', '\u{a0}', '\u{1680}', '\u{2000}',
        '\u{200a}', '\u{2028}', '\u{2029}', '\u{202f}', '\u{205f}', '\u{3000}',
    ];
    for c in blank {
        assert!(!accepted(&format!("a{}a", c)), "{:?}", c);
    }
}

#[test]
fn requests_are_sent_as_configured() {
    let config = ClientConfig {
        user_agent: "film counter".to_string(),
        timeout: Timeout { secs: 7, nanos: 500_000_000 },
        ..ClientConfig::default()
    };
    let settings = HttpSettings::of(&config);
    assert_eq!(settings.user_agent, "film counter");
    assert_eq!(settings.timeout, Timeout { secs: 7, nanos: 500_000_000 });
    assert!(settings.gzip);
    let client = LetterboxdClient::new_with_config(config).unwrap();
    let sent = format!("{:?}", client.client());
    assert!(sent.contains("film counter"), "{}", sent);
    assert!(sent.contains("7.5s"), "{}", sent);
    let sent = format!("{:?}", LetterboxdClient::new().unwrap().client());
    assert!(sent.contains("Chrome/91.0.4472.124") && sent.contains("30s"), "{}", sent);
    assert!(sent.contains("gzip"), "{}", sent);
}

#[test]
fn default_configuration() {
    let config = ClientConfig::default();
    assert_eq!(
        config.user_agent,
        "Mozilla/5.0 (Macintosh; Intel Mac OS X 10_15_7) AppleWebKit/537.36 (KHTML, like Gecko) Chrome/91.0.4472.124 Safari/537.36"
    );
    assert_eq!(config.timeout, Timeout { secs: 30, nanos: 0 });
    assert_eq!(config.max_retries, 3);
    assert_eq!(config.concurrent_requests, 5);
    assert_eq!(config.requests_per_minute, 60);
    let client = LetterboxdClient::new().unwrap();
    assert_eq!(client.config().requests_per_minute, 60);
    assert_eq!(client.quota(), RequestQuota { burst: 60, interval_nanos: 1_000_000_000 });
}

#[test]
fn quotas_are_spread_over_a_minute() {
    for (requests, interval) in [(1u32, 60_000_000_000u64), (7, 8_571_428_571), (u32::MAX, 13)] {
        let config = ClientConfig { requests_per_minute: requests, ..ClientConfig::default() };
        let client = LetterboxdClient::new_with_config(config).unwrap();
        assert_eq!(client.quota(), RequestQuota { burst: requests, interval_nanos: interval });
    }
}

fn item(id: Option<&str>, slug: Option<&str>, alt: Option<&str>, rating: Option<&str>) -> GridItem {
    GridItem {
        data: Some(FilmData {
            film_id: id.map(|s| s.to_string()),
            item_slug: slug.map(|s| s.to_string()),
        }),
        poster: Some(alt.map(|s| s.to_string())),
        rating: rating.map(|s| s.to_string()),
    }
}

fn missing(name: &str) -> ClientError {
    ClientError::Letterboxd(LetterboxdError::HtmlMissingAttr(name.to_string()))
}

#[test]
fn film_of_an_item() {
    let client = LetterboxdClient::new().unwrap();
    let film = client
        .film_from_elem_ref(&item(Some("51896"), Some("alien"), Some("Alien"), Some(" ★★★★½ ")))
        .unwrap();
    assert_eq!(film.id, 51896);
    assert_eq!(film.name, "Alien");
    assert_eq!(film.url, "https://letterboxd.com/film/alien");
    assert_eq!(film.poster, "/poster/alien");
    assert_eq!(film.rating, Some(Rating(9)));
    let unrated = client
        .film_from_elem_ref(&item(Some("+7"), Some("x"), Some(""), None))
        .unwrap();
    assert_eq!((unrated.id, unrated.name.as_str(), unrated.rating), (7, "", None));
}

#[test]
fn what_an_item_lacks() {
    let client = LetterboxdClient::new().unwrap();
    let fail = |item: &GridItem| client.film_from_elem_ref(item).unwrap_err();
    let all = || item(Some("1"), Some("s"), Some("a"), Some("x"));
    assert_eq!(fail(&GridItem { data: None, poster: None, ..all() }), missing("data-film-id"));
    assert_eq!(fail(&GridItem { poster: None, ..all() }), missing("poster"));
    let rating = fail(&item(None, None, None, Some("x")));
    assert_eq!(rating.to_string(), "Failed to parse rating");
    assert_eq!(
        rating,
        ClientError::While(
            Stage::Rating,
            Box::new(ClientError::UnknownRating("x".to_string()))
        )
    );
    assert_eq!(fail(&item(None, None, None, None)), missing("data-item-slug"));
    assert_eq!(fail(&item(None, Some("s"), None, None)), missing("data-film-id"));
    let id = fail(&item(Some("12a"), Some("s"), None, None));
    assert_eq!(id.to_string(), "Failed to parse film ID");
    assert_eq!(
        id,
        ClientError::While(
            Stage::FilmId,
            Box::new(ClientError::InvalidNumber(ParseIntError::InvalidDigit))
        )
    );
    assert_eq!(fail(&item(Some("1"), Some("s"), None, None)), missing("alt"));
    assert_eq!(missing("alt").to_string(), "missing HTML attribute: alt");
}

const PAGE: &str = r#"<!DOCTYPE html><html><body><ul>
<li class="griditem">
  <div class="react-component" data-film-id="51896" data-item-slug="alien">
    <div class="poster film-poster"><img src="/a.jpg" alt="Alien &amp; Co"></div>
  </div>
  <p><span class="rating rated-9"> ★★★★½ </span></p>
</li>
<li class="griditem other">
  <div data-film-id="7" data-item-slug="seven"></div>
  <div data-film-id="8" data-item-slug="eight"></div>
  <div class="film-poster big poster"><b><img alt="Seven"></b><img alt="No"></div>
</li>
<li class="grid"><div data-film-id="9"></div></li>
<li class="griditem">
  <div data-film-id="3" data-item-slug="three"><div class="poster film-poster"><img alt="3"></div></div>
  <span class="rating"></span><span class="rating">★</span>
</li>
</ul>
<div class="pagination"><ul>
  <li class="paginate-page"><a href="/1">1</a></li>
  <li class="paginate-page"><span><a>99</a></span></li>
  <li class="paginate-page"><a href="/12">12</a></li>
</ul></div>
<div class="pagination"><li class="paginate-page"><a>77</a></li></div>
</body></html>"#;

fn page_end(action: PageAction) -> Result<Vec<Film>, ClientError> {
    match action {
        PageAction::Done(films) => Ok(films),
        PageAction::Failed(e) => Err(e),
        PageAction::FetchPage(fetch) => panic!("{:?}", fetch),
    }
}

fn read(client: &LetterboxdClient, body: &str) -> Result<Vec<Film>, ClientError> {
    page_end(client.get_movies_from_page("bob", 1, PageEvent::Body(Ok(body.to_string()))))
}

#[test]
fn page_is_fetched_before_it_is_read() {
    let client = LetterboxdClient::new().unwrap();
    match client.get_movies_from_page("bob", 7, PageEvent::Start) {
        PageAction::FetchPage(fetch) => {
            assert_eq!(fetch.url, "https://letterboxd.com/bob/films/page/7");
            assert_eq!(fetch.username, "bob");
            assert_eq!((fetch.attempt, fetch.max_retries, fetch.last_error), (0, 3, None));
        }
        other => panic!("{:?}", other),
    }
    let e = page_end(client.get_movies_from_page(" ", 7, PageEvent::Start)).unwrap_err();
    assert_eq!(e.to_string(), "invalid username: Username cannot be empty");
    let cause = || ClientError::Letterboxd(LetterboxdError::RateLimitExceeded);
    let e = page_end(client.get_movies_from_page("bob", 7, PageEvent::NoPage(cause())));
    assert_eq!(e.unwrap_err(), cause());
}

#[test]
fn client_needs_a_user_agent_for_its_headers() {
    for agent in ["a\nb", "\u{7f}", "\u{0}"] {
        let config = ClientConfig {
            user_agent: agent.to_string(),
            requests_per_minute: 0,
            ..ClientConfig::default()
        };
        let e = LetterboxdClient::new_with_config(config).unwrap_err();
        assert_eq!(e.to_string(), "Failed to build reqwest client");
    }
    let config = ClientConfig { user_agent: "é\tx".to_string(), ..ClientConfig::default() };
    assert_eq!(LetterboxdClient::new_with_config(config).unwrap().config().user_agent, "é\tx");
    let e = LetterboxdClient::from_built(ClientConfig::default(), Err("no TLS".to_string()));
    assert_eq!(
        e.unwrap_err(),
        ClientError::While(
            Stage::HttpClient,
            Box::new(ClientError::Outside("no TLS".to_string()))
        )
    );
}

#[test]
fn films_of_a_page() {
    let client = LetterboxdClient::new().unwrap();
    let films = read(&client, PAGE).unwrap();
    let seen: Vec<(u64, &str, &str, &str, Option<Rating>)> = films
        .iter()
        .map(|f| (f.id, f.name.as_str(), f.url.as_str(), f.poster.as_str(), f.rating))
        .collect();
    assert_eq!(
        seen,
        vec![
            (
                51896,
                "Alien & Co",
                "https://letterboxd.com/film/alien",
                "/poster/alien",
                Some(Rating(9))
            ),
            (7, "Seven", "https://letterboxd.com/film/seven", "/poster/seven", None),
            (3, "3", "https://letterboxd.com/film/three", "/poster/three", None),
        ]
    );
    assert!(read(&client, "no page").unwrap().is_empty());
}

#[test]
fn page_that_lacks_something() {
    let client = LetterboxdClient::new().unwrap();
    let page = PAGE.replace("alt=\"Seven\"", "").replace("data-film-id=\"3\"", "");
    let e = read(&client, &page).unwrap_err();
    assert_eq!(e, ClientError::While(Stage::PageFilms, Box::new(missing("alt"))));
    assert_eq!(e.to_string(), "Failed to parse films from page");
    let body = PageEvent::Body(Err("broken pipe".to_string()));
    let e = page_end(client.get_movies_from_page("bob", 1, body)).unwrap_err();
    assert_eq!(e.to_string(), "Failed to get response text");
    assert_eq!(
        e,
        ClientError::While(
            Stage::ResponseText,
            Box::new(ClientError::Outside("broken pipe".to_string()))
        )
    );
}

#[test]
fn number_of_pages() {
    let client = LetterboxdClient::new().unwrap();
    assert_eq!(client.get_pages(PAGE), Ok(12));
    assert_eq!(client.get_pages("<p>nothing</p>"), Ok(1));
    let none = client.get_pages("<div class=pagination><li><a>4</a></li></div>").unwrap_err();
    assert_eq!(none, ClientError::Letterboxd(LetterboxdError::PaginationElementNotFound));
    assert_eq!(none.to_string(), "pagination element not found");
    let bad = client
        .get_pages("<div class=pagination><li class=paginate-page><a>last</a></li></div>")
        .unwrap_err();
    assert_eq!(bad.to_string(), "Failed to parse page number");
    let huge = client
        .get_pages("<div class=pagination><li class=paginate-page><a>99999999999999999999</a></li></div>")
        .unwrap_err();
    assert_eq!(
        huge,
        ClientError::While(
            Stage::PageNumber,
            Box::new(ClientError::InvalidNumber(ParseIntError::PosOverflow))
        )
    );
}

fn plain_film(id: u64) -> Film {
    Film {
        id,
        name: String::new(),
        url: String::new(),
        poster: String::new(),
        rating: None,
    }
}

#[test]
fn films_of_a_member() {
    let client = LetterboxdClient::new().unwrap();
    match client.get_movies_of_user("bob", UserEvent::Start) {
        UserAction::FetchFirstPage(fetch) => {
            assert_eq!(fetch.url, "https://letterboxd.com/bob/films/page/1");
        }
        other => panic!("{:?}", other),
    }
    assert!(matches!(
        client.get_movies_of_user("bob", UserEvent::FirstBody(Ok(PAGE.to_string()))),
        UserAction::FetchPages { last: 12, at_once: 5 }
    ));
    let pages = vec![vec![plain_film(3), plain_film(1)], vec![], vec![plain_film(2)]];
    match client.get_movies_of_user("bob", UserEvent::Pages(Ok(pages))) {
        UserAction::Done(films) => {
            let ids: Vec<u64> = films.iter().map(|f| f.id).collect();
            assert_eq!(ids, vec![3, 1, 2]);
        }
        other => panic!("{:?}", other),
    }
}

#[test]
fn order_of_pages_keeps_the_films() {
    let client = LetterboxdClient::new().unwrap();
    let gather = |pages: Vec<Vec<Film>>| {
        match client.get_movies_of_user("bob", UserEvent::Pages(Ok(pages))) {
            UserAction::Done(films) => {
                let mut ids: Vec<u64> = films.iter().map(|f| f.id).collect();
                ids.sort();
                ids
            }
            other => panic!("{:?}", other),
        }
    };
    let page1 = || vec![plain_film(5), plain_film(1), plain_film(5)];
    let page2 = || vec![plain_film(2)];
    assert_eq!(gather(vec![page1(), page2()]), vec![1, 2, 5, 5]);
    assert_eq!(gather(vec![page2(), page1()]), vec![1, 2, 5, 5]);
    assert!(gather(vec![]).is_empty());
}

#[test]
fn what_a_reader_is_told() {
    let client = LetterboxdClient::new().unwrap();
    let told = |name: &str, event: UserEvent| match client.get_movies_of_user(name, event) {
        UserAction::Failed(e) => e.to_string(),
        other => panic!("{:?}", other),
    };
    let cause = || ClientError::Letterboxd(LetterboxdError::UserNotFound("bob".to_string()));
    assert_eq!(told(" ", UserEvent::Start), "invalid username: Username cannot be empty");
    assert_eq!(
        told("a/b", UserEvent::Start),
        "invalid username: Username contains invalid characters"
    );
    assert_eq!(told("bob", UserEvent::NoFirstPage(cause())), "Failed to fetch first page");
    assert_eq!(
        told("bob", UserEvent::FirstBody(Err("reset".to_string()))),
        "Failed to get response text"
    );
    assert_eq!(
        told("bob", UserEvent::FirstBody(Ok("<div class=pagination></div>".to_string()))),
        "Failed to get page count"
    );
    assert_eq!(told("bob", UserEvent::Pages(Err(cause()))), "Failed to collect films");
    assert_eq!(cause().to_string(), "user not found: bob");
}

#[test]
fn messages_of_the_other_failures() {
    let parse = LetterboxdError::from(ParseIntError::Empty);
    assert_eq!(parse.to_string(), "parsing failed: cannot parse integer from empty string");
    let network = LetterboxdError::NetworkError("timed out".to_string());
    assert_eq!(network.to_string(), "network error: timed out");
    assert_eq!(
        ClientError::InvalidNumber(ParseIntError::PosOverflow).to_string(),
        "number too large to fit in target type"
    );
    assert_eq!(
        ClientError::RetriesExhausted(0).to_string(),
        "Failed to fetch page after 0 retries"
    );
}
