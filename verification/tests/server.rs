use letterboxd_diff::cache::{cached_get_movies, CacheAction, CacheCommand, CacheEvent, RedisCache};
use letterboxd_diff::client::LetterboxdClient;
use letterboxd_diff::config::ClientConfig;
use letterboxd_diff::decimal::{parse_uint, to_decimal, ParseIntError};
use letterboxd_diff::error::{ClientError, LetterboxdError};
use letterboxd_diff::fetch::{Fetch, FetchAction, FetchEvent};
use letterboxd_diff::film::Film;
use letterboxd_diff::rating::Rating;
use letterboxd_diff::routes::{
    and_template_error, diff_template_error, handle_comparison, handle_health, handle_poster, port,
    rendered_or_failure, CompareAction, CompareEvent, HealthAction, HealthEvent, PosterAction, PosterEvent,
};
use letterboxd_diff::status::Status;
use std::collections::HashMap;

fn fetch(retries: usize) -> Fetch {
    let config = ClientConfig { max_retries: retries, ..ClientConfig::default() };
    LetterboxdClient::new_with_config(config)
        .unwrap()
        .get_letterboxd_film_by_page("bob", 12)
        .unwrap()
}

fn reply(code: u16) -> FetchEvent {
    FetchEvent::Reply(Status::new(code).unwrap())
}

#[test]
fn address_of_a_page() {
    let fetch = fetch(3);
    assert_eq!(fetch.url, "https://letterboxd.com/bob/films/page/12");
    assert_eq!(fetch.username, "bob");
    assert_eq!((fetch.attempt, fetch.max_retries), (0, 3));
    let e = LetterboxdClient::new().unwrap().get_letterboxd_film_by_page("a b", 1).unwrap_err();
    assert_eq!(
        e,
        ClientError::Letterboxd(LetterboxdError::InvalidUsername(
            "Username contains invalid characters".to_string()
        ))
    );
}

#[test]
fn page_at_the_first_try() {
    let mut fetch = fetch(3);
    assert_eq!(fetch.step(FetchEvent::Start), FetchAction::Wait(100));
    assert_eq!(fetch.step(FetchEvent::Ready), FetchAction::Send);
    assert_eq!(fetch.step(reply(200)), FetchAction::Done);
}

#[test]
fn replies_that_end_the_fetching() {
    let mut one = fetch(3);
    one.step(FetchEvent::Ready);
    assert_eq!(
        one.step(reply(404)),
        FetchAction::Failed(ClientError::Letterboxd(LetterboxdError::UserNotFound(
            "bob".to_string()
        )))
    );
    let mut other = fetch(3);
    other.step(FetchEvent::Ready);
    let limited = ClientError::Letterboxd(LetterboxdError::RateLimitExceeded);
    assert_eq!(limited.to_string(), "rate limit exceeded");
    assert_eq!(other.step(reply(429)), FetchAction::Failed(limited));
}

#[test]
fn failures_are_followed_by_longer_waits() {
    let mut fetch = fetch(3);
    assert_eq!(fetch.step(FetchEvent::Ready), FetchAction::Send);
    assert_eq!(fetch.step(reply(500)), FetchAction::Sleep(500));
    assert_eq!(fetch.step(FetchEvent::Slept), FetchAction::Send);
    assert_eq!(fetch.step(FetchEvent::NoReply("reset".to_string())), FetchAction::Sleep(1000));
    assert_eq!(fetch.step(FetchEvent::Slept), FetchAction::Send);
    assert_eq!(fetch.step(reply(503)), FetchAction::Sleep(1500));
    match fetch.step(FetchEvent::Slept) {
        FetchAction::Failed(e) => {
            assert_eq!(e, ClientError::UnexpectedStatus(Status::new(503).unwrap()));
            assert_eq!(e.to_string(), "Unexpected status code: 503 Service Unavailable");
        }
        other => panic!("{:?}", other),
    }
}

#[test]
fn last_failure_may_be_that_of_the_network() {
    let mut fetch = fetch(1);
    fetch.step(FetchEvent::Ready);
    assert_eq!(fetch.step(FetchEvent::NoReply("reset".to_string())), FetchAction::Sleep(500));
    assert_eq!(
        fetch.step(FetchEvent::Slept),
        FetchAction::Failed(ClientError::Outside("reset".to_string()))
    );
}

#[test]
fn long_waits_are_no_matter_to_a_page_that_comes() {
    let mut fetch = fetch(usize::MAX);
    fetch.attempt = usize::MAX - 1;
    assert_eq!(fetch.step(FetchEvent::Ready), FetchAction::Send);
    assert_eq!(fetch.step(reply(200)), FetchAction::Done);
}

#[test]
fn no_request_may_be_sent() {
    assert_eq!(
        fetch(0).step(FetchEvent::Ready),
        FetchAction::Failed(ClientError::RetriesExhausted(0))
    );
}

#[test]
fn status_codes() {
    assert_eq!(Status::new(99), None);
    assert_eq!(Status::new(1000), None);
    assert_eq!(Status::new(100).unwrap().code(), 100);
    assert_eq!(Status::new(418).unwrap().display(), "418 I'm a teapot");
    assert_eq!(Status::new(599).unwrap().display(), "599 <unknown status code>");
    assert_eq!(Status::new(999).unwrap().display(), "999 <unknown status code>");
}

#[test]
fn numbers_are_read_as_the_standard_library_reads_them() {
    let texts = [
        "", "+", "-", "0", "007", "+12", "-1", "1 ", " 1", "1_0", "٣", "65535", "65536", "99999x",
        "x99999", "18446744073709551615", "18446744073709551616", "000000000000000000000000001",
        "++1", "18446744073709551616x", "1.0", "6554x", "65535x", "65536x", "1844674407370955162x",
    ];
    for text in texts {
        match (parse_uint(text, u64::MAX), text.parse::<u64>()) {
            (Ok(a), Ok(b)) => assert_eq!(a, b),
            (Err(a), Err(b)) => assert_eq!(a.to_str(), b.to_string(), "{}", text),
            (a, b) => panic!("{}: {:?} {:?}", text, a, b),
        }
        match (parse_uint(text, u16::MAX as u64), text.parse::<u16>()) {
            (Ok(a), Ok(b)) => assert_eq!(a, b as u64),
            (Err(a), Err(b)) => assert_eq!(a.to_str(), b.to_string(), "{}", text),
            (a, b) => panic!("{}: {:?} {:?}", text, a, b),
        }
    }
    assert_eq!(parse_uint("", 5), Err(ParseIntError::Empty));
    assert_eq!(parse_uint("5", 5), Ok(5));
    assert_eq!(parse_uint("6", 5), Err(ParseIntError::PosOverflow));
    assert_eq!(parse_uint("6x", 5), Err(ParseIntError::PosOverflow));
    assert_eq!(parse_uint("x6", 5), Err(ParseIntError::InvalidDigit));
}

#[test]
fn numbers_are_read_back() {
    for n in [0, 9, 10, 255, 65535, u64::MAX - 1, u64::MAX] {
        assert_eq!(to_decimal(n), n.to_string());
        assert_eq!(parse_uint(&to_decimal(n), u64::MAX), Ok(n));
    }
}

#[test]
fn settings_of_the_cache() {
    let cache = RedisCache::new(None, None);
    assert_eq!(cache.url, "redis://127.0.0.1:6379");
    assert_eq!(cache.ttl_seconds, 3600);
    assert_eq!(cache.prefixed_key("bob"), "letterboxd_cache:bob");
    let cache = RedisCache::new(Some("redis://db".to_string()), Some("60".to_string()));
    assert_eq!((cache.url.as_str(), cache.ttl_seconds), ("redis://db", 60));
    assert_eq!(RedisCache::new(None, Some("soon".to_string())).ttl_seconds, 3600);
    assert_eq!(RedisCache::new(None, Some("-1".to_string())).ttl_seconds, 3600);
    assert_eq!(RedisCache::new(None, Some("0".to_string())).ttl_seconds, 0);
}

fn film(id: u64, name: &str, rating: Option<u8>) -> Film {
    Film {
        id,
        name: name.to_string(),
        url: format!("https://letterboxd.com/film/{}", name),
        poster: format!("/poster/{}", name),
        rating: rating.map(Rating),
    }
}

fn fields(films: &[Film]) -> Vec<(u64, &str, &str, &str, Option<Rating>)> {
    films
        .iter()
        .map(|f| (f.id, f.name.as_str(), f.url.as_str(), f.poster.as_str(), f.rating))
        .collect()
}

fn done(action: CacheAction) -> Vec<Film> {
    match action {
        CacheAction::Done(films) => films,
        other => panic!("{:?}", other),
    }
}

#[test]
fn films_are_looked_for_before_they_are_gathered() {
    let cache = RedisCache::new(None, None);
    let mut gathered = Vec::new();
    let mut step = |event: CacheEvent| cached_get_movies(&cache, "bob", &mut gathered, event);
    let key = || "letterboxd_cache:bob".to_string();
    let list = || vec![film(3, "c", Some(7)), film(1, "a", None), film(3, "d", Some(2))];
    assert_eq!(
        step(CacheEvent::Start),
        CacheAction::Ask(CacheCommand::Get { key: key() })
    );
    assert_eq!(
        step(CacheEvent::Stored(Ok(Some("[]".to_string())))),
        CacheAction::Decode("[]".to_string())
    );
    assert_eq!(fields(&done(step(CacheEvent::Decoded(Ok(list()))))), fields(&list()));
    assert_eq!(step(CacheEvent::Stored(Ok(None))), CacheAction::Gather);
    assert_eq!(
        step(CacheEvent::Gathered(Ok((list(), "[1]".to_string())))),
        CacheAction::Keep(CacheCommand::SetEx {
            key: key(),
            value: "[1]".to_string(),
            seconds: 3600
        })
    );
    assert_eq!(fields(&done(step(CacheEvent::Kept(Ok(()))))), fields(&list()));
    assert!(gathered.is_empty());
}

#[test]
fn films_in_the_cache_are_found_again() {
    let cache = RedisCache::new(None, None);
    let mut none = Vec::new();
    let mut database: HashMap<String, String> = HashMap::new();
    let lists = [
        ("bob", "[1]", vec![film(1, "a", Some(4))]),
        ("ann", "[2]", vec![film(2, "b", None)]),
        ("bob_", "[]", vec![]),
    ];
    for (name, text, films) in lists {
        let mut gathered = Vec::new();
        let event = CacheEvent::Gathered(Ok((films, text.to_string())));
        match cached_get_movies(&cache, name, &mut gathered, event) {
            CacheAction::Keep(CacheCommand::SetEx { key, value, .. }) => {
                database.insert(key, value);
            }
            other => panic!("{:?}", other),
        }
    }
    let mut look = |name: &str| {
        let stored = match cached_get_movies(&cache, name, &mut none, CacheEvent::Start) {
            CacheAction::Ask(CacheCommand::Get { key }) => database.get(&key).cloned(),
            other => panic!("{:?}", other),
        };
        cached_get_movies(&cache, name, &mut none, CacheEvent::Stored(Ok(stored)))
    };
    assert_eq!(look("bob"), CacheAction::Decode("[1]".to_string()));
    assert_eq!(look("bob"), CacheAction::Decode("[1]".to_string()));
    assert_eq!(look("ann"), CacheAction::Decode("[2]".to_string()));
    assert_eq!(look("eve"), CacheAction::Gather);
}

#[test]
fn failures_end_the_search() {
    let cache = RedisCache::new(None, None);
    let why = || "refused".to_string();
    for event in [
        CacheEvent::Stored(Err(why())),
        CacheEvent::Decoded(Err(why())),
        CacheEvent::Gathered(Err(why())),
        CacheEvent::Kept(Err(why())),
    ] {
        let mut gathered = vec![film(1, "a", None)];
        let action = cached_get_movies(&cache, "bob", &mut gathered, event);
        assert_eq!(action, CacheAction::Failed(why()));
        assert_eq!(gathered.len(), 1);
    }
}

#[test]
fn comparisons_are_answered() {
    let s = |t: &str| t.to_string();
    assert_eq!(
        handle_comparison(CompareEvent::Request(s(" ann\n"), s("\u{2003}bob"))),
        CompareAction::Compare(s("ann"), s("bob"))
    );
    assert_eq!(
        handle_comparison(CompareEvent::Compared(Ok(s("<p>")))),
        CompareAction::Reply(s("<p>"))
    );
    assert_eq!(
        handle_comparison(CompareEvent::Compared(Err(s("user not found: x")))),
        CompareAction::RenderError(s("user not found: x"))
    );
    assert_eq!(
        handle_comparison(CompareEvent::Rendered(Ok(s("<b>")))),
        CompareAction::Reply(s("<b>"))
    );
    assert_eq!(
        handle_comparison(CompareEvent::Rendered(Err(s("oops")))),
        CompareAction::Reply(s("Internal server error"))
    );
    assert_eq!(rendered_or_failure(Ok(s("x"))), "x");
    assert_eq!(rendered_or_failure(Err(s("x"))), "Internal server error");
    assert_eq!(diff_template_error("e"), "Diff template error: e");
    assert_eq!(and_template_error("e"), "And template error: e");
}

#[test]
fn health_goes_by_the_cache() {
    let cache = RedisCache::new(None, None);
    let asked = |answer: Result<Option<String>, String>| {
        match handle_health(&cache, HealthEvent::Asked(answer)) {
            HealthAction::Reply(health) => (health.status, health.error),
            other => panic!("{:?}", other),
        }
    };
    assert_eq!(
        handle_health(&cache, HealthEvent::Request),
        HealthAction::Command(CacheCommand::Get {
            key: "letterboxd_cache:__health_check__".to_string()
        })
    );
    assert_eq!(asked(Ok(None)), ("healthy".to_string(), None));
    assert_eq!(asked(Ok(Some("x".to_string()))), ("healthy".to_string(), None));
    assert_eq!(
        asked(Err("refused".to_string())),
        ("unhealthy".to_string(), Some("refused".to_string()))
    );
}

#[test]
fn posters_are_found_in_two_steps() {
    let location = |body: &str| handle_poster(PosterEvent::Location(Some(body.as_bytes().to_vec())));
    assert_eq!(
        handle_poster(PosterEvent::Request("alien".to_string())),
        PosterAction::Locate("https://letterboxd.com/film/alien/poster/std/230/".to_string())
    );
    assert_eq!(
        location(r#"{"url": "a", "url2x": "https://img/a.jpg"}"#),
        PosterAction::Fetch("https://img/a.jpg".to_string())
    );
    for body in ["", "[]", "{}", "{\"url2x\": 3}", "{\"url2x\": null}", "\"url2x\"", "{\"url2x\": \"a\"} x"] {
        assert_eq!(location(body), PosterAction::NotFound);
    }
    assert_eq!(handle_poster(PosterEvent::Location(None)), PosterAction::NotFound);
    assert_eq!(handle_poster(PosterEvent::Image(None)), PosterAction::NotFound);
    assert_eq!(
        handle_poster(PosterEvent::Image(Some((Some("image/png".to_string()), vec![1, 2])))),
        PosterAction::Reply("image/png".to_string(), vec![1, 2])
    );
    assert_eq!(
        handle_poster(PosterEvent::Image(Some((None, vec![])))),
        PosterAction::Reply("image/jpeg".to_string(), vec![])
    );
}

#[test]
fn port_of_the_server() {
    assert_eq!(port(None), 3030);
    assert_eq!(port(Some("8080".to_string())), 8080);
    assert_eq!(port(Some("65536".to_string())), 3030);
    assert_eq!(port(Some("http".to_string())), 3030);
    assert_eq!(port(Some("0".to_string())), 0);
}
