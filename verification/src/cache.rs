//! Films that were gathered before.
use crate::decimal::parse_uint;
use crate::film::{Film, FilmView};
use crate::text::join;
use vstd::prelude::*;

verus! {

/// How long films are kept, in seconds, unless it is said otherwise: one hour.
pub const DEFAULT_TTL_SECONDS: u64 = 3600;

/// What the keys of the cache start with.
pub const KEY_PREFIX: &'static str = "letterboxd_cache:";

/// Where the cache is, unless it is said otherwise.
pub const DEFAULT_URL: &'static str = "redis://127.0.0.1:6379";

/// A cache of films in a Redis database.
#[derive(Debug)]
pub struct RedisCache {
    /// Where the database is.
    pub url: String,
    /// How long films are kept, in seconds.
    pub ttl_seconds: u64,
    /// What the keys start with.
    pub key_prefix: String,
}

/// What the database is asked to do.
#[derive(Debug, PartialEq, Eq)]
pub enum CacheCommand {
    /// Give the value of a key, if it has one.
    Get {
        /// The key.
        key: String,
    },
    /// Keep a value for a key, for so many seconds.
    SetEx {
        /// The key.
        key: String,
        /// The value.
        value: String,
        /// For how many seconds it is kept.
        seconds: u64,
    },
}

/// A [`CacheCommand`] as a mathematical value.
pub enum CacheCommandView {
    Get { key: Seq<char> },
    SetEx { key: Seq<char>, value: Seq<char>, seconds: u64 },
}

impl View for CacheCommand {
    type V = CacheCommandView;

    open spec fn view(&self) -> CacheCommandView {
        match *self {
            CacheCommand::Get { key } => CacheCommandView::Get { key: key@ },
            CacheCommand::SetEx { key, value, seconds } => CacheCommandView::SetEx {
                key: key@,
                value: value@,
                seconds,
            },
        }
    }
}

/// How long films are kept: as long as a setting says, where it is a number of seconds.
pub open spec fn ttl_setting(setting: Option<Seq<char>>) -> int {
    match setting {
        Some(text) => match crate::decimal::parsed(text, u64::MAX as int) {
            Ok(n) => n,
            Err(_) => DEFAULT_TTL_SECONDS as int,
        },
        None => DEFAULT_TTL_SECONDS as int,
    }
}

/// Where the database is: where a setting says, and at the default place where there is none.
pub open spec fn url_setting(setting: Option<Seq<char>>) -> Seq<char> {
    match setting {
        Some(text) => text,
        None => DEFAULT_URL@,
    }
}

impl RedisCache {
    /// The key under which a value is kept.
    pub open spec fn key(self, key: Seq<char>) -> Seq<char> {
        self.key_prefix@ + key
    }

    /// A cache by its settings: where the database is, and how long films are kept.
    pub fn new(url: Option<String>, ttl: Option<String>) -> (res: RedisCache)
        ensures
            res.url@ == (match url {
                Some(text) => text@,
                None => DEFAULT_URL@,
            }),
            res.url@ == url_setting(crate::text::text_view(url)),
            res.ttl_seconds == ttl_setting(crate::text::text_view(ttl)),
            res.key_prefix@ == KEY_PREFIX@,
    {
        let url = match url {
            Some(text) => text,
            None => DEFAULT_URL.to_owned(),
        };
        let ttl_seconds = match ttl {
            Some(text) => match parse_uint(text.as_str(), u64::MAX) {
                Ok(n) => n,
                Err(_) => DEFAULT_TTL_SECONDS,
            },
            None => DEFAULT_TTL_SECONDS,
        };
        RedisCache { url, ttl_seconds, key_prefix: KEY_PREFIX.to_owned() }
    }

    /// The key under which a value is kept.
    pub fn prefixed_key(&self, key: &str) -> (res: String)
        ensures
            res@ == self.key(key@),
    {
        join(self.key_prefix.as_str(), key)
    }

    /// The command that asks for the value of a key.
    pub fn get(&self, key: &str) -> (res: CacheCommand)
        ensures
            res@ == (CacheCommandView::Get { key: self.key(key@) }),
    {
        CacheCommand::Get { key: self.prefixed_key(key) }
    }

    /// The command that keeps a value for a key.
    pub fn insert(&self, key: &str, value: &str) -> (res: CacheCommand)
        ensures
            res@ == (CacheCommandView::SetEx {
                key: self.key(key@),
                value: value@,
                seconds: self.ttl_seconds,
            }),
    {
        CacheCommand::SetEx {
            key: self.prefixed_key(key),
            value: value.to_owned(),
            seconds: self.ttl_seconds,
        }
    }
}

/// What happens while the films of a member are looked for in the cache. Where something fails, the
/// text says why.
#[derive(Debug)]
pub enum CacheEvent {
    /// The films are asked for.
    Start,
    /// The database gave the value of the key or has none, or could not be asked.
    Stored(Result<Option<String>, String>),
    /// These films were read from the text that the database gave, or none could be.
    Decoded(Result<Vec<Film>, String>),
    /// These films were gathered from the site, and this is their text, or they could not be had.
    Gathered(Result<(Vec<Film>, String), String>),
    /// The database keeps the films, or could not be told to.
    Kept(Result<(), String>),
}

/// What is to be done next.
#[derive(Debug, PartialEq, Eq)]
pub enum CacheAction {
    /// Ask the database with a command.
    Ask(CacheCommand),
    /// Read the films from a text.
    Decode(String),
    /// Gather the films of the member from the site.
    Gather,
    /// Have the database keep the films with a command.
    Keep(CacheCommand),
    /// These films are the answer.
    Done(Vec<Film>),
    /// The films cannot be had; the text says why.
    Failed(String),
}

/// A [`CacheEvent`] as a mathematical value.
pub enum CacheEventView {
    Start,
    Stored(Result<Option<Seq<char>>, Seq<char>>),
    Decoded(Result<Seq<FilmView>, Seq<char>>),
    Gathered(Result<(Seq<FilmView>, Seq<char>), Seq<char>>),
    Kept(Result<(), Seq<char>>),
}

/// A [`CacheAction`] as a mathematical value.
pub enum CacheActionView {
    Ask(CacheCommandView),
    Decode(Seq<char>),
    Gather,
    Keep(CacheCommandView),
    Done(Seq<FilmView>),
    Failed(Seq<char>),
}

impl View for CacheEvent {
    type V = CacheEventView;

    open spec fn view(&self) -> CacheEventView {
        match *self {
            CacheEvent::Start => CacheEventView::Start,
            CacheEvent::Stored(Ok(value)) => CacheEventView::Stored(
                Ok(crate::text::text_view(value)),
            ),
            CacheEvent::Stored(Err(text)) => CacheEventView::Stored(Err(text@)),
            CacheEvent::Decoded(Ok(films)) => CacheEventView::Decoded(
                Ok(crate::scrape::films_view(films@)),
            ),
            CacheEvent::Decoded(Err(text)) => CacheEventView::Decoded(Err(text@)),
            CacheEvent::Gathered(Ok((films, text))) => CacheEventView::Gathered(
                Ok((crate::scrape::films_view(films@), text@)),
            ),
            CacheEvent::Gathered(Err(text)) => CacheEventView::Gathered(Err(text@)),
            CacheEvent::Kept(Ok(())) => CacheEventView::Kept(Ok(())),
            CacheEvent::Kept(Err(text)) => CacheEventView::Kept(Err(text@)),
        }
    }
}

impl View for CacheAction {
    type V = CacheActionView;

    open spec fn view(&self) -> CacheActionView {
        match *self {
            CacheAction::Ask(command) => CacheActionView::Ask(command@),
            CacheAction::Decode(text) => CacheActionView::Decode(text@),
            CacheAction::Gather => CacheActionView::Gather,
            CacheAction::Keep(command) => CacheActionView::Keep(command@),
            CacheAction::Done(films) => CacheActionView::Done(crate::scrape::films_view(films@)),
            CacheAction::Failed(text) => CacheActionView::Failed(text@),
        }
    }
}

/// Why something failed, if it did.
pub open spec fn cache_failure(event: CacheEventView) -> Option<Seq<char>> {
    match event {
        CacheEventView::Stored(Err(text)) => Some(text),
        CacheEventView::Decoded(Err(text)) => Some(text),
        CacheEventView::Gathered(Err(text)) => Some(text),
        CacheEventView::Kept(Err(text)) => Some(text),
        _ => None,
    }
}

/// What is done on an event while the films of a member are looked for: the database is asked; what
/// it has is read; what it does not have is gathered from the site and kept. The films that were
/// read or gathered are the answer. The first failure ends it. `gathered` are the films that were
/// gathered so far.
pub open spec fn cache_step(
    cache: RedisCache,
    username: Seq<char>,
    gathered: Seq<FilmView>,
    event: CacheEventView,
) -> CacheActionView {
    match event {
        CacheEventView::Start => CacheActionView::Ask(
            CacheCommandView::Get { key: cache.key(username) },
        ),
        CacheEventView::Stored(Ok(Some(text))) => CacheActionView::Decode(text),
        CacheEventView::Stored(Ok(None)) => CacheActionView::Gather,
        CacheEventView::Stored(Err(text)) => CacheActionView::Failed(text),
        CacheEventView::Decoded(Ok(films)) => CacheActionView::Done(films),
        CacheEventView::Decoded(Err(text)) => CacheActionView::Failed(text),
        CacheEventView::Gathered(Ok((_, text))) => CacheActionView::Keep(
            CacheCommandView::SetEx {
                key: cache.key(username),
                value: text,
                seconds: cache.ttl_seconds,
            },
        ),
        CacheEventView::Gathered(Err(text)) => CacheActionView::Failed(text),
        CacheEventView::Kept(Ok(())) => CacheActionView::Done(gathered),
        CacheEventView::Kept(Err(text)) => CacheActionView::Failed(text),
    }
}

/// The films that are gathered after an event. Once they are the answer, none are left.
pub open spec fn gathered_after(gathered: Seq<FilmView>, event: CacheEventView) -> Seq<FilmView> {
    match event {
        CacheEventView::Gathered(Ok((films, _))) => films,
        CacheEventView::Kept(Ok(())) => Seq::empty(),
        _ => gathered,
    }
}

/// Decides what is done on an event while the films of a member are looked for. `gathered` holds
/// the films that were gathered, from one event to the next; before the first there are none.
pub fn cached_get_movies(
    cache: &RedisCache,
    username: &str,
    gathered: &mut Vec<Film>,
    event: CacheEvent,
) -> (action: CacheAction)
    ensures
        action@ == cache_step(
            *cache,
            username@,
            crate::scrape::films_view(old(gathered)@),
            event@,
        ),
        crate::scrape::films_view(final(gathered)@) == gathered_after(
            crate::scrape::films_view(old(gathered)@),
            event@,
        ),
{
    match event {
        CacheEvent::Start => CacheAction::Ask(cache.get(username)),
        CacheEvent::Stored(Ok(Some(text))) => CacheAction::Decode(text),
        CacheEvent::Stored(Ok(None)) => CacheAction::Gather,
        CacheEvent::Stored(Err(text)) => CacheAction::Failed(text),
        CacheEvent::Decoded(Ok(films)) => CacheAction::Done(films),
        CacheEvent::Decoded(Err(text)) => CacheAction::Failed(text),
        CacheEvent::Gathered(Ok((films, text))) => {
            *gathered = films;
            CacheAction::Keep(cache.insert(username, text.as_str()))
        },
        CacheEvent::Gathered(Err(text)) => CacheAction::Failed(text),
        CacheEvent::Kept(Ok(())) => {
            let mut films: Vec<Film> = Vec::new();
            std::mem::swap(&mut films, gathered);
            assert(crate::scrape::films_view(gathered@) =~= Seq::<FilmView>::empty());
            CacheAction::Done(films)
        },
        CacheEvent::Kept(Err(text)) => CacheAction::Failed(text),
    }
}

/// Whatever fails ends the search with its own text, and nothing else does. So a failed lookup
/// gathers nothing, a failure is never kept, and films that could not be kept are no answer.
pub proof fn law_failures_end_the_search(
    cache: RedisCache,
    username: Seq<char>,
    gathered: Seq<FilmView>,
    event: CacheEventView,
)
    ensures
        ({
            let action = cache_step(cache, username, gathered, event);
            &&& cache_failure(event) matches Some(text) ==> action == CacheActionView::Failed(text)
            &&& cache_failure(event) is None ==> !(action is Failed)
            &&& action is Gather <==> event == CacheEventView::Stored(Ok(None))
            &&& action is Keep <==> (event matches CacheEventView::Gathered(result)
                && result is Ok)
            &&& action is Done <==> ((event matches CacheEventView::Decoded(result)
                && result is Ok) || (event matches CacheEventView::Kept(done) && done is Ok))
        }),
{
}

/// What the database has is read, and the films that are read are the answer, in their order and
/// with all that they say. Nothing is gathered, and nothing is kept.
pub proof fn law_stored_films_are_the_answer(
    cache: RedisCache,
    username: Seq<char>,
    gathered: Seq<FilmView>,
    text: Seq<char>,
    films: Seq<FilmView>,
)
    ensures
        cache_step(cache, username, gathered, CacheEventView::Stored(Ok(Some(text))))
            == CacheActionView::Decode(text),
        cache_step(cache, username, gathered, CacheEventView::Decoded(Ok(films)))
            == CacheActionView::Done(films),
{
}

/// What the database does not have is gathered, kept once under the key of the member, and, once it
/// is kept, the answer: the gathered films, in their order and with all that they say.
pub proof fn law_gathered_films_are_the_answer(
    cache: RedisCache,
    username: Seq<char>,
    gathered: Seq<FilmView>,
    films: Seq<FilmView>,
    text: Seq<char>,
)
    ensures
        cache_step(cache, username, gathered, CacheEventView::Stored(Ok(None)))
            == CacheActionView::Gather,
        cache_step(cache, username, gathered, CacheEventView::Gathered(Ok((films, text))))
            == CacheActionView::Keep(
            CacheCommandView::SetEx {
                key: cache.key(username),
                value: text,
                seconds: cache.ttl_seconds,
            },
        ),
        cache_step(
            cache,
            username,
            gathered_after(gathered, CacheEventView::Gathered(Ok((films, text)))),
            CacheEventView::Kept(Ok(())),
        ) == CacheActionView::Done(films),
{
}

/// The keys and values of a database after a command, as long as none of them has run out.
pub open spec fn after(
    database: Map<Seq<char>, Seq<char>>,
    command: CacheCommandView,
) -> Map<Seq<char>, Seq<char>> {
    match command {
        CacheCommandView::Get { .. } => database,
        CacheCommandView::SetEx { key, value, .. } => database.insert(key, value),
    }
}

/// The keys and values of a database after some commands, as long as none of them has run out.
pub open spec fn after_all(
    database: Map<Seq<char>, Seq<char>>,
    commands: Seq<CacheCommandView>,
) -> Map<Seq<char>, Seq<char>>
    decreases commands.len(),
{
    if commands.len() == 0 {
        database
    } else {
        after(after_all(database, commands.drop_last()), commands.last())
    }
}

/// What a database answers to a command that asks for the value of a key.
pub open spec fn answer(
    database: Map<Seq<char>, Seq<char>>,
    command: CacheCommandView,
) -> Option<Seq<char>> {
    match command {
        CacheCommandView::Get { key } => if database.contains_key(key) {
            Some(database[key])
        } else {
            None
        },
        CacheCommandView::SetEx { .. } => None,
    }
}

/// Whether a command writes the value of a key.
pub open spec fn writes(command: CacheCommandView, key: Seq<char>) -> bool {
    command matches CacheCommandView::SetEx { key: written, .. } && written == key
}

/// The value of a key stays as long as no command writes it.
proof fn lemma_unwritten_stays(
    database: Map<Seq<char>, Seq<char>>,
    commands: Seq<CacheCommandView>,
    key: Seq<char>,
)
    requires
        database.contains_key(key),
        forall|i: int| 0 <= i < commands.len() ==> !writes(#[trigger] commands[i], key),
    ensures
        after_all(database, commands).contains_key(key),
        after_all(database, commands)[key] == database[key],
    decreases commands.len(),
{
    if commands.len() > 0 {
        let rest = commands.drop_last();
        assert forall|i: int| 0 <= i < rest.len() implies !writes(#[trigger] rest[i], key) by {
            assert(rest[i] == commands[i]);
        }
        lemma_unwritten_stays(database, rest, key);
        assert(!writes(commands[commands.len() - 1], key));
    }
}

/// Films that were gathered once are the answer again the next time they are looked for, and are
/// not gathered again, whatever is looked for and kept meanwhile, as long as the entry of the
/// member is not written again. `read` is how films are read from a text: the text that was kept
/// with the films has to be one from which they are read.
pub proof fn law_gathered_films_are_found_again(
    cache: RedisCache,
    database: Map<Seq<char>, Seq<char>>,
    username: Seq<char>,
    films: Seq<FilmView>,
    text: Seq<char>,
    read: spec_fn(Seq<char>) -> Result<Seq<FilmView>, Seq<char>>,
    meanwhile: Seq<CacheCommandView>,
)
    requires
        read(text) == Ok::<Seq<FilmView>, Seq<char>>(films),
        forall|i: int|
            0 <= i < meanwhile.len() ==> !writes(#[trigger] meanwhile[i], cache.key(username)),
    ensures
        ({
            let none = Seq::<FilmView>::empty();
            let gathered = CacheEventView::Gathered(Ok((films, text)));
            let keep = cache_step(cache, username, none, gathered);
            let look = cache_step(cache, username, none, CacheEventView::Start);
            let later = after_all(after(database, keep->Keep_0), meanwhile);
            let stored = CacheEventView::Stored(Ok(answer(later, look->Ask_0)));
            let decode = cache_step(cache, username, none, stored);
            let decoded = CacheEventView::Decoded(read(decode->Decode_0));
            &&& keep is Keep
            &&& cache_step(
                cache,
                username,
                gathered_after(none, gathered),
                CacheEventView::Kept(Ok(())),
            ) == CacheActionView::Done(films)
            &&& look is Ask
            &&& decode == CacheActionView::Decode(text)
            &&& cache_step(cache, username, none, decoded) == CacheActionView::Done(films)
        }),
{
    let keep = cache_step(
        cache,
        username,
        Seq::empty(),
        CacheEventView::Gathered(Ok((films, text))),
    );
    lemma_unwritten_stays(after(database, keep->Keep_0), meanwhile, cache.key(username));
}

/// What is kept for one member does not write the entry of another.
pub proof fn law_members_do_not_overwrite_each_other(
    cache: RedisCache,
    username: Seq<char>,
    other: Seq<char>,
    gathered: Seq<FilmView>,
    event: CacheEventView,
)
    requires
        username != other,
    ensures
        cache_step(cache, other, gathered, event) matches CacheActionView::Ask(command) ==> !writes(
            command,
            cache.key(username),
        ),
        cache_step(cache, other, gathered, event) matches CacheActionView::Keep(command)
            ==> !writes(command, cache.key(username)),
{
    if cache.key(other) == cache.key(username) {
        law_keys_stay_apart(cache, other, username);
    }
}

/// Different keys stay different with the prefix.
pub proof fn law_keys_stay_apart(cache: RedisCache, key1: Seq<char>, key2: Seq<char>)
    requires
        cache.key(key1) == cache.key(key2),
    ensures
        key1 == key2,
{
    let n = cache.key_prefix@.len() as int;
    assert(cache.key(key1).skip(n) =~= key1);
    assert(cache.key(key2).skip(n) =~= key2);
}

/// The search starts with the database, which is asked for the entry of the member.
pub proof fn law_database_is_asked_first(
    cache: RedisCache,
    username: Seq<char>,
    gathered: Seq<FilmView>,
)
    ensures
        cache_step(cache, username, gathered, CacheEventView::Start) == CacheActionView::Ask(
            CacheCommandView::Get { key: cache.key(username) },
        ),
{
}

/// A key is kept whole, behind the prefix of the cache.
pub proof fn law_keys_carry_the_prefix(cache: RedisCache, key: Seq<char>)
    ensures
        cache.key(key).len() == cache.key_prefix@.len() + key.len(),
        forall|i: int|
            0 <= i < cache.key_prefix@.len() ==> #[trigger] cache.key(key)[i]
                == cache.key_prefix@[i],
        forall|i: int|
            0 <= i < key.len() ==> cache.key(key)[cache.key_prefix@.len() + i] == #[trigger] key[i],
{
}

/// Films are kept for as many seconds as the setting denotes, where it denotes a number of 64 bits,
/// and for an hour where it does not, or where there is no setting.
pub proof fn law_how_long_films_are_kept(text: Seq<char>, n: nat)
    ensures
        crate::decimal::denotes(text, n) && n <= u64::MAX ==> ttl_setting(Some(text)) == n,
        (forall|m: nat| #[trigger] crate::decimal::denotes(text, m) ==> m > u64::MAX)
            ==> ttl_setting(Some(text)) == 3600,
        ttl_setting(None) == 3600,
{
    crate::decimal::law_numbers_are_read(text, u64::MAX as int, n);
    crate::decimal::law_what_is_read_is_denoted(text, u64::MAX as int);
}

/// The gathered films stay the same until they are gathered anew or have become the answer.
pub proof fn law_gathered_films_stay(gathered: Seq<FilmView>, event: CacheEventView)
    ensures
        cache_failure(event) is Some || event is Start || event is Stored || event is Decoded
            ==> gathered_after(gathered, event) == gathered,
        event matches CacheEventView::Gathered(Ok(films)) ==> gathered_after(gathered, event)
            == films.0,
{
}

/// The view of a command, of an event and of an action holds what they hold.
pub proof fn law_cache_views(command: CacheCommand, event: CacheEvent, action: CacheAction)
    ensures
        command@ matches CacheCommandView::Get { key } ==> command is Get && command->Get_key@
            == key,
        command@ matches CacheCommandView::SetEx { key, value, seconds } ==> command is SetEx
            && command->SetEx_key@ == key && command->value@ == value && command->seconds
            == seconds,
        event is Start <==> event@ is Start,
        event@ matches CacheEventView::Stored(Ok(None)) ==> event is Stored && event->Stored_0
            == Ok::<Option<String>, String>(None),
        event matches CacheEvent::Stored(Ok(Some(text))) ==> event@ == CacheEventView::Stored(
            Ok(Some(text@)),
        ),
        event matches CacheEvent::Stored(Err(text)) ==> event@ == CacheEventView::Stored(
            Err(text@),
        ),
        event matches CacheEvent::Decoded(Ok(films)) ==> event@ == CacheEventView::Decoded(
            Ok(films@.map_values(|film: Film| film@)),
        ),
        event matches CacheEvent::Decoded(Err(text)) ==> event@ == CacheEventView::Decoded(
            Err(text@),
        ),
        event matches CacheEvent::Gathered(Ok(both)) ==> event@ == CacheEventView::Gathered(
            Ok((both.0@.map_values(|film: Film| film@), both.1@)),
        ),
        event matches CacheEvent::Gathered(Err(text)) ==> event@ == CacheEventView::Gathered(
            Err(text@),
        ),
        event matches CacheEvent::Kept(Ok(())) ==> event@ == CacheEventView::Kept(Ok(())),
        event matches CacheEvent::Kept(Err(text)) ==> event@ == CacheEventView::Kept(Err(text@)),
        action@ matches CacheActionView::Ask(c) ==> action is Ask && action->Ask_0@ == c,
        action@ matches CacheActionView::Decode(text) ==> action is Decode && action->Decode_0@
            == text,
        action@ is Gather ==> action is Gather,
        action@ matches CacheActionView::Keep(c) ==> action is Keep && action->Keep_0@ == c,
        action@ matches CacheActionView::Done(films) ==> action is Done
            && action->Done_0@.map_values(|film: Film| film@) == films,
        action@ matches CacheActionView::Failed(text) ==> action is Failed && action->Failed_0@
            == text,
{
}

/// Each failure is told by its own text: that of the lookup, of the reading, of the gathering and of
/// the keeping.
pub proof fn law_failures_are_told(
    cache: RedisCache,
    username: Seq<char>,
    gathered: Seq<FilmView>,
    text: Seq<char>,
)
    ensures
        cache_step(cache, username, gathered, CacheEventView::Stored(Err(text)))
            == CacheActionView::Failed(text),
        cache_step(cache, username, gathered, CacheEventView::Decoded(Err(text)))
            == CacheActionView::Failed(text),
        cache_step(cache, username, gathered, CacheEventView::Gathered(Err(text)))
            == CacheActionView::Failed(text),
        cache_step(cache, username, gathered, CacheEventView::Kept(Err(text)))
            == CacheActionView::Failed(text),
        gathered_after(gathered, CacheEventView::Stored(Err(text))) == gathered,
        gathered_after(gathered, CacheEventView::Gathered(Err(text))) == gathered,
{
}

/// The database is where the setting says, whatever it says, and on this machine where there is no
/// setting.
pub proof fn law_where_the_database_is(text: Seq<char>)
    ensures
        url_setting(Some(text)) == text,
        url_setting(None) == "redis://127.0.0.1:6379"@,
{
}

} // verus!
