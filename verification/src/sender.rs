//! What sends the requests of a client.
use crate::config::{ClientConfig, Timeout};
use vstd::prelude::*;

verus! {

/// `reqwest::Client`, which sends the requests. Nothing is claimed of what is inside.
#[verifier::external_type_specification]
#[verifier::external_body]
pub struct ExHttpClient(reqwest::Client);

/// How requests are sent.
#[derive(Debug)]
pub struct HttpSettings {
    /// How the sender presents itself.
    pub user_agent: String,
    /// How long a request may take.
    pub timeout: Timeout,
    /// Whether replies may be compressed with gzip.
    pub gzip: bool,
}

impl HttpSettings {
    /// Whether requests are sent as a configuration asks for: with its user agent and its timeout,
    /// and for replies that may be compressed.
    pub open spec fn fits(self, config: ClientConfig) -> bool {
        &&& self.user_agent@ == config.user_agent@
        &&& self.timeout == config.timeout
        &&& self.gzip
    }

    /// How requests are sent with a configuration.
    pub fn of(config: &ClientConfig) -> (res: HttpSettings)
        ensures
            res.fits(*config),
    {
        HttpSettings { user_agent: config.user_agent.clone(), timeout: config.timeout, gzip: true }
    }
}

/// Whether a text can stand in a header of a request: it holds no control character but the tab.
pub open spec fn is_header_text(text: Seq<char>) -> bool {
    forall|i: int|
        0 <= i < text.len() ==> ((#[trigger] text[i]) as int >= 0x20 && text[i] as int != 0x7f)
            || text[i] == '\t'
}

/// A sender of requests, with the settings that it was built with.
#[derive(Debug)]
pub struct Sender {
    http: reqwest::Client,
    settings: HttpSettings,
}

impl Sender {
    /// How the requests are sent.
    pub closed spec fn settings(self) -> HttpSettings {
        self.settings
    }

    /// What sends the requests.
    pub closed spec fn http(self) -> reqwest::Client {
        self.http
    }

    /// `reqwest::ClientBuilder` with the user agent, the timeout and the use of gzip that the
    /// settings name, and its `build`. What comes of it is kept together with the settings. A user
    /// agent that cannot stand in a header makes it fail. Whether it fails otherwise is up to the
    /// machine, which has to have what the client is built on, so nothing is claimed of that. The
    /// text is what the error displays. There is no other way to a sender.
    #[verifier::external_body]
    pub(crate) fn build(settings: HttpSettings) -> (res: Result<Sender, String>)
        requires
            settings.timeout.nanos < 1_000_000_000,
        ensures
            res matches Ok(sender) ==> sender.settings() == settings,
            !is_header_text(settings.user_agent@) ==> res is Err,
    {
        reqwest::ClientBuilder::new()
            .user_agent(&settings.user_agent)
            .timeout(std::time::Duration::new(settings.timeout.secs, settings.timeout.nanos))
            .gzip(settings.gzip)
            .build()
            .map(|http| Sender { http, settings })
            .map_err(|e| e.to_string())
    }

    /// What sends the requests.
    pub fn client(&self) -> (res: &reqwest::Client)
        ensures
            *res == self.http(),
    {
        &self.http
    }
}

/// Settings that fit a configuration have its user agent and its timeout, and use gzip; and any
/// such settings fit.
pub proof fn law_settings_carry_the_configuration(settings: HttpSettings, config: ClientConfig)
    ensures
        settings.fits(config) <==> settings.user_agent@ == config.user_agent@
            && settings.timeout.secs == config.timeout.secs && settings.timeout.nanos
            == config.timeout.nanos && settings.gzip,
{
}

} // verus!
