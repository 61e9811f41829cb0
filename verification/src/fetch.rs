//! Fetching one page: when to send a request, when to wait, and when to give up.
use crate::error::{ClientError, ClientErrorView, LetterboxdError, LetterboxdErrorView};
use crate::status::Status;
use vstd::prelude::*;

verus! {

/// By how many milliseconds at most a request is held back beyond what the rate limit asks for.
pub const JITTER_MILLIS: u64 = 100;

/// The fetching of one page, between two events.
#[derive(Debug)]
pub struct Fetch {
    /// The member whose page it is.
    pub username: String,
    /// The address of the page.
    pub url: String,
    /// How many requests have been sent.
    pub attempt: usize,
    /// How many requests may be sent.
    pub max_retries: usize,
    /// What went wrong with the last request.
    pub last_error: Option<ClientError>,
}

/// A [`Fetch`] as a mathematical value.
pub struct FetchView {
    pub username: Seq<char>,
    pub url: Seq<char>,
    pub attempt: int,
    pub max_retries: usize,
    pub last_error: Option<ClientErrorView>,
}

/// What happens while a page is fetched.
#[derive(Debug)]
pub enum FetchEvent {
    /// The page is asked for.
    Start,
    /// The rate limit lets the request pass.
    Ready,
    /// A request was answered with a status.
    Reply(Status),
    /// A request was not answered; the text says why.
    NoReply(String),
    /// The wait is over.
    Slept,
}

/// A [`FetchEvent`] as a mathematical value.
pub enum FetchEventView {
    Start,
    Ready,
    Reply(u16),
    NoReply(Seq<char>),
    Slept,
}

/// What is to be done next.
#[derive(Debug, PartialEq, Eq)]
pub enum FetchAction {
    /// Wait until the rate limit lets a request pass, and up to so many milliseconds more.
    Wait(u64),
    /// Send a request for the page.
    Send,
    /// Wait for so many milliseconds.
    Sleep(u64),
    /// The last reply is the page.
    Done,
    /// The page cannot be had.
    Failed(ClientError),
}

/// A [`FetchAction`] as a mathematical value.
pub enum FetchActionView {
    Wait(u64),
    Send,
    Sleep(int),
    Done,
    Failed(ClientErrorView),
}

impl View for Fetch {
    type V = FetchView;

    open spec fn view(&self) -> FetchView {
        FetchView {
            username: self.username@,
            url: self.url@,
            attempt: self.attempt as int,
            max_retries: self.max_retries,
            last_error: match self.last_error {
                Some(e) => Some(e@),
                None => None,
            },
        }
    }
}

impl View for FetchEvent {
    type V = FetchEventView;

    open spec fn view(&self) -> FetchEventView {
        match *self {
            FetchEvent::Start => FetchEventView::Start,
            FetchEvent::Ready => FetchEventView::Ready,
            FetchEvent::Reply(status) => FetchEventView::Reply(status@),
            FetchEvent::NoReply(text) => FetchEventView::NoReply(text@),
            FetchEvent::Slept => FetchEventView::Slept,
        }
    }
}

impl View for FetchAction {
    type V = FetchActionView;

    open spec fn view(&self) -> FetchActionView {
        match *self {
            FetchAction::Wait(millis) => FetchActionView::Wait(millis),
            FetchAction::Send => FetchActionView::Send,
            FetchAction::Sleep(millis) => FetchActionView::Sleep(millis as int),
            FetchAction::Done => FetchActionView::Done,
            FetchAction::Failed(e) => FetchActionView::Failed(e@),
        }
    }
}

impl FetchView {
    /// What is reported when no request may be sent any more: what went wrong with the last one,
    /// and where none was sent, that none was answered.
    pub open spec fn final_error(self) -> ClientErrorView {
        match self.last_error {
            Some(e) => e,
            None => ClientErrorView::RetriesExhausted(self.max_retries),
        }
    }

    /// The next request, as long as one may be sent.
    pub open spec fn request(self) -> (FetchView, FetchActionView) {
        if self.attempt < self.max_retries {
            (FetchView { attempt: self.attempt + 1, ..self }, FetchActionView::Send)
        } else {
            (
                FetchView { last_error: None, ..self },
                FetchActionView::Failed(self.final_error()),
            )
        }
    }

    /// The wait after a request that failed: half a second longer after each one.
    pub open spec fn pause(self, error: ClientErrorView) -> (FetchView, FetchActionView) {
        (
            FetchView { last_error: Some(error), ..self },
            FetchActionView::Sleep(500 * self.attempt),
        )
    }

    /// What is done on an event.
    pub open spec fn step(self, event: FetchEventView) -> (FetchView, FetchActionView) {
        match event {
            FetchEventView::Start => (self, FetchActionView::Wait(JITTER_MILLIS)),
            FetchEventView::Ready | FetchEventView::Slept => self.request(),
            FetchEventView::Reply(code) => if code == 200 {
                (self, FetchActionView::Done)
            } else if code == 404 {
                (
                    self,
                    FetchActionView::Failed(
                        ClientErrorView::Letterboxd(
                            LetterboxdErrorView::UserNotFound(self.username),
                        ),
                    ),
                )
            } else if code == 429 {
                (
                    self,
                    FetchActionView::Failed(
                        ClientErrorView::Letterboxd(LetterboxdErrorView::RateLimitExceeded),
                    ),
                )
            } else {
                self.pause(ClientErrorView::UnexpectedStatus(code))
            },
            FetchEventView::NoReply(text) => self.pause(ClientErrorView::Outside(text)),
        }
    }

    /// The number of requests that are sent on a sequence of events.
    pub open spec fn sent(self, events: Seq<FetchEventView>) -> int
        decreases events.len(),
    {
        if events.len() == 0 {
            0
        } else {
            let (next, action) = self.step(events[0]);
            next.sent(events.skip(1)) + if action is Send {
                1int
            } else {
                0
            }
        }
    }

    /// The state and the action after requests that fail one after the other, with the wait after
    /// each.
    pub open spec fn after_failures(self, failures: Seq<FetchEventView>) -> (
        FetchView,
        FetchActionView,
    )
        decreases failures.len(),
    {
        if failures.len() == 0 {
            self.step(FetchEventView::Ready)
        } else {
            self.after_failures(failures.drop_last()).0.step(failures.last()).0.step(
                FetchEventView::Slept,
            )
        }
    }
}

/// What went wrong with a request, if that is no reason to give up.
pub open spec fn failure(event: FetchEventView) -> Option<ClientErrorView> {
    match event {
        FetchEventView::Reply(code) => if code != 200 && code != 404 && code != 429 {
            Some(ClientErrorView::UnexpectedStatus(code))
        } else {
            None
        },
        FetchEventView::NoReply(text) => Some(ClientErrorView::Outside(text)),
        _ => None,
    }
}

impl Fetch {
    /// Sends the next request, as long as one may be sent.
    fn request(&mut self) -> (action: FetchAction)
        ensures
            final(self)@ == old(self)@.request().0,
            action@ == old(self)@.request().1,
    {
        if self.attempt < self.max_retries {
            self.attempt = self.attempt + 1;
            FetchAction::Send
        } else {
            let error = match self.last_error.take() {
                Some(e) => e,
                None => ClientError::RetriesExhausted(self.max_retries),
            };
            FetchAction::Failed(error)
        }
    }

    /// Decides what is done on an event.
    pub fn step(&mut self, event: FetchEvent) -> (action: FetchAction)
        requires
            failure(event@) is Some ==> old(self).attempt * 500 <= u64::MAX,
        ensures
            final(self)@ == old(self)@.step(event@).0,
            action@ == old(self)@.step(event@).1,
    {
        let error = match event {
            FetchEvent::Start => {
                return FetchAction::Wait(JITTER_MILLIS);
            },
            FetchEvent::Ready | FetchEvent::Slept => {
                return self.request();
            },
            FetchEvent::Reply(status) => {
                let code = status.code();
                if code == 200 {
                    return FetchAction::Done;
                }
                if code == 404 {
                    return FetchAction::Failed(
                        ClientError::Letterboxd(
                            LetterboxdError::UserNotFound(self.username.clone()),
                        ),
                    );
                }
                if code == 429 {
                    return FetchAction::Failed(
                        ClientError::Letterboxd(LetterboxdError::RateLimitExceeded),
                    );
                }
                ClientError::UnexpectedStatus(status)
            },
            FetchEvent::NoReply(text) => ClientError::Outside(text),
        };
        self.last_error = Some(error);
        FetchAction::Sleep(500 * self.attempt as u64)
    }
}

/// A page is asked for at most as often as it may be, whatever happens.
pub proof fn law_requests_are_bounded(state: FetchView, events: Seq<FetchEventView>)
    requires
        state.attempt <= state.max_retries,
    ensures
        0 <= state.sent(events) <= state.max_retries - state.attempt,
    decreases events.len(),
{
    if events.len() > 0 {
        let (next, action) = state.step(events[0]);
        law_requests_are_bounded(next, events.skip(1));
    }
}

/// The rate limit is waited for before the first request, and before no other: a request that is
/// tried again only waits as long as its failures ask for.
pub proof fn law_rate_limit_is_awaited_once(state: FetchView, event: FetchEventView)
    ensures
        state.step(event).1 is Wait <==> event is Start,
        event is Start ==> state.step(event).0 == state,
{
}

/// No event changes whose page is fetched, from where, and how often it may be asked for.
pub proof fn law_fetch_keeps_its_aim(state: FetchView, event: FetchEventView)
    ensures
        state.step(event).0.username == state.username,
        state.step(event).0.url == state.url,
        state.step(event).0.max_retries == state.max_retries,
{
}

/// As long as a request may be sent, the next one is sent after a failure; when none is left, what
/// is reported is what went wrong with the last one.
pub proof fn law_last_failure_is_reported(state: FetchView, failures: Seq<FetchEventView>)
    requires
        state.attempt == 0,
        state.last_error is None,
        failures.len() <= state.max_retries,
        forall|i: int| 0 <= i < failures.len() ==> failure(#[trigger] failures[i]) is Some,
    ensures
        failures.len() < state.max_retries ==> state.after_failures(failures).1 is Send
            && state.after_failures(failures).0.attempt == failures.len() + 1,
        failures.len() == state.max_retries && failures.len() > 0 ==> state.after_failures(
            failures,
        ).1 == FetchActionView::Failed(failure(failures.last())->0),
        failures.len() == state.max_retries && failures.len() == 0 ==> state.after_failures(
            failures,
        ).1 == FetchActionView::Failed(ClientErrorView::RetriesExhausted(0)),
        state.after_failures(failures).0.max_retries == state.max_retries,
    decreases failures.len(),
{
    if failures.len() > 0 {
        let rest = failures.drop_last();
        assert forall|i: int| 0 <= i < rest.len() implies failure(#[trigger] rest[i]) is Some by {
            assert(rest[i] == failures[i]);
        }
        law_last_failure_is_reported(state, rest);
        assert(failure(failures[failures.len() - 1]) is Some);
    }
}

/// The waits grow by half a second with each request.
pub proof fn law_waits_grow(state: FetchView, event: FetchEventView)
    ensures
        failure(event) matches Some(error) ==> state.step(event).1 == FetchActionView::Sleep(
            500 * state.attempt,
        ) && state.step(event).0.last_error == Some(error),
        failure(event) is None ==> !(state.step(event).1 is Sleep),
{
}

/// Whatever requests have failed before, the page is there on an event exactly when that event is a
/// reply with the status 200.
pub proof fn law_a_good_reply_is_the_page(state: FetchView, event: FetchEventView)
    ensures
        state.step(event).1 is Done <==> event == FetchEventView::Reply(200),
        event == FetchEventView::Reply(200) ==> state.step(event).0 == state,
{
}

/// Whatever requests have failed before, a reply with the status 404 says that there is no such
/// member, and one with the status 429 that the rate limit is exceeded; neither is tried again.
pub proof fn law_what_ends_the_fetching_at_once(state: FetchView)
    ensures
        state.step(FetchEventView::Reply(404)).1 == FetchActionView::Failed(
            ClientErrorView::Letterboxd(LetterboxdErrorView::UserNotFound(state.username)),
        ),
        state.step(FetchEventView::Reply(429)).1 == FetchActionView::Failed(
            ClientErrorView::Letterboxd(LetterboxdErrorView::RateLimitExceeded),
        ),
{
}

/// The fetching fails on a reply only where its status is 404 or 429, and otherwise only where a
/// request would be sent and none may be any more. A request that was not answered, or answered
/// with any other status, is followed by a wait of half a second for each request so far.
pub proof fn law_when_the_fetching_fails(state: FetchView, event: FetchEventView)
    ensures
        state.step(event).1 is Failed <==> event == FetchEventView::Reply(404) || event
            == FetchEventView::Reply(429) || ((event is Ready || event is Slept) && state.attempt
            >= state.max_retries),
        event matches FetchEventView::NoReply(text) ==> state.step(event).1
            == FetchActionView::Sleep(500 * state.attempt) && state.step(event).0.last_error
            == Some(ClientErrorView::Outside(text)) && state.step(event).0.attempt
            == state.attempt,
        event matches FetchEventView::Reply(code) ==> code != 200 && code != 404 && code != 429
            ==> state.step(event).1 == FetchActionView::Sleep(500 * state.attempt) && state.step(
            event,
        ).0.last_error == Some(ClientErrorView::UnexpectedStatus(code)) && state.step(
            event,
        ).0.attempt == state.attempt,
{
}

/// When the rate limit lets it pass or a wait is over, a request is sent as long as one may be, and
/// it is counted. When none may be sent any more, what went wrong last is reported, and where no
/// request has gone wrong, that none was allowed.
pub proof fn law_requests_are_sent_as_long_as_they_may_be(state: FetchView, event: FetchEventView)
    requires
        event is Ready || event is Slept,
    ensures
        state.step(event).1 is Send <==> state.attempt < state.max_retries,
        state.attempt < state.max_retries ==> state.step(event).0.attempt == state.attempt + 1
            && state.step(event).0.last_error == state.last_error,
        state.attempt >= state.max_retries ==> (match state.last_error {
            Some(e) => state.step(event).1 == FetchActionView::Failed(e),
            None => state.step(event).1 == FetchActionView::Failed(
                ClientErrorView::RetriesExhausted(state.max_retries),
            ),
        }),
{
}

/// No request is sent but when the rate limit lets it pass or a wait is over, and the rate limit is
/// waited for with a tenth of a second at most on top.
pub proof fn law_when_requests_are_sent(state: FetchView, event: FetchEventView)
    ensures
        state.step(event).1 is Send ==> event is Ready || event is Slept,
        event is Start ==> state.step(event).1 == FetchActionView::Wait(100),
{
}

/// After any failures, as long as a request may still be sent, a good reply gives the page; and one
/// that there is no such member, or that the rate limit is exceeded, is reported as such.
pub proof fn law_trying_again_helps(state: FetchView, failures: Seq<FetchEventView>)
    requires
        state.attempt == 0,
        state.last_error is None,
        failures.len() < state.max_retries,
        forall|i: int|
            0 <= i < failures.len() ==> (#[trigger] failures[i] is NoReply || (failures[i] is Reply
                && failures[i]->Reply_0 != 200 && failures[i]->Reply_0 != 404
                && failures[i]->Reply_0 != 429)),
    ensures
        state.after_failures(failures).1 is Send,
        state.after_failures(failures).0.step(FetchEventView::Reply(200)).1 is Done,
        state.after_failures(failures).0.step(FetchEventView::Reply(404)).1
            == FetchActionView::Failed(
            ClientErrorView::Letterboxd(LetterboxdErrorView::UserNotFound(state.username)),
        ),
        state.after_failures(failures).0.step(FetchEventView::Reply(429)).1
            == FetchActionView::Failed(
            ClientErrorView::Letterboxd(LetterboxdErrorView::RateLimitExceeded),
        ),
        state.after_failures(failures).0.username == state.username,
        state.after_failures(failures).0.url == state.url,
    decreases failures.len(),
{
    assert forall|i: int| 0 <= i < failures.len() implies failure(
        #[trigger] failures[i],
    ) is Some by {}
    law_last_failure_is_reported(state, failures);
    if failures.len() > 0 {
        let rest = failures.drop_last();
        assert forall|i: int| 0 <= i < rest.len() implies (#[trigger] rest[i] is NoReply || (
        rest[i] is Reply && rest[i]->Reply_0 != 200 && rest[i]->Reply_0 != 404
            && rest[i]->Reply_0 != 429)) by {
            assert(rest[i] == failures[i]);
        }
        law_trying_again_helps(state, rest);
        let waiting = state.after_failures(rest).0.step(failures.last()).0;
        law_fetch_keeps_its_aim(state.after_failures(rest).0, failures.last());
        law_fetch_keeps_its_aim(waiting, FetchEventView::Slept);
    }
}

/// The view of a fetch, of an event and of an action holds what they hold.
pub proof fn law_fetch_views(fetch: Fetch, event: FetchEvent, action: FetchAction)
    ensures
        fetch@.username == fetch.username@,
        fetch@.url == fetch.url@,
        fetch@.attempt == fetch.attempt,
        fetch@.max_retries == fetch.max_retries,
        fetch@.last_error is Some <==> fetch.last_error is Some,
        fetch.last_error matches Some(e) ==> fetch@.last_error == Some(e@),
        event is Start <==> event@ is Start,
        event is Ready <==> event@ is Ready,
        event is Slept <==> event@ is Slept,
        event@ matches FetchEventView::Reply(code) ==> event is Reply && event->Reply_0@ == code,
        event@ matches FetchEventView::NoReply(text) ==> event is NoReply && event->NoReply_0@
            == text,
        action is Send <==> action@ is Send,
        action is Done <==> action@ is Done,
        action@ matches FetchActionView::Wait(millis) ==> action == FetchAction::Wait(millis),
        action@ matches FetchActionView::Sleep(millis) ==> action is Sleep && action->Sleep_0
            == millis,
        action@ matches FetchActionView::Failed(e) ==> action is Failed && action->Failed_0@ == e,
{
}

} // verus!
