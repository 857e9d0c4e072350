//! How one request reaches the server: which key it carries, when the helper
//! command runs for it, and how it recovers once from a key that has expired.
//!
//! A request is a chain of [`Step`]s. The caller carries out what a step asks
//! for and hands the outcome to the step, which gives the next one.

use crate::helper::FetchError;
use crate::settings::{headers_of, SettingsView};
use crate::state::{handle_of, ApiKeyState, HelperHandle, HelperHandleView, State, StateView};
use crate::text::text_of;
use std::time::Instant;
use vstd::prelude::*;

verus! {

/// The HTTP status code "Unauthorized".
pub const UNAUTHORIZED: u16 = 401;

/// What every attempt of a request has in common.
#[derive(Debug, PartialEq)]
pub struct Target {
    pub provider: String,
    pub api_url: String,
    pub custom_headers: Vec<(String, String)>,
}

/// A [`Target`] with its texts seen as characters.
pub struct TargetView {
    pub provider: Seq<char>,
    pub api_url: Seq<char>,
    pub custom_headers: Seq<(Seq<char>, Seq<char>)>,
}

impl View for Target {
    type V = TargetView;

    open spec fn view(&self) -> TargetView {
        TargetView {
            provider: self.provider@,
            api_url: self.api_url@,
            custom_headers: headers_of(self.custom_headers@),
        }
    }
}

/// A run of the helper command, because there is no key yet or, with
/// `refresh`, because the server has refused the one there was.
#[derive(Debug, PartialEq)]
pub struct HelperRun {
    pub target: Target,
    pub helper: HelperHandle,
    pub refresh: bool,
}

/// A [`HelperRun`] with its texts seen as characters.
pub struct HelperRunView {
    pub target: TargetView,
    pub helper: HelperHandleView,
    pub refresh: bool,
}

impl View for HelperRun {
    type V = HelperRunView;

    open spec fn view(&self) -> HelperRunView {
        HelperRunView { target: self.target@, helper: self.helper@, refresh: self.refresh }
    }
}

/// An attempt to send the request: the first or, with `retry`, the one after a
/// refused key was replaced.
#[derive(Debug, PartialEq)]
pub struct Attempt {
    pub target: Target,
    pub helper: Option<HelperHandle>,
    pub api_key: String,
    pub retry: bool,
}

/// An [`Attempt`] with its texts seen as characters.
pub struct AttemptView {
    pub target: TargetView,
    pub helper: Option<HelperHandleView>,
    pub api_key: Seq<char>,
    pub retry: bool,
}

impl View for Attempt {
    type V = AttemptView;

    open spec fn view(&self) -> AttemptView {
        AttemptView {
            target: self.target@,
            helper: handle_of(self.helper),
            api_key: self.api_key@,
            retry: self.retry,
        }
    }
}

/// What the server made of an attempt.
#[derive(Clone, Copy, Debug, PartialEq, Eq, Structural)]
pub enum Answer {
    /// It streams its response.
    Accepted,
    /// It answered with an HTTP status that is an error.
    HttpError { status: u16 },
    /// The exchange failed in another way.
    OtherError,
}

/// How a request ends.
#[derive(Debug, PartialEq)]
pub enum Outcome {
    /// With the response to the last attempt.
    Response,
    /// With the error of the last attempt, as it came.
    RequestError,
    /// Without a key to send.
    NoApiKey { provider: String },
    /// With a key that the server refuses.
    AuthenticationError { provider: String, message: String },
}

/// An [`Outcome`] with its texts seen as characters.
pub enum OutcomeView {
    Response,
    RequestError,
    NoApiKey { provider: Seq<char> },
    AuthenticationError { provider: Seq<char>, message: Seq<char> },
}

impl View for Outcome {
    type V = OutcomeView;

    open spec fn view(&self) -> OutcomeView {
        match *self {
            Outcome::Response => OutcomeView::Response,
            Outcome::RequestError => OutcomeView::RequestError,
            Outcome::NoApiKey { provider } => OutcomeView::NoApiKey { provider: provider@ },
            Outcome::AuthenticationError {
                provider,
                message,
            } => OutcomeView::AuthenticationError { provider: provider@, message: message@ },
        }
    }
}

/// What a request asks for next.
#[derive(Debug, PartialEq)]
pub enum Step {
    RunHelper(HelperRun),
    Send(Attempt),
    Done(Outcome),
}

/// A [`Step`] with its texts seen as characters.
pub enum StepView {
    RunHelper(HelperRunView),
    Send(AttemptView),
    Done(OutcomeView),
}

impl View for Step {
    type V = StepView;

    open spec fn view(&self) -> StepView {
        match *self {
            Step::RunHelper(run) => StepView::RunHelper(run@),
            Step::Send(attempt) => StepView::Send(attempt@),
            Step::Done(outcome) => StepView::Done(outcome@),
        }
    }
}

impl StateView {
    /// What the requests of `provider` have in common in this state.
    pub open spec fn target(self, provider: Seq<char>) -> TargetView {
        TargetView {
            provider,
            api_url: self.settings.api_url,
            custom_headers: self.settings.custom_headers,
        }
    }

    /// The first step of a request of `provider`, given the key in force and
    /// the helper in use: with a key it is sent, else the helper runs for one,
    /// and without a helper there is none.
    pub open spec fn first_step_with(
        self,
        provider: Seq<char>,
        api_key: Option<Seq<char>>,
        helper: Option<HelperHandleView>,
    ) -> StepView {
        let target = self.target(provider);
        match (api_key, helper) {
            (Some(api_key), _) => StepView::Send(
                AttemptView { target, helper, api_key, retry: false },
            ),
            (None, Some(helper)) => StepView::RunHelper(
                HelperRunView { target, helper, refresh: false },
            ),
            (None, None) => StepView::Done(OutcomeView::NoApiKey { provider }),
        }
    }

    /// The first step of a request of `provider`, `elapsed_secs` seconds after
    /// the helper in use last gave a key.
    pub open spec fn first_step(
        self,
        provider: Seq<char>,
        keys: ApiKeyState,
        elapsed_secs: u64,
    ) -> StepView {
        self.first_step_with(provider, self.effective_key_after(keys, elapsed_secs), self.handle())
    }
}

impl HelperRunView {
    /// The step after the helper gave `key`, or nothing.
    pub open spec fn next(self, key: Option<Seq<char>>) -> StepView {
        match key {
            Some(api_key) => StepView::Send(
                AttemptView {
                    target: self.target,
                    helper: Some(self.helper),
                    api_key,
                    retry: self.refresh,
                },
            ),
            None => if self.refresh {
                StepView::Done(
                    OutcomeView::AuthenticationError {
                        provider: self.target.provider,
                        message: "API key is invalid or expired"@,
                    },
                )
            } else {
                StepView::Done(OutcomeView::NoApiKey { provider: self.target.provider })
            },
        }
    }

    /// What went wrong if the helper gave nothing, for the log.
    pub open spec fn complaint(self) -> Seq<char> {
        if self.refresh {
            "api_key_helper refresh failed"@
        } else {
            "api_key_helper failed"@
        }
    }
}

impl AttemptView {
    /// True if the server has refused a key that may have expired.
    pub open spec fn is_refused(self, answer: Answer) -> bool {
        !self.retry && answer == Answer::HttpError { status: UNAUTHORIZED }
    }

    /// The step after the server gave `answer`.
    pub open spec fn next(self, answer: Answer) -> StepView {
        if answer is Accepted {
            StepView::Done(OutcomeView::Response)
        } else if !self.is_refused(answer) {
            StepView::Done(OutcomeView::RequestError)
        } else {
            match self.helper {
                Some(helper) => StepView::RunHelper(
                    HelperRunView { target: self.target, helper, refresh: true },
                ),
                None => StepView::Done(
                    OutcomeView::AuthenticationError {
                        provider: self.target.provider,
                        message: "Unauthorized"@,
                    },
                ),
            }
        }
    }

    /// The state after the server gave `answer`: a refused key is forgotten by
    /// the helper.
    pub open spec fn state_after(self, state: StateView, answer: Answer) -> StateView {
        if self.is_refused(answer) && self.helper is Some {
            state.without_key(self.helper->0.index)
        } else {
            state
        }
    }
}

/// The key that the helper gave, if any.
pub open spec fn fetched_key(fetched: Result<String, FetchError>) -> Option<Seq<char>> {
    match fetched {
        Ok(key) => Some(key@),
        Err(_) => None,
    }
}

impl State {
    /// The first step of a request of `provider`, `elapsed_secs` seconds after
    /// the helper in use last gave a key.
    pub fn first_step_after(
        &self,
        provider: String,
        keys: &ApiKeyState,
        elapsed_secs: u64,
    ) -> (r: Step)
        requires
            self@.well_formed(),
        ensures
            r@ == self@.first_step(provider@, *keys, elapsed_secs),
    {
        let api_key = self.effective_api_key_after(keys, elapsed_secs);
        let helper = self.handle();
        self.first_step_with(provider, api_key, helper)
    }

    /// The first step of a request of `provider` now.
    pub fn first_step(&self, provider: String, keys: &ApiKeyState) -> (r: Step)
        requires
            self@.well_formed(),
        ensures
            exists|elapsed_secs: u64|
                self@.helper_has_age(elapsed_secs) && r@ == #[trigger] self@.first_step(
                    provider@,
                    *keys,
                    elapsed_secs,
                ),
    {
        let api_key = self.effective_api_key(keys);
        let helper = self.handle();
        let ghost elapsed_secs = choose|elapsed_secs: u64|
            self@.helper_has_age(elapsed_secs) && text_of(api_key)
                == #[trigger] self@.effective_key_after(*keys, elapsed_secs);
        let step = self.first_step_with(provider, api_key, helper);
        assert(step@ == self@.first_step(provider@, *keys, elapsed_secs));
        step
    }

    /// The first step of a request with this key in force and this helper.
    fn first_step_with(
        &self,
        provider: String,
        api_key: Option<String>,
        helper: Option<HelperHandle>,
    ) -> (r: Step)
        ensures
            r@ == self@.first_step_with(provider@, text_of(api_key), handle_of(helper)),
    {
        let api_url = self.api_url();
        let custom_headers = self.custom_headers();
        let target = Target { provider, api_url, custom_headers };
        match api_key {
            Some(api_key) => Step::Send(Attempt { target, helper, api_key, retry: false }),
            None => match helper {
                Some(helper) => Step::RunHelper(HelperRun { target, helper, refresh: false }),
                None => Step::Done(Outcome::NoApiKey { provider: target.provider }),
            },
        }
    }
}

impl HelperRun {
    /// The step after the helper gave `fetched` at the moment `now`, and a line
    /// for the log if that is an error. A key goes into the cache of the
    /// helper.
    pub fn fetched_at(
        self,
        state: &mut State,
        fetched: Result<String, FetchError>,
        now: Instant,
    ) -> (r: (Step, Option<String>))
        ensures
            r.0@ == self@.next(fetched_key(fetched)),
            fetched matches Ok(key) ==> r.1 is None && final(state)@ == old(state)@.with_key(
                self@.helper.index,
                key@,
                now,
            ),
            fetched matches Err(error) ==> *final(state) == *old(state) && (r.1 matches Some(line)
                && error.is_told_by(self@.complaint(), line@)),
            old(state)@.well_formed() ==> final(state)@.well_formed(),
    {
        match fetched {
            Ok(key) => {
                state.store_at(self.helper.index, key.clone(), now);
                let attempt = Attempt {
                    target: self.target,
                    helper: Some(self.helper),
                    api_key: key,
                    retry: self.refresh,
                };
                (Step::Send(attempt), None)
            },
            Err(error) => {
                let provider = self.target.provider;
                if self.refresh {
                    let line = error.log_line("api_key_helper refresh failed");
                    let message = "API key is invalid or expired".to_string();
                    (Step::Done(Outcome::AuthenticationError { provider, message }), Some(line))
                } else {
                    let line = error.log_line("api_key_helper failed");
                    (Step::Done(Outcome::NoApiKey { provider }), Some(line))
                }
            },
        }
    }

    /// The step after the helper gave `fetched` just now, and a line for the
    /// log if that is an error.
    pub fn fetched(self, state: &mut State, fetched: Result<String, FetchError>) -> (r: (
        Step,
        Option<String>,
    ))
        ensures
            r.0@ == self@.next(fetched_key(fetched)),
            fetched matches Ok(key) ==> r.1 is None && exists|now: Instant|
                call_ensures(Instant::now, (), now) && final(state)@ == #[trigger] old(
                    state,
                )@.with_key(self@.helper.index, key@, now),
            fetched matches Err(error) ==> *final(state) == *old(state) && (r.1 matches Some(line)
                && error.is_told_by(self@.complaint(), line@)),
            old(state)@.well_formed() ==> final(state)@.well_formed(),
    {
        self.fetched_at(state, fetched, Instant::now())
    }
}

impl Attempt {
    /// The step after the server gave `answer`. A refused key is forgotten by
    /// the helper.
    pub fn answered(self, state: &mut State, answer: Answer) -> (r: Step)
        ensures
            r@ == self@.next(answer),
            final(state)@ == self@.state_after(old(state)@, answer),
            old(state)@.well_formed() ==> final(state)@.well_formed(),
    {
        let refused: bool = match answer {
            Answer::Accepted => {
                return Step::Done(Outcome::Response);
            },
            Answer::HttpError { status } => status == UNAUTHORIZED && !self.retry,
            Answer::OtherError => false,
        };
        if !refused {
            return Step::Done(Outcome::RequestError);
        }
        match self.helper {
            Some(helper) => {
                state.invalidate(helper.index);
                Step::RunHelper(HelperRun { target: self.target, helper, refresh: true })
            },
            None => Step::Done(
                Outcome::AuthenticationError {
                    provider: self.target.provider,
                    message: "Unauthorized".to_string(),
                },
            ),
        }
    }
}

/// Something that happens to a request: the helper command has finished, with
/// the key it gave if any, or the server has answered.
pub enum Event {
    Fetched(Option<Seq<char>>),
    Answered(Answer),
}

impl StepView {
    /// True if `event` is what this step waits for.
    pub open spec fn awaits(self, event: Event) -> bool {
        match self {
            StepView::RunHelper(_) => event is Fetched,
            StepView::Send(_) => event is Answered,
            StepView::Done(_) => false,
        }
    }

    /// The step after `event`. What it does not wait for changes nothing.
    pub open spec fn next(self, event: Event) -> StepView {
        match (self, event) {
            (StepView::RunHelper(run), Event::Fetched(key)) => run.next(key),
            (StepView::Send(attempt), Event::Answered(answer)) => attempt.next(answer),
            _ => self,
        }
    }

    /// The step after all of `events`.
    pub open spec fn after(self, events: Seq<Event>) -> StepView
        decreases events.len(),
    {
        if events.len() == 0 {
            self
        } else {
            self.next(events[0]).after(events.drop_first())
        }
    }

    /// How many of `events` are answers to an attempt.
    pub open spec fn attempts_in(self, events: Seq<Event>) -> nat
        decreases events.len(),
    {
        if events.len() == 0 {
            0
        } else {
            let first: nat = if self is Send && self.awaits(events[0]) {
                1
            } else {
                0
            };
            first + self.next(events[0]).attempts_in(events.drop_first())
        }
    }

    /// How many of `events` are results of a run of the helper command.
    pub open spec fn runs_in(self, events: Seq<Event>) -> nat
        decreases events.len(),
    {
        if events.len() == 0 {
            0
        } else {
            let first: nat = if self is RunHelper && self.awaits(events[0]) {
                1
            } else {
                0
            };
            first + self.next(events[0]).runs_in(events.drop_first())
        }
    }

    /// How many attempts there can still be.
    pub open spec fn attempts_left(self) -> nat {
        match self {
            StepView::RunHelper(run) => if run.refresh {
                1
            } else {
                2
            },
            StepView::Send(attempt) => if attempt.retry {
                1
            } else {
                2
            },
            StepView::Done(_) => 0,
        }
    }

    /// How many runs of the helper command there can still be.
    pub open spec fn runs_left(self) -> nat {
        match self {
            StepView::RunHelper(run) => if run.refresh {
                1
            } else {
                2
            },
            StepView::Send(attempt) => if attempt.retry || attempt.helper is None {
                0
            } else {
                1
            },
            StepView::Done(_) => 0,
        }
    }

    /// True if, of `events`, the one at `i` is the answer that refuses the key of
    /// an attempt and the one at `j` is the key that the helper gives to replace
    /// it.
    pub open spec fn replaces_key(self, events: Seq<Event>, i: int, j: int) -> bool {
        &&& 0 <= i < j < events.len()
        &&& self.after(events.take(i)) matches StepView::Send(attempt) && !attempt.retry
        &&& events[i] == Event::Answered(Answer::HttpError { status: UNAUTHORIZED })
        &&& self.after(events.take(j)) matches StepView::RunHelper(run) && run.refresh
        &&& events[j] matches Event::Fetched(Some(_))
    }

    /// What the attempts of the request have in common, while it goes on.
    pub open spec fn target(self) -> Option<TargetView> {
        match self {
            StepView::RunHelper(run) => Some(run.target),
            StepView::Send(attempt) => Some(attempt.target),
            StepView::Done(_) => None,
        }
    }
}

/// Every event that a request waits for brings it nearer to its end.
pub proof fn law_every_awaited_event_is_progress(step: StepView, event: Event)
    requires
        step.awaits(event),
    ensures
        step.next(event).attempts_left() + step.next(event).runs_left() < step.attempts_left()
            + step.runs_left(),
{
}

/// A step leads to no more attempts and no more runs of the helper command than
/// it has left.
pub proof fn law_attempts_and_runs_are_bounded(step: StepView, events: Seq<Event>)
    ensures
        step.attempts_in(events) + step.after(events).attempts_left() <= step.attempts_left(),
        step.runs_in(events) + step.after(events).runs_left() <= step.runs_left(),
    decreases events.len(),
{
    if events.len() > 0 {
        law_attempts_and_runs_are_bounded(step.next(events[0]), events.drop_first());
    }
}

/// Whatever happens, a request is sent at most twice. The helper command runs
/// for it at most twice, at most once if there is a key to begin with, and never
/// if none is configured.
pub proof fn law_a_request_is_retried_at_most_once(
    state: StateView,
    provider: Seq<char>,
    keys: ApiKeyState,
    elapsed_secs: u64,
    events: Seq<Event>,
)
    ensures
        state.first_step(provider, keys, elapsed_secs).attempts_in(events) <= 2,
        state.first_step(provider, keys, elapsed_secs).runs_in(events) <= 2,
        state.effective_key_after(keys, elapsed_secs) is Some ==> state.first_step(
            provider,
            keys,
            elapsed_secs,
        ).runs_in(events) <= 1,
        state.current_helper is None ==> state.first_step(provider, keys, elapsed_secs).runs_in(
            events,
        ) == 0,
{
    law_attempts_and_runs_are_bounded(state.first_step(provider, keys, elapsed_secs), events);
}

/// A request is sent a second time only after the server has refused the key of
/// the first attempt and the helper has then given another one.
pub proof fn law_a_retry_follows_a_refusal_and_a_new_key(
    state: StateView,
    provider: Seq<char>,
    keys: ApiKeyState,
    elapsed_secs: u64,
    events: Seq<Event>,
)
    requires
        state.first_step(provider, keys, elapsed_secs).attempts_in(events) >= 2,
    ensures
        exists|i: int, j: int| #[trigger]
            state.first_step(provider, keys, elapsed_secs).replaces_key(events, i, j),
{
    lemma_second_attempt_has_a_cause(state.first_step(provider, keys, elapsed_secs), events);
}

/// Two attempts mean that a refused key was replaced between them.
proof fn lemma_second_attempt_has_a_cause(step: StepView, events: Seq<Event>)
    requires
        step.attempts_in(events) >= 2,
    ensures
        exists|i: int, j: int| #[trigger] step.replaces_key(events, i, j),
    decreases events.len(),
{
    law_attempts_and_runs_are_bounded(step, events);
    let next = step.next(events[0]);
    let rest = events.drop_first();
    if step is Send && step.awaits(events[0]) {
        law_attempts_and_runs_are_bounded(next, rest);
        let j = lemma_attempt_after_refresh_has_a_key(next, rest);
        lemma_after_shifts(step, events, j);
        assert(events.take(0) =~= Seq::empty());
        assert(step.replaces_key(events, 0, j + 1));
    } else {
        lemma_second_attempt_has_a_cause(next, rest);
        let (i, j) = choose|i: int, j: int| #[trigger] next.replaces_key(rest, i, j);
        lemma_after_shifts(step, events, i);
        lemma_after_shifts(step, events, j);
        assert(step.replaces_key(events, i + 1, j + 1));
    }
}

/// After a key was refused there is no attempt before the helper gives another
/// key. Returned is the place of the event in which it does.
proof fn lemma_attempt_after_refresh_has_a_key(step: StepView, events: Seq<Event>) -> (j: int)
    requires
        step matches StepView::RunHelper(run) ==> run.refresh,
        step !is Send,
        step.attempts_in(events) >= 1,
    ensures
        0 <= j < events.len(),
        step.after(events.take(j)) matches StepView::RunHelper(run) && run.refresh,
        events[j] matches Event::Fetched(Some(_)),
    decreases events.len(),
{
    law_attempts_and_runs_are_bounded(step, events);
    assert(events.take(0) =~= Seq::empty());
    if events[0] matches Event::Fetched(Some(_)) {
        0
    } else {
        let next = step.next(events[0]);
        let rest = events.drop_first();
        law_attempts_and_runs_are_bounded(next, rest);
        let j = lemma_attempt_after_refresh_has_a_key(next, rest);
        lemma_after_shifts(step, events, j);
        j + 1
    }
}

/// The step after the first `count` events that follow the first one.
proof fn lemma_after_shifts(step: StepView, events: Seq<Event>, count: int)
    requires
        0 <= count < events.len(),
    ensures
        step.after(events.take(count + 1)) == step.next(events[0]).after(
            events.drop_first().take(count),
        ),
{
    assert(events.take(count + 1).drop_first() =~= events.drop_first().take(count));
}

/// All attempts of a request go to the URL, with the headers and for the
/// provider that were in force when it began.
pub proof fn law_attempts_share_their_target(
    state: StateView,
    provider: Seq<char>,
    keys: ApiKeyState,
    elapsed_secs: u64,
    events: Seq<Event>,
)
    ensures
        state.first_step(provider, keys, elapsed_secs).after(events).target() matches Some(target)
            ==> target == state.target(provider),
{
    lemma_target_stays(state.first_step(provider, keys, elapsed_secs), events);
}

/// While a request goes on, its target stays what it is.
proof fn lemma_target_stays(step: StepView, events: Seq<Event>)
    ensures
        step.after(events).target() is None || step.after(events).target() == step.target(),
    decreases events.len(),
{
    if events.len() > 0 {
        lemma_target_stays(step.next(events[0]), events.drop_first());
        if step.next(events[0]) is Done {
            lemma_done_stays(step.next(events[0]), events.drop_first());
        }
    }
}

/// A request that has ended stays ended.
proof fn lemma_done_stays(step: StepView, events: Seq<Event>)
    requires
        step is Done,
    ensures
        step.after(events) == step,
    decreases events.len(),
{
    if events.len() > 0 {
        lemma_done_stays(step, events.drop_first());
    }
}

/// A key that the server refuses is replaced by the one that the helper gives
/// next, and the request is sent again with it; if that is not accepted either,
/// the error of the second attempt is the outcome.
pub proof fn law_refused_key_is_refreshed_once(
    attempt: AttemptView,
    helper: HelperHandleView,
    key: Seq<char>,
    answer: Answer,
)
    requires
        !attempt.retry,
        attempt.helper == Some(helper),
    ensures
        ({
            let refused = Event::Answered(Answer::HttpError { status: UNAUTHORIZED });
            let retried = StepView::Send(attempt).next(refused).next(Event::Fetched(Some(key)));
            &&& retried == StepView::Send(
                AttemptView {
                    target: attempt.target,
                    helper: Some(helper),
                    api_key: key,
                    retry: true,
                },
            )
            &&& retried.next(Event::Answered(answer)) == StepView::Done(
                if answer is Accepted {
                    OutcomeView::Response
                } else {
                    OutcomeView::RequestError
                },
            )
        }),
{
}

/// A key that the server refuses ends the request with an authentication error
/// if there is no helper, or if the helper gives no other key.
pub proof fn law_refused_key_without_another_is_an_authentication_error(attempt: AttemptView)
    requires
        !attempt.retry,
    ensures
        ({
            let refused = Event::Answered(Answer::HttpError { status: UNAUTHORIZED });
            let provider = attempt.target.provider;
            let next = StepView::Send(attempt).next(refused);
            &&& attempt.helper is None ==> next == StepView::Done(
                OutcomeView::AuthenticationError { provider, message: "Unauthorized"@ },
            )
            &&& attempt.helper is Some ==> next.next(Event::Fetched(None)) == StepView::Done(
                OutcomeView::AuthenticationError {
                    provider,
                    message: "API key is invalid or expired"@,
                },
            )
        }),
{
}

/// Any other failure of an attempt ends the request with that failure, and
/// leaves every cache as it is.
pub proof fn law_other_failures_are_not_retried(
    attempt: AttemptView,
    state: StateView,
    answer: Answer,
)
    requires
        answer !is Accepted,
        answer != (Answer::HttpError { status: UNAUTHORIZED }),
    ensures
        attempt.next(answer) == StepView::Done(OutcomeView::RequestError),
        attempt.state_after(state, answer) == state,
{
}

/// Nothing is sent without a key: a request that has none, and to which the
/// helper gives none, ends before its first attempt.
pub proof fn law_nothing_is_sent_without_a_key(
    state: StateView,
    provider: Seq<char>,
    keys: ApiKeyState,
    elapsed_secs: u64,
)
    requires
        state.effective_key_after(keys, elapsed_secs) is None,
    ensures
        ({
            let step = state.first_step(provider, keys, elapsed_secs);
            let no_key = StepView::Done(OutcomeView::NoApiKey { provider });
            &&& state.current_helper is None ==> step == no_key
            &&& state.current_helper is Some ==> step is RunHelper && step.next(
                Event::Fetched(None),
            ) == no_key
        }),
{
}

/// After a refused key was replaced, the cache of the helper serves the new one
/// and the old one is gone.
pub proof fn law_refreshed_key_replaces_the_refused_one(
    attempt: AttemptView,
    helper: HelperHandleView,
    state: StateView,
    key: Seq<char>,
    now: Instant,
    elapsed_secs: u64,
)
    requires
        !attempt.retry,
        attempt.helper == Some(helper),
        state.knows(helper),
    ensures
        ({
            let refused = Answer::HttpError { status: UNAUTHORIZED };
            let forgotten = attempt.state_after(state, refused);
            let refreshed = forgotten.with_key(helper.index, key, now);
            let ttl_secs = state.helpers[helper.index].ttl_secs;
            &&& forgotten.cached_key_after(helper.index, elapsed_secs) is None
            &&& refreshed == state.with_key(helper.index, key, now)
            &&& refreshed.cached_key_after(helper.index, elapsed_secs) == (if ttl_secs is None
                || elapsed_secs < ttl_secs->0 {
                Some(key)
            } else {
                None
            })
        }),
{
    let refused = Answer::HttpError { status: UNAUTHORIZED };
    let forgotten = attempt.state_after(state, refused);
    assert(forgotten.with_key(helper.index, key, now) =~= state.with_key(helper.index, key, now));
}

/// Nothing of what attempts have in common is lost when its texts are seen as
/// characters: all headers are there, in their order.
pub proof fn law_targets_are_seen_whole(target: Target)
    ensures
        target@.provider == target.provider@,
        target@.api_url == target.api_url@,
        target@.custom_headers.len() == target.custom_headers@.len(),
        forall|i: int|
            0 <= i < target.custom_headers@.len() ==> (#[trigger] target@.custom_headers[i]).0
                == target.custom_headers@[i].0@ && target@.custom_headers[i].1
                == target.custom_headers@[i].1@,
{
}

/// Nothing of an attempt or of a run of the helper is lost when its texts are
/// seen as characters.
pub proof fn law_attempts_and_runs_are_seen_whole(attempt: Attempt, run: HelperRun)
    ensures
        attempt@.target == attempt.target@,
        attempt@.helper is None <==> attempt.helper is None,
        attempt.helper matches Some(helper) ==> (attempt@.helper matches Some(seen) && seen.index
            == helper.index && seen.command == helper.command@),
        attempt@.api_key == attempt.api_key@,
        attempt@.retry == attempt.retry,
        run@.target == run.target@,
        run@.helper.index == run.helper.index,
        run@.helper.command == run.helper.command@,
        run@.refresh == run.refresh,
{
}

/// Nothing of an outcome or of a step is lost when its texts are seen as
/// characters.
pub proof fn law_outcomes_and_steps_are_seen_whole(outcome: Outcome, step: Step)
    ensures
        outcome@ is Response <==> outcome is Response,
        outcome@ is RequestError <==> outcome is RequestError,
        outcome@ is NoApiKey <==> outcome is NoApiKey,
        outcome matches Outcome::NoApiKey { provider } ==> (
        outcome@ matches OutcomeView::NoApiKey { provider: seen } && seen == provider@),
        outcome@ is AuthenticationError <==> outcome is AuthenticationError,
        outcome matches Outcome::AuthenticationError { provider, message } ==> (
        outcome@ matches OutcomeView::AuthenticationError { provider: seen, message: told } && seen
            == provider@ && told == message@),
        step matches Step::RunHelper(run) ==> step@ == StepView::RunHelper(run@),
        step matches Step::Send(attempt) ==> step@ == StepView::Send(attempt@),
        step matches Step::Done(done) ==> step@ == StepView::Done(done@),
{
}

/// A request goes to the configured URL with all configured headers, in their
/// order, in the name of its provider.
pub proof fn law_requests_carry_the_configuration(state: StateView, provider: Seq<char>)
    ensures
        state.target(provider).provider == provider,
        state.target(provider).api_url == state.settings.api_url,
        state.target(provider).custom_headers.len() == state.settings.custom_headers.len(),
        forall|i: int|
            0 <= i < state.settings.custom_headers.len() ==> #[trigger] state.target(
                provider,
            ).custom_headers[i] == state.settings.custom_headers[i],
{
}

/// The requests of a new provider go to the URL it was configured with, and
/// carry every header it was configured with.
pub proof fn law_new_provider_sends_all_its_headers(
    id: Seq<char>,
    env_var_name: Seq<char>,
    settings: SettingsView,
    provider: Seq<char>,
)
    ensures
        ({
            let target = StateView::initial(id, env_var_name, settings).target(provider);
            &&& target.provider == provider
            &&& target.api_url == settings.api_url
            &&& target.custom_headers == settings.custom_headers
        }),
{
}

/// With a key in force the request is sent at once with that key, and takes the
/// helper in use along, whatever its time to live.
pub proof fn law_key_in_force_is_sent_with_the_helper_at_hand(
    state: StateView,
    provider: Seq<char>,
    keys: ApiKeyState,
    elapsed_secs: u64,
)
    requires
        state.well_formed(),
        state.effective_key_after(keys, elapsed_secs) is Some,
    ensures
        state.first_step(provider, keys, elapsed_secs) matches StepView::Send(attempt) && {
            &&& state.effective_key_after(keys, elapsed_secs) == Some(attempt.api_key)
            &&& !attempt.retry
            &&& attempt.target.provider == provider
            &&& attempt.target.api_url == state.settings.api_url
            &&& attempt.target.custom_headers == state.settings.custom_headers
            &&& attempt.helper is Some <==> state.settings.api_key_helper is Some
            &&& attempt.helper matches Some(helper) ==> state.current_helper == Some(helper.index)
                && state.settings.api_key_helper == Some(helper.command)
        },
{
}

/// Without a key in force the configured command runs first, and without a
/// command the request ends for want of a key.
pub proof fn law_helper_runs_first_without_a_key(
    state: StateView,
    provider: Seq<char>,
    keys: ApiKeyState,
    elapsed_secs: u64,
)
    requires
        state.well_formed(),
        state.effective_key_after(keys, elapsed_secs) is None,
    ensures
        state.settings.api_key_helper matches Some(command) ==> (state.first_step(
            provider,
            keys,
            elapsed_secs,
        ) matches StepView::RunHelper(run) && {
            &&& !run.refresh
            &&& run.helper.command == command
            &&& state.current_helper == Some(run.helper.index)
            &&& run.target.provider == provider
            &&& run.target.api_url == state.settings.api_url
            &&& run.target.custom_headers == state.settings.custom_headers
        }),
        state.settings.api_key_helper is None ==> (state.first_step(
            provider,
            keys,
            elapsed_secs,
        ) matches StepView::Done(OutcomeView::NoApiKey { provider: named }) && named == provider),
{
}

/// Which key a request begins with: the stored one, else the one that the helper
/// in use cached, at every age below its time to live and at none from it on.
pub proof fn law_requests_begin_with_a_good_key(
    state: StateView,
    provider: Seq<char>,
    keys: ApiKeyState,
    elapsed_secs: u64,
)
    requires
        state.well_formed(),
    ensures
        keys.key matches Some(key) ==> (state.first_step(
            provider,
            keys,
            elapsed_secs,
        ) matches StepView::Send(attempt) && attempt.api_key == key@),
        keys.key is None && state.settings.api_key_helper is Some ==> {
            let ttl_secs = state.settings.api_key_helper_ttl_secs;
            let cached = state.helpers[state.current_helper->0].cached;
            let young = ttl_secs is None || elapsed_secs < ttl_secs->0;
            &&& cached is Some && young ==> (state.first_step(
                provider,
                keys,
                elapsed_secs,
            ) matches StepView::Send(attempt) && attempt.api_key == cached->0.key)
            &&& cached is None || !young ==> state.first_step(
                provider,
                keys,
                elapsed_secs,
            ) is RunHelper
        },
{
}

/// A key that the helper gives is sent, to the same place and with the same
/// helper at hand, as a retry exactly if a refused key made the helper run.
pub proof fn law_given_key_is_sent(run: HelperRunView, key: Seq<char>)
    ensures
        run.next(Some(key)) matches StepView::Send(attempt) && {
            &&& attempt.api_key == key
            &&& attempt.target == run.target
            &&& attempt.helper == Some(run.helper)
            &&& attempt.retry == run.refresh
        },
{
}

/// A helper that gives no key ends the request: for want of a key if there was
/// none, and as a failed authentication if the one there was is refused. The
/// log tells the two apart.
pub proof fn law_request_ends_without_a_given_key(run: HelperRunView)
    ensures
        !run.refresh ==> {
            &&& run.next(None) matches StepView::Done(OutcomeView::NoApiKey { provider }) && provider
                == run.target.provider
            &&& run.complaint() == "api_key_helper failed"@
        },
        run.refresh ==> {
            &&& run.next(None) matches StepView::Done(
                OutcomeView::AuthenticationError { provider, message },
            ) && provider == run.target.provider && message == "API key is invalid or expired"@
            &&& run.complaint() == "api_key_helper refresh failed"@
        },
{
}

/// The key that a helper gives is the one that was fetched, and a failure gives
/// none.
pub proof fn law_fetched_key_is_given(fetched: Result<String, FetchError>)
    ensures
        fetched matches Ok(key) ==> fetched_key(fetched) == Some(key@),
        fetched is Err ==> fetched_key(fetched) is None,
{
}

/// What follows an answer: a response ends the request; status 401 to a first
/// attempt runs its helper again for the same request, or ends it as
/// unauthorized if there is no helper; anything else ends it with that error.
pub proof fn law_answers_decide_what_follows(attempt: AttemptView, answer: Answer)
    ensures
        ({
            let refused = !attempt.retry && (answer matches Answer::HttpError { status } && status
                == 401);
            &&& answer is Accepted ==> attempt.next(answer) == StepView::Done(OutcomeView::Response)
            &&& answer !is Accepted && !refused ==> attempt.next(answer) == StepView::Done(
                OutcomeView::RequestError,
            )
            &&& refused && attempt.helper is None ==> (attempt.next(answer) matches StepView::Done(
                OutcomeView::AuthenticationError { provider, message },
            ) && provider == attempt.target.provider && message == "Unauthorized"@)
            &&& refused && attempt.helper is Some ==> (attempt.next(
                answer,
            ) matches StepView::RunHelper(run) && run.refresh && run.target == attempt.target
                && Some(run.helper) == attempt.helper)
        }),
{
}

/// Status 401 to a first attempt empties the cache of its helper and touches
/// nothing else; every other answer leaves everything as it is.
pub proof fn law_answers_decide_on_the_cache(attempt: AttemptView, state: StateView, answer: Answer)
    ensures
        ({
            let after = attempt.state_after(state, answer);
            let refused = !attempt.retry && (answer matches Answer::HttpError { status } && status
                == 401);
            &&& !refused || attempt.helper is None ==> after == state
            &&& after.id == state.id
            &&& after.env_var_name == state.env_var_name
            &&& after.settings == state.settings
            &&& after.current_helper == state.current_helper
            &&& after.helpers.len() == state.helpers.len()
            &&& refused && attempt.helper is Some ==> forall|i: int|
                0 <= i < state.helpers.len() ==> {
                    &&& (#[trigger] after.helpers[i]).command == state.helpers[i].command
                    &&& after.helpers[i].ttl_secs == state.helpers[i].ttl_secs
                    &&& i == attempt.helper->0.index ==> after.helpers[i].cached is None
                    &&& i != attempt.helper->0.index ==> after.helpers[i].cached
                        == state.helpers[i].cached
                }
        }),
{
}

/// From the first step of a request with a key in force and a helper configured,
/// status 401 and a new key lead to a second attempt with that key, for the same
/// URL and headers; a response to it ends the request, and anything else is its
/// error.
pub proof fn law_refused_request_is_sent_again_with_the_new_key(
    state: StateView,
    provider: Seq<char>,
    keys: ApiKeyState,
    elapsed_secs: u64,
    key: Seq<char>,
    answer: Answer,
)
    requires
        state.well_formed(),
        state.settings.api_key_helper is Some,
        state.effective_key_after(keys, elapsed_secs) is Some,
    ensures
        state.first_step(provider, keys, elapsed_secs) matches StepView::Send(first) && {
            &&& state.effective_key_after(keys, elapsed_secs) == Some(first.api_key)
            &&& first.next(Answer::HttpError { status: 401 }) matches StepView::RunHelper(run) && {
                &&& Some(run.helper.command) == state.settings.api_key_helper
                &&& run.next(Some(key)) matches StepView::Send(second) && {
                    &&& second.api_key == key
                    &&& second.target.provider == provider
                    &&& second.target.api_url == state.settings.api_url
                    &&& second.target.custom_headers == state.settings.custom_headers
                    &&& answer is Accepted ==> second.next(answer) == StepView::Done(
                        OutcomeView::Response,
                    )
                    &&& answer !is Accepted ==> second.next(answer) == StepView::Done(
                        OutcomeView::RequestError,
                    )
                }
            }
            &&& first.state_after(state, Answer::HttpError { status: 401 }).helper_key_after(
                elapsed_secs,
            ) is None
        },
{
}

/// A request whose first key had to be fetched is treated no differently: status
/// 401 makes its helper run again, and the next key is sent.
pub proof fn law_fetched_key_can_be_refused_too(
    state: StateView,
    provider: Seq<char>,
    keys: ApiKeyState,
    elapsed_secs: u64,
    key: Seq<char>,
    next_key: Seq<char>,
)
    requires
        state.well_formed(),
        state.settings.api_key_helper is Some,
        state.effective_key_after(keys, elapsed_secs) is None,
    ensures
        state.first_step(provider, keys, elapsed_secs) matches StepView::RunHelper(fetch) && {
            &&& fetch.next(Some(key)) matches StepView::Send(first) && {
                &&& first.api_key == key
                &&& first.next(Answer::HttpError { status: 401 }) matches StepView::RunHelper(
                    again,
                ) && {
                    &&& Some(again.helper.command) == state.settings.api_key_helper
                    &&& again.next(Some(next_key)) matches StepView::Send(second) && second.api_key
                        == next_key && second.target == first.target
                }
            }
        },
{
}

/// A request goes on only by what it waits for: a run of the helper by what the
/// helper gave, an attempt by its answer, and a request that has ended by
/// nothing.
pub proof fn law_steps_go_on_by_what_they_wait_for(step: StepView, event: Event)
    ensures
        step matches StepView::RunHelper(run) ==> {
            &&& event matches Event::Fetched(key) ==> step.awaits(event) && step.next(event)
                == run.next(key)
            &&& event is Answered ==> !step.awaits(event)
        },
        step matches StepView::Send(attempt) ==> {
            &&& event matches Event::Answered(answer) ==> step.awaits(event) && step.next(event)
                == attempt.next(answer)
            &&& event is Fetched ==> !step.awaits(event)
        },
        step is Done ==> !step.awaits(event),
        !step.awaits(event) ==> step.next(event) == step,
{
}

} // verus!
