use open_ai_compatible::helper::FetchError;
use open_ai_compatible::request::{Answer, Attempt, HelperRun, Outcome, Step};
use open_ai_compatible::settings::OpenAiCompatibleSettings;
use open_ai_compatible::state::{ApiKeyState, State};

fn state(helper: Option<&str>) -> State {
    let mut settings = OpenAiCompatibleSettings::default();
    settings.api_url = "https://example.com/v1".to_string();
    settings.api_key_helper = helper.map(|command| command.to_string());
    settings.custom_headers = vec![("X-A".to_string(), "1".to_string())];
    State::new("p".to_string(), Some(settings))
}

fn no_key() -> ApiKeyState {
    ApiKeyState { has_key: false, key: None, from_env_var: false }
}

fn stored(key: &str) -> ApiKeyState {
    ApiKeyState { has_key: true, key: Some(key.to_string()), from_env_var: false }
}

fn begin(state: &State, keys: &ApiKeyState) -> Step {
    state.first_step("P".to_string(), keys)
}

fn attempt(step: Step) -> Attempt {
    match step {
        Step::Send(attempt) => attempt,
        step => panic!("not an attempt: {:?}", step),
    }
}

fn run(step: Step) -> HelperRun {
    match step {
        Step::RunHelper(run) => run,
        step => panic!("not a run of the helper: {:?}", step),
    }
}

const REFUSED: Answer = Answer::HttpError { status: 401 };

#[test]
fn stored_key_is_sent() {
    let mut state = state(None);
    let attempt = attempt(begin(&state, &stored("k")));
    assert_eq!(attempt.api_key, "k");
    assert_eq!(attempt.target.provider, "P");
    assert_eq!(attempt.target.api_url, "https://example.com/v1");
    assert_eq!(attempt.target.custom_headers, vec![("X-A".to_string(), "1".to_string())]);
    assert!(!attempt.retry);
    assert_eq!(attempt.answered(&mut state, Answer::Accepted), Step::Done(Outcome::Response));
}

#[test]
fn without_key_and_helper_nothing_is_sent() {
    let step = begin(&state(None), &no_key());
    assert_eq!(step, Step::Done(Outcome::NoApiKey { provider: "P".to_string() }));
}

#[test]
fn helper_runs_for_the_first_key() {
    let mut state = state(Some("cmd"));
    let run = run(begin(&state, &no_key()));
    assert_eq!(run.helper.command, "cmd");
    assert!(!run.refresh);
    let (step, line) = run.fetched(&mut state, Ok("fresh".to_string()));
    assert_eq!(line, None);
    let sent = attempt(step);
    assert_eq!(sent.api_key, "fresh");
    assert!(!sent.retry);
    assert_eq!(state.effective_api_key(&no_key()), Some("fresh".to_string()));
    assert_eq!(attempt(begin(&state, &no_key())).api_key, "fresh");
}

#[test]
fn failing_helper_leaves_no_key() {
    let mut state = state(Some("cmd"));
    let run = run(begin(&state, &no_key()));
    let (step, line) = run.fetched(&mut state, Err(FetchError::EmptyOutput));
    assert_eq!(step, Step::Done(Outcome::NoApiKey { provider: "P".to_string() }));
    assert_eq!(
        line,
        Some("api_key_helper failed: api_key_helper produced empty output".to_string())
    );
}

#[test]
fn refused_key_without_helper_is_unauthorized() {
    let mut state = state(None);
    let step = attempt(begin(&state, &stored("k"))).answered(&mut state, REFUSED);
    assert_eq!(
        step,
        Step::Done(Outcome::AuthenticationError {
            provider: "P".to_string(),
            message: "Unauthorized".to_string(),
        })
    );
}

#[test]
fn refused_key_is_refreshed_and_sent_again() {
    let mut state = state(Some("cmd"));
    let first = run(begin(&state, &no_key()));
    let (step, _) = first.fetched(&mut state, Ok("stale".to_string()));
    let step = attempt(step).answered(&mut state, REFUSED);
    assert_eq!(state.effective_api_key(&no_key()), None);
    let refresh = run(step);
    assert!(refresh.refresh);
    let (step, line) = refresh.fetched(&mut state, Ok("fresh".to_string()));
    assert_eq!(line, None);
    assert_eq!(state.effective_api_key(&no_key()), Some("fresh".to_string()));
    let second = attempt(step);
    assert!(second.retry);
    assert_eq!(second.api_key, "fresh");
    assert_eq!(second.target.api_url, "https://example.com/v1");
    assert_eq!(second.answered(&mut state, Answer::Accepted), Step::Done(Outcome::Response));
}

#[test]
fn second_refusal_is_final() {
    let mut state = state(Some("cmd"));
    let step = attempt(begin(&state, &stored("k"))).answered(&mut state, REFUSED);
    let (step, _) = run(step).fetched(&mut state, Ok("fresh".to_string()));
    let step = attempt(step).answered(&mut state, REFUSED);
    assert_eq!(step, Step::Done(Outcome::RequestError));
    assert_eq!(state.effective_api_key(&no_key()), Some("fresh".to_string()));
}

#[test]
fn failing_refresh_is_an_authentication_error() {
    let mut state = state(Some("cmd"));
    let step = attempt(begin(&state, &stored("k"))).answered(&mut state, REFUSED);
    let error = FetchError::NotRun { reason: "gone".to_string() };
    let (step, line) = run(step).fetched(&mut state, Err(error));
    assert_eq!(
        step,
        Step::Done(Outcome::AuthenticationError {
            provider: "P".to_string(),
            message: "API key is invalid or expired".to_string(),
        })
    );
    assert_eq!(line, Some("api_key_helper refresh failed: gone".to_string()));
}

#[test]
fn other_failures_are_passed_on() {
    for answer in [
        Answer::HttpError { status: 403 },
        Answer::HttpError { status: 400 },
        Answer::HttpError { status: 500 },
        Answer::OtherError,
    ] {
        let mut state = state(Some("cmd"));
        let helper = state.handle().unwrap();
        state.helper_finished(&helper, Ok("cached".to_string()));
        let step = attempt(begin(&state, &no_key())).answered(&mut state, answer);
        assert_eq!(step, Step::Done(Outcome::RequestError));
        assert_eq!(state.effective_api_key(&no_key()), Some("cached".to_string()));
    }
}

#[test]
fn request_goes_on_with_the_helper_it_began_with() {
    let mut state = state(Some("cmd"));
    let begun = run(begin(&state, &no_key()));
    let mut settings = OpenAiCompatibleSettings::default();
    settings.api_key_helper = Some("other".to_string());
    state.settings_changed(Some(settings));
    let (step, _) = begun.fetched(&mut state, Ok("old".to_string()));
    let sent = attempt(step);
    assert_eq!(sent.target.api_url, "https://example.com/v1");
    assert_eq!(state.effective_api_key(&no_key()), None);
    assert_eq!(run(sent.answered(&mut state, REFUSED)).helper.command, "cmd");
}

#[test]
fn expired_key_is_fetched_anew() {
    let mut settings = OpenAiCompatibleSettings::default();
    settings.api_key_helper = Some("cmd".to_string());
    settings.api_key_helper_ttl_secs = Some(30);
    let mut state = State::new("p".to_string(), Some(settings));
    let helper = state.handle().unwrap();
    state.helper_finished(&helper, Ok("cached".to_string()));
    assert_eq!(attempt(state.first_step_after("P".to_string(), &no_key(), 29)).api_key, "cached");
    assert!(!run(state.first_step_after("P".to_string(), &no_key(), 30)).refresh);
    assert_eq!(attempt(state.first_step_after("P".to_string(), &stored("k"), 30)).api_key, "k");
}
