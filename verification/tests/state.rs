use open_ai_compatible::helper::FetchError;
use open_ai_compatible::settings::{AvailableModel, ModelCapabilities, OpenAiCompatibleSettings};
use open_ai_compatible::state::{env_var_name_for, ApiKeyState, State};
use std::time::Instant;

fn model(name: &str) -> AvailableModel {
    AvailableModel {
        name: name.to_string(),
        display_name: None,
        max_tokens: 8_000,
        max_output_tokens: None,
        capabilities: ModelCapabilities {
            tools: true,
            images: false,
            parallel_tool_calls: false,
            prompt_cache_key: false,
            chat_completions: true,
        },
    }
}

fn settings(helper: Option<&str>, ttl: Option<u64>) -> OpenAiCompatibleSettings {
    OpenAiCompatibleSettings {
        api_url: "https://example.com/v1".to_string(),
        available_models: vec![model("m")],
        api_key_helper: helper.map(|command| command.to_string()),
        api_key_helper_ttl_secs: ttl,
        custom_headers: vec![("X-A".to_string(), "1".to_string())],
    }
}

fn no_key() -> ApiKeyState {
    ApiKeyState { has_key: false, key: None, from_env_var: false }
}

fn stored(key: &str) -> ApiKeyState {
    ApiKeyState { has_key: true, key: Some(key.to_string()), from_env_var: false }
}

#[test]
fn default_settings_are_empty() {
    let default = OpenAiCompatibleSettings::default();
    assert_eq!(default.api_url, "");
    assert!(default.available_models.is_empty());
    assert_eq!(default.api_key_helper, None);
    assert_eq!(default.api_key_helper_ttl_secs, None);
    assert!(default.custom_headers.is_empty());
}

#[test]
fn settings_compare_field_by_field() {
    let a = settings(Some("cmd"), Some(5));
    assert!(a.same_as(&a.clone()));
    assert_eq!(a, a.clone());
    let mut b = a.clone();
    b.api_url = "other".to_string();
    assert!(!a.same_as(&b));
    let mut b = a.clone();
    b.available_models[0].max_tokens = 1;
    assert!(!a.same_as(&b));
    let mut b = a.clone();
    b.available_models[0].capabilities.images = true;
    assert!(!a.same_as(&b));
    let mut b = a.clone();
    b.available_models[0].display_name = Some("M".to_string());
    assert!(!a.same_as(&b));
    let mut b = a.clone();
    b.available_models.push(model("n"));
    assert!(!a.same_as(&b));
    let mut b = a.clone();
    b.api_key_helper = None;
    assert!(!a.same_as(&b));
    let mut b = a.clone();
    b.api_key_helper_ttl_secs = Some(6);
    assert!(!a.same_as(&b));
    let mut b = a.clone();
    b.custom_headers[0].1 = "2".to_string();
    assert!(!a.same_as(&b));
    let mut b = a.clone();
    b.custom_headers.clear();
    assert!(!a.same_as(&b));
}

#[test]
fn env_var_name_is_upper_snake_case() {
    assert_eq!(State::new("my-provider".to_string(), None).env_var_name(), "MY_PROVIDER_API_KEY");
    assert_eq!(State::new("openRouter2".to_string(), None).env_var_name(), "OPEN_ROUTER_2_API_KEY");
    assert_eq!(State::new("My Server".to_string(), None).env_var_name(), "MY_SERVER_API_KEY");
    assert_eq!(State::new("".to_string(), None).env_var_name(), "API_KEY");
}

#[test]
fn env_var_name_can_be_given() {
    assert_eq!(env_var_name_for(&"my-provider".to_string()), "MY_PROVIDER_API_KEY");
    let state = State::with_env_var_name("p".to_string(), "KEY".to_string(), None);
    assert_eq!(state.env_var_name(), "KEY");
    assert_eq!(state.handle(), None);
}

#[test]
fn unconfigured_provider_has_no_key() {
    let state = State::new("p".to_string(), None);
    assert!(!state.is_authenticated(&no_key()));
    assert_eq!(state.effective_api_key(&no_key()), None);
    assert_eq!(state.handle(), None);
    assert_eq!(state.api_url(), "");
}

#[test]
fn stored_key_precedes_the_helper() {
    let mut state = State::new("p".to_string(), Some(settings(Some("cmd"), None)));
    let helper = state.handle().unwrap();
    assert_eq!(helper.command, "cmd");
    assert_eq!(state.helper_finished(&helper, Ok("helped".to_string())), None);
    assert_eq!(state.effective_api_key(&stored("kept")), Some("kept".to_string()));
    assert_eq!(state.effective_api_key(&no_key()), Some("helped".to_string()));
    assert!(state.is_authenticated(&no_key()));
}

#[test]
fn helper_key_expires() {
    let mut state = State::new("p".to_string(), Some(settings(Some("cmd"), Some(10))));
    let helper = state.handle().unwrap();
    state.helper_finished_at(&helper, Ok("helped".to_string()), Instant::now());
    assert!(state.is_authenticated_after(&no_key(), 9));
    assert!(!state.is_authenticated_after(&no_key(), 10));
    assert!(state.is_authenticated_after(&stored("kept"), 10));
    assert_eq!(state.effective_api_key_after(&no_key(), 9), Some("helped".to_string()));
    assert_eq!(state.effective_api_key_after(&no_key(), 10), None);
}

#[test]
fn failed_helper_is_logged_and_changes_nothing() {
    let mut state = State::new("p".to_string(), Some(settings(Some("cmd"), None)));
    let helper = state.handle().unwrap();
    let line = state.helper_finished(&helper, Err(FetchError::EmptyOutput));
    assert_eq!(
        line,
        Some("api_key_helper failed: api_key_helper produced empty output".to_string())
    );
    assert_eq!(state.effective_api_key(&no_key()), None);
}

#[test]
fn set_api_key_names_the_url() {
    let state = State::new("p".to_string(), Some(settings(None, None)));
    let change = state.set_api_key(Some("k".to_string()));
    assert_eq!(change.api_url, "https://example.com/v1");
    assert_eq!(change.api_key, Some("k".to_string()));
    assert_eq!(state.set_api_key(None).api_key, None);
}

#[test]
fn authenticating_runs_the_helper_only_without_a_key() {
    let mut state = State::new("p".to_string(), Some(settings(Some("cmd"), None)));
    let with_store = state.authenticate(&stored("kept"));
    assert_eq!(with_store.api_url, "https://example.com/v1");
    assert_eq!(with_store.helper, None);
    assert_eq!(state.command_after_load(&with_store, Some(false)), None);
    let without = state.authenticate(&no_key());
    assert_eq!(state.command_after_load(&without, Some(true)), None);
    assert_eq!(state.command_after_load(&without, Some(false)), Some("cmd".to_string()));
    assert_eq!(state.command_after_load(&without, None), Some("cmd".to_string()));
    let helper = state.handle().unwrap();
    state.helper_finished(&helper, Ok("helped".to_string()));
    assert_eq!(state.command_after_load(&without, Some(false)), None);
}

#[test]
fn authenticating_without_a_helper_is_loading() {
    let state = State::new("p".to_string(), Some(settings(None, None)));
    let authentication = state.authenticate(&no_key());
    assert_eq!(authentication.helper, None);
    assert_eq!(state.command_after_load(&authentication, Some(false)), None);
    assert_eq!(authentication.result(Err("not found")), Err("not found"));
    assert_eq!(authentication.result::<&str>(Ok(())), Ok(()));
}

#[test]
fn authenticating_with_a_helper_ignores_the_load_error() {
    let state = State::new("p".to_string(), Some(settings(Some("cmd"), None)));
    let authentication = state.authenticate(&no_key());
    assert_eq!(authentication.result(Err("not found")), Ok(()));
}

#[test]
fn same_settings_change_nothing() {
    let mut state = State::new("p".to_string(), Some(settings(Some("cmd"), None)));
    assert_eq!(state.settings_changed(None), None);
    assert_eq!(state.settings_changed(Some(settings(Some("cmd"), None))), None);
}

#[test]
fn cache_survives_a_change_that_spares_the_helper() {
    let mut state = State::new("p".to_string(), Some(settings(Some("cmd"), Some(60))));
    let helper = state.handle().unwrap();
    state.helper_finished(&helper, Ok("helped".to_string()));
    let mut changed = settings(Some("cmd"), Some(60));
    changed.api_url = "https://other.example".to_string();
    assert_eq!(
        state.settings_changed(Some(changed)),
        Some("https://other.example".to_string())
    );
    assert_eq!(state.api_url(), "https://other.example");
    assert_eq!(state.handle(), Some(helper));
    assert_eq!(state.effective_api_key(&no_key()), Some("helped".to_string()));
}

#[test]
fn cache_is_dropped_when_the_helper_changes() {
    for changed in [
        settings(Some("other"), Some(60)),
        settings(Some("cmd"), Some(61)),
        settings(Some("cmd"), None),
        settings(None, Some(60)),
    ] {
        let mut state = State::new("p".to_string(), Some(settings(Some("cmd"), Some(60))));
        let helper = state.handle().unwrap();
        state.helper_finished(&helper, Ok("helped".to_string()));
        assert!(state.settings_changed(Some(changed)).is_some());
        assert_eq!(state.effective_api_key(&no_key()), None);
        assert_ne!(state.handle(), Some(helper));
    }
}

#[test]
fn old_helper_keeps_its_own_cache() {
    let mut state = State::new("p".to_string(), Some(settings(Some("cmd"), None)));
    let old = state.handle().unwrap();
    let begun = state.authenticate(&no_key());
    state.settings_changed(Some(settings(Some("other"), None)));
    state.helper_finished(&old, Ok("late".to_string()));
    assert_eq!(state.effective_api_key(&no_key()), None);
    assert_eq!(state.command_after_load(&begun, Some(false)), None);
    let new = state.handle().unwrap();
    assert_eq!(new.command, "other");
    state.helper_finished(&new, Ok("fresh".to_string()));
    assert_eq!(state.effective_api_key(&no_key()), Some("fresh".to_string()));
}
