use open_ai_compatible::settings::OpenAiCompatibleSettings;
use open_ai_compatible::state::{ApiKeyState, State};
use open_ai_compatible::view::{ConfigurationView, Rendering, API_KEY_PLACEHOLDER};

fn state(helper: Option<&str>) -> State {
    let mut settings = OpenAiCompatibleSettings::default();
    settings.api_url = "https://example.com/v1".to_string();
    settings.api_key_helper = helper.map(|command| command.to_string());
    State::new("acme".to_string(), Some(settings))
}

fn keys(has_key: bool, from_env_var: bool) -> ApiKeyState {
    let key = if has_key { Some("k".to_string()) } else { None };
    ApiKeyState { has_key, key, from_env_var }
}

fn loaded() -> ConfigurationView {
    let mut view = ConfigurationView::new();
    view.credentials_loaded();
    view
}

fn configured(warning: Option<&str>, status: &str, reset_tooltip: Option<&str>) -> Rendering {
    Rendering::KeyConfigured {
        warning: warning.map(|text| text.to_string()),
        status: status.to_string(),
        reset_label: "Reset API Key".to_string(),
        reset_tooltip: reset_tooltip.map(|text| text.to_string()),
    }
}

#[test]
fn new_view_is_loading() {
    let view = ConfigurationView::new();
    assert_eq!(view.api_key_editor, "");
    assert_eq!(API_KEY_PLACEHOLDER.len(), 51);
    let loading = Rendering::Loading { label: "Loading credentials\u{2026}".to_string() };
    assert_eq!(view.render(&state(None), &keys(false, false)), loading);
    assert_eq!(view.render(&state(None), &keys(true, true)), loading);
}

#[test]
fn editor_is_shown_without_a_key() {
    let view = loaded();
    assert!(view.should_render_editor(&state(None), &keys(false, false)));
    assert_eq!(
        view.render(&state(None), &keys(false, false)),
        Rendering::Editor {
            prompt: "To use Zed's agent with an OpenAI-compatible provider, you need to add an API key.".to_string(),
            hint: "You can also set the ACME_API_KEY environment variable and restart Zed.".to_string(),
        }
    );
}

#[test]
fn stored_key_is_shown_with_its_url() {
    let view = loaded();
    assert!(!view.should_render_editor(&state(None), &keys(true, false)));
    assert_eq!(
        view.render(&state(None), &keys(true, false)),
        configured(None, "API key configured for https://example.com/v1", None)
    );
}

#[test]
fn environment_key_is_shown_with_its_variable() {
    assert_eq!(
        loaded().render(&state(None), &keys(true, true)),
        configured(
            None,
            "API key set in ACME_API_KEY environment variable",
            Some("To reset your API key, unset the ACME_API_KEY environment variable."),
        )
    );
}

#[test]
fn environment_key_beside_a_helper_is_a_warning() {
    assert_eq!(
        loaded().render(&state(Some("cmd")), &keys(true, true)),
        configured(
            Some("Both ACME_API_KEY and api_key_helper are configured. The environment variable takes precedence."),
            "API key set in ACME_API_KEY environment variable",
            Some("To reset your API key, unset the ACME_API_KEY environment variable."),
        )
    );
}

#[test]
fn helper_key_is_shown_until_it_expires() {
    let mut settings = OpenAiCompatibleSettings::default();
    settings.api_key_helper = Some("cmd".to_string());
    settings.api_key_helper_ttl_secs = Some(60);
    let mut state = State::new("acme".to_string(), Some(settings));
    let helper = state.handle().unwrap();
    state.helper_finished(&helper, Ok("k".to_string()));
    let shown = configured(None, "API key obtained from helper command", None);
    assert_eq!(loaded().render(&state, &keys(false, false)), shown);
    assert_eq!(loaded().render_after(&state, &keys(false, false), 59), shown);
    assert!(matches!(
        loaded().render_after(&state, &keys(false, false), 60),
        Rendering::Editor { .. }
    ));
}

#[test]
fn saved_key_is_trimmed_and_the_editor_emptied() {
    let mut view = loaded();
    view.api_key_editor = "  sk-1 \n".to_string();
    assert_eq!(view.save_api_key(), Some("sk-1".to_string()));
    assert_eq!(view.api_key_editor, "");
    assert!(!view.loading_credentials);
}

#[test]
fn blank_editor_saves_nothing() {
    let mut view = loaded();
    view.api_key_editor = " \t".to_string();
    assert_eq!(view.save_api_key(), None);
    assert_eq!(view.api_key_editor, " \t");
}

#[test]
fn reset_empties_the_editor() {
    let mut view = loaded();
    view.api_key_editor = "sk-1".to_string();
    assert_eq!(view.reset_api_key(), None);
    assert_eq!(view.api_key_editor, "");
}
