use open_ai_compatible::model::{
    Api, LanguageModelToolChoice, LanguageModelToolSchemaFormat, OpenAiCompatibleLanguageModel,
};
use open_ai_compatible::provider::{IconName, OpenAiCompatibleLanguageModelProvider};
use open_ai_compatible::request::{Outcome, Step};
use open_ai_compatible::settings::{AvailableModel, ModelCapabilities, OpenAiCompatibleSettings};
use open_ai_compatible::state::ApiKeyState;
use open_ai_compatible::tokens::{
    can_count_tokens, count_tokens, tokenizer_model, tokens_counted, try_count_tokens, Message,
};

fn available(name: &str, tools: bool, chat_completions: bool) -> AvailableModel {
    AvailableModel {
        name: name.to_string(),
        display_name: None,
        max_tokens: 200_000,
        max_output_tokens: Some(4_096),
        capabilities: ModelCapabilities {
            tools,
            images: true,
            parallel_tool_calls: true,
            prompt_cache_key: false,
            chat_completions,
        },
    }
}

fn provider(models: Vec<AvailableModel>) -> OpenAiCompatibleLanguageModelProvider {
    let mut settings = OpenAiCompatibleSettings::default();
    settings.api_url = "https://example.com/v1".to_string();
    settings.available_models = models;
    OpenAiCompatibleLanguageModelProvider::new("acme".to_string(), Some(settings))
}

fn language_model(model: AvailableModel) -> OpenAiCompatibleLanguageModel {
    provider(Vec::new()).create_language_model(model)
}

fn message(role: &str, name: Option<&str>, content: &str) -> Message {
    Message {
        role: role.to_string(),
        content: Some(content.to_string()),
        name: name.map(|name| name.to_string()),
    }
}

fn conversation() -> Vec<Message> {
    vec![
        message("system", None, "You are a helpful, pattern-following assistant that translates corporate jargon into plain English."),
        message("system", Some("example_user"), "New synergies will help drive top-line growth."),
        message("system", Some("example_assistant"), "Things working well together will increase revenue."),
        message("system", Some("example_user"), "Let's circle back when we have more bandwidth to touch base on opportunities for increased leverage."),
        message("system", Some("example_assistant"), "Let's talk later when we're less busy about how to do better."),
        message("user", None, "This late pivot means we don't have time to boil the ocean for the client deliverable."),
    ]
}

#[test]
fn provider_is_named_after_its_id() {
    let provider = provider(Vec::new());
    assert_eq!(provider.id(), "acme");
    assert_eq!(provider.name(), "acme");
    assert_eq!(provider.icon(), IconName::AiOpenAiCompat);
    assert_eq!(provider.state.env_var_name(), "ACME_API_KEY");
}

#[test]
fn default_model_is_the_first() {
    let provider = provider(vec![available("a", true, true), available("b", true, true)]);
    assert_eq!(provider.default_model().unwrap().id(), "a");
    assert!(provider.default_fast_model().is_none());
    let names: Vec<String> = provider.provided_models().iter().map(|model| model.id()).collect();
    assert_eq!(names, vec!["a".to_string(), "b".to_string()]);
}

#[test]
fn provider_without_models_has_no_default() {
    let provider = provider(Vec::new());
    assert!(provider.default_model().is_none());
    assert!(provider.provided_models().is_empty());
}

#[test]
fn created_model_belongs_to_the_provider() {
    let model = language_model(available("m", true, true));
    assert_eq!(model.id(), "m");
    assert_eq!(model.provider_id(), "acme");
    assert_eq!(model.provider_name(), "acme");
    assert_eq!(model.request_limit, 4);
    assert_eq!(model.max_token_count(), 200_000);
    assert_eq!(model.max_output_tokens(), Some(4_096));
    assert_eq!(model.telemetry_id(), "openai/m");
    assert!(model.supports_images());
    assert!(model.supports_streaming_tools());
    assert!(model.supports_split_token_display());
    assert_eq!(model.tool_input_format(), LanguageModelToolSchemaFormat::JsonSchemaSubset);
}

#[test]
fn display_name_precedes_the_name() {
    let mut model = available("m", true, true);
    assert_eq!(language_model(model.clone()).name(), "m");
    model.display_name = Some("Model M".to_string());
    let model = language_model(model);
    assert_eq!(model.name(), "Model M");
    assert_eq!(model.id(), "m");
}

#[test]
fn tool_choice_needs_tools() {
    let with = language_model(available("m", true, true));
    let without = language_model(available("m", false, true));
    assert!(with.supports_tools() && !without.supports_tools());
    for choice in [LanguageModelToolChoice::Auto, LanguageModelToolChoice::Any] {
        assert!(with.supports_tool_choice(choice));
        assert!(!without.supports_tool_choice(choice));
    }
    assert!(with.supports_tool_choice(LanguageModelToolChoice::NoTool));
    assert!(without.supports_tool_choice(LanguageModelToolChoice::NoTool));
}

#[test]
fn plan_follows_the_capabilities() {
    let plan = language_model(available("m", true, true)).plan_request();
    assert_eq!(plan.api, Api::ChatCompletions);
    assert_eq!(plan.model, "m");
    assert!(plan.parallel_tool_calls);
    assert!(!plan.prompt_cache_key);
    assert_eq!(plan.max_output_tokens, Some(4_096));
    assert_eq!(plan.reasoning_effort, None);
    let plan = language_model(available("m", true, false)).plan_request();
    assert_eq!(plan.api, Api::Responses);
}

#[test]
fn both_interfaces_begin_alike() {
    let provider = provider(vec![available("m", true, true)]);
    let model = provider.default_model().unwrap();
    let keys = ApiKeyState { has_key: true, key: Some("k".to_string()), from_env_var: true };
    let step = model.stream_completion(&provider.state, &keys);
    assert_eq!(step, model.stream_response(&provider.state, &keys));
    match step {
        Step::Send(attempt) => {
            assert_eq!(attempt.target.provider, "acme");
            assert_eq!(attempt.api_key, "k");
        }
        step => panic!("{:?}", step),
    }
    let keys = ApiKeyState { has_key: false, key: None, from_env_var: false };
    assert_eq!(
        model.stream_response(&provider.state, &keys),
        Step::Done(Outcome::NoApiKey { provider: "acme".to_string() })
    );
}

#[test]
fn provider_delegates_to_its_state() {
    let provider = provider(Vec::new());
    let keys = ApiKeyState { has_key: true, key: Some("k".to_string()), from_env_var: true };
    assert!(provider.is_authenticated(&keys));
    assert_eq!(provider.authenticate(&keys).api_url, "https://example.com/v1");
    let change = provider.reset_credentials();
    assert_eq!(change.api_url, "https://example.com/v1");
    assert_eq!(change.api_key, None);
}

#[test]
fn tokenizer_follows_the_context_size() {
    assert_eq!(tokenizer_model(100_000), "gpt-4o");
    assert_eq!(tokenizer_model(u64::MAX), "gpt-4o");
    assert_eq!(tokenizer_model(99_999), "gpt-4");
    assert_eq!(tokenizer_model(0), "gpt-4");
}

#[test]
fn large_models_count_with_the_newer_tokenizer() {
    let messages = conversation();
    assert!(can_count_tokens(200_000, &messages));
    assert_eq!(language_model(available("m", true, true)).count_tokens(&messages).unwrap(), 124);
}

#[test]
fn small_models_count_with_the_older_tokenizer() {
    let mut model = available("m", true, true);
    model.max_tokens = 99_999;
    assert_eq!(language_model(model).count_tokens(&conversation()).unwrap(), 129);
}

#[test]
fn empty_conversation_has_only_its_frame() {
    assert_eq!(count_tokens(8_000, &Vec::new()).unwrap(), 3);
}

#[test]
fn tokenizer_result_is_passed_on() {
    assert_eq!(tokens_counted(Ok(7)).unwrap(), 7);
    let error = tokens_counted(Err(anyhow::Error::msg("no tokenizer"))).unwrap_err();
    assert_eq!(error.cause.to_string(), "no tokenizer");
}

fn countable(max_tokens: u64, text: &str) -> bool {
    can_count_tokens(max_tokens, &vec![message("user", None, text)])
}

#[test]
fn endless_words_cannot_be_counted() {
    for max_tokens in [8_000, 200_000] {
        assert!(countable(max_tokens, &"a".repeat(999_899)));
        assert!(!countable(max_tokens, &"a".repeat(999_900)));
        assert!(countable(max_tokens, &"\u{434}".repeat(999_899)));
        assert!(!countable(max_tokens, &"\u{434}".repeat(999_900)));
        assert!(!countable(max_tokens, &"\u{3000} ".repeat(500_000)));
        assert!(countable(max_tokens, &"0".repeat(1_000_000)));
        let blank_name = message("user", Some(&" ".repeat(999_900)), "hi");
        assert!(!can_count_tokens(max_tokens, &vec![blank_name]));
    }
}

#[test]
fn marked_capitals_are_short_for_the_newer_tokenizer() {
    let marked = |capitals: usize| format!("\u{301}{}", "A".repeat(capitals));
    assert!(countable(99_999, &marked(999_898)));
    assert!(!countable(99_999, &marked(999_899)));
    assert!(countable(100_000, &marked(499_898)));
    assert!(!countable(100_000, &marked(499_899)));
    assert!(countable(100_000, &format!("{}a{}", marked(499_898), "A".repeat(499_898))));
    assert!(countable(100_000, &"A".repeat(999_899)));
    assert!(countable(100_000, &"\u{e01}\u{e34}".repeat(499_949)));
    assert!(!countable(100_000, &"\u{e01}\u{e34}".repeat(499_950)));
}

#[test]
fn long_texts_with_breaks_can_be_counted() {
    for max_tokens in [8_000, 200_000] {
        assert!(countable(max_tokens, &"word ".repeat(400_000)));
        assert!(countable(max_tokens, &"a;\n".repeat(400_000)));
        assert!(countable(max_tokens, &"don't".repeat(400_000)));
        assert!(countable(max_tokens, &"\u{434}\n".repeat(600_000)));
        assert!(countable(max_tokens, &"\u{434}\u{430};".repeat(400_000)));
        assert!(countable(max_tokens, &"\u{d55c}\u{ae00},".repeat(400_000)));
        assert!(countable(max_tokens, &"\u{30ab}\u{30ca},".repeat(400_000)));
        assert!(countable(max_tokens, &"\u{4f60}\u{597d}\u{3002}".repeat(400_000)));
        assert!(countable(max_tokens, &"\u{1f600}\u{fe0f} ".repeat(400_000)));
        assert!(countable(max_tokens, &"\u{10d0}\u{10d1};".repeat(400_000)));
        assert!(countable(max_tokens, &"\u{baf}\u{bbe},".repeat(400_000)));
        assert!(countable(max_tokens, &"\u{434}\u{1f600}".repeat(500_000)));
        assert!(countable(max_tokens, &"!\n".repeat(500_000)));
    }
}

#[test]
fn slashes_after_line_ends_go_on_for_the_newer_tokenizer() {
    assert!(countable(99_999, &"/\n".repeat(500_000)));
    assert!(!countable(100_000, &"/\n".repeat(500_000)));
}

#[test]
fn uncountable_conversations_are_left_alone() {
    let endless = vec![message("user", None, &"a".repeat(999_900))];
    assert!(try_count_tokens(8_000, &endless).is_none());
    assert_eq!(try_count_tokens(8_000, &conversation()).unwrap().unwrap(), 129);
    assert_eq!(try_count_tokens(100_000, &conversation()).unwrap().unwrap(), 124);
}

#[test]
fn cyrillic_lines_are_counted() {
    let text = "\u{434}\n".repeat(20_000);
    let count = count_tokens(8_000, &vec![message("user", None, &text)]).unwrap();
    assert_eq!(count, 40_000 + 1 + 3 + 3);
}

#[test]
fn long_conversations_are_counted() {
    let text = "word ".repeat(20_000);
    let count = count_tokens(8_000, &vec![message("user", None, &text)]).unwrap();
    assert_eq!(count, 20_000 + 1 + 1 + 3 + 3);
}
