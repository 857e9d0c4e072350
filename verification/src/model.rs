//! What a configured model offers, and how requests to it are made.

use crate::request::Step;
use crate::settings::{AvailableModel, AvailableModelView};
use crate::state::{ApiKeyState, State};
use crate::tokens::{
    self, is_countable, is_older, messages_of, token_count, tokenizer_model_of, CountTokensError,
    Message,
};
use vstd::prelude::*;

verus! {

/// How a model may be told to use tools.
#[derive(Clone, Copy, Debug, PartialEq, Eq, Structural)]
pub enum LanguageModelToolChoice {
    /// It may call a tool.
    Auto,
    /// It has to call some tool.
    Any,
    /// It may not call any tool.
    NoTool,
}

/// The dialect in which the inputs of tools are described.
#[derive(Clone, Copy, Debug, PartialEq, Eq, Structural)]
pub enum LanguageModelToolSchemaFormat {
    JsonSchema,
    JsonSchemaSubset,
}

/// The interface of the server that a request goes to.
#[derive(Clone, Copy, Debug, PartialEq, Eq, Structural)]
pub enum Api {
    ChatCompletions,
    Responses,
}

/// How a request to a model is written down, and the interface it goes to.
#[derive(Debug, PartialEq)]
pub struct RequestPlan {
    pub api: Api,
    pub model: String,
    pub parallel_tool_calls: bool,
    pub prompt_cache_key: bool,
    pub max_output_tokens: Option<u64>,
    pub reasoning_effort: Option<String>,
}

/// A model of a provider.
#[derive(Debug)]
pub struct OpenAiCompatibleLanguageModel {
    pub id: String,
    pub provider_id: String,
    pub provider_name: String,
    pub model: AvailableModel,
    pub request_limit: usize,
}

/// An [`OpenAiCompatibleLanguageModel`] with its texts seen as characters.
pub struct LanguageModelView {
    pub id: Seq<char>,
    pub provider_id: Seq<char>,
    pub provider_name: Seq<char>,
    pub model: AvailableModelView,
    pub request_limit: usize,
}

impl View for OpenAiCompatibleLanguageModel {
    type V = LanguageModelView;

    open spec fn view(&self) -> LanguageModelView {
        LanguageModelView {
            id: self.id@,
            provider_id: self.provider_id@,
            provider_name: self.provider_name@,
            model: self.model@,
            request_limit: self.request_limit,
        }
    }
}

impl LanguageModelView {
    /// The name to show: the configured one, or else that of the model.
    pub open spec fn name(self) -> Seq<char> {
        match self.model.display_name {
            Some(name) => name,
            None => self.model.name,
        }
    }

    /// True if the model follows `choice`: it needs tools for that, except to
    /// leave them alone.
    pub open spec fn supports_tool_choice(self, choice: LanguageModelToolChoice) -> bool {
        choice == LanguageModelToolChoice::NoTool || self.model.capabilities.tools
    }

    /// The interface that requests go to.
    pub open spec fn api(self) -> Api {
        if self.model.capabilities.chat_completions {
            Api::ChatCompletions
        } else {
            Api::Responses
        }
    }
}

impl OpenAiCompatibleLanguageModel {
    pub fn id(&self) -> (r: String)
        ensures
            r@ == self@.id,
    {
        self.id.clone()
    }

    /// The name to show: the configured one, or else that of the model.
    pub fn name(&self) -> (r: String)
        ensures
            r@ == self@.name(),
    {
        match &self.model.display_name {
            Some(name) => name.clone(),
            None => self.model.name.clone(),
        }
    }

    pub fn provider_id(&self) -> (r: String)
        ensures
            r@ == self@.provider_id,
    {
        self.provider_id.clone()
    }

    pub fn provider_name(&self) -> (r: String)
        ensures
            r@ == self@.provider_name,
    {
        self.provider_name.clone()
    }

    pub fn supports_tools(&self) -> (r: bool)
        ensures
            r == self@.model.capabilities.tools,
    {
        self.model.capabilities.tools
    }

    pub fn tool_input_format(&self) -> (r: LanguageModelToolSchemaFormat)
        ensures
            r == LanguageModelToolSchemaFormat::JsonSchemaSubset,
    {
        LanguageModelToolSchemaFormat::JsonSchemaSubset
    }

    pub fn supports_images(&self) -> (r: bool)
        ensures
            r == self@.model.capabilities.images,
    {
        self.model.capabilities.images
    }

    pub fn supports_tool_choice(&self, choice: LanguageModelToolChoice) -> (r: bool)
        ensures
            r == self@.supports_tool_choice(choice),
    {
        match choice {
            LanguageModelToolChoice::Auto => self.model.capabilities.tools,
            LanguageModelToolChoice::Any => self.model.capabilities.tools,
            LanguageModelToolChoice::NoTool => true,
        }
    }

    pub fn supports_streaming_tools(&self) -> (r: bool)
        ensures
            r,
    {
        true
    }

    pub fn supports_split_token_display(&self) -> (r: bool)
        ensures
            r,
    {
        true
    }

    /// The name under which use of the model is reported.
    pub fn telemetry_id(&self) -> (r: String)
        ensures
            r@ == "openai/"@ + self@.model.name,
    {
        "openai/".to_string().concat(self.model.name.as_str())
    }

    pub fn max_token_count(&self) -> (r: u64)
        ensures
            r == self@.model.max_tokens,
    {
        self.model.max_tokens
    }

    pub fn max_output_tokens(&self) -> (r: Option<u64>)
        ensures
            r == self@.model.max_output_tokens,
    {
        self.model.max_output_tokens
    }

    /// The number of tokens of a conversation, as the tokenizer counts that
    /// fits the context of the model.
    pub fn count_tokens(&self, messages: &Vec<Message>) -> (r: Result<u64, CountTokensError>)
        requires
            is_countable(
                is_older(tokenizer_model_of(self@.model.max_tokens)),
                messages_of(messages@),
            ),
        ensures
            token_count(
                tokenizer_model_of(self@.model.max_tokens),
                messages_of(messages@),
            ) matches Some(count) && r == Ok::<u64, CountTokensError>(count as u64),
    {
        tokens::count_tokens(self.max_token_count(), messages)
    }

    /// How a request to the model is written down, and the interface it goes
    /// to.
    pub fn plan_request(&self) -> (r: RequestPlan)
        ensures
            r.api == self@.api(),
            r.model@ == self@.model.name,
            r.parallel_tool_calls == self@.model.capabilities.parallel_tool_calls,
            r.prompt_cache_key == self@.model.capabilities.prompt_cache_key,
            r.max_output_tokens == self@.model.max_output_tokens,
            r.reasoning_effort is None,
    {
        let api: Api = if self.model.capabilities.chat_completions {
            Api::ChatCompletions
        } else {
            Api::Responses
        };
        RequestPlan {
            api,
            model: self.model.name.clone(),
            parallel_tool_calls: self.model.capabilities.parallel_tool_calls,
            prompt_cache_key: self.model.capabilities.prompt_cache_key,
            max_output_tokens: self.max_output_tokens(),
            reasoning_effort: None,
        }
    }

    /// The first step of a request to the chat completions interface.
    pub fn stream_completion(&self, state: &State, keys: &ApiKeyState) -> (r: Step)
        requires
            state@.well_formed(),
        ensures
            exists|elapsed_secs: u64|
                state@.helper_has_age(elapsed_secs) && r@ == #[trigger] state@.first_step(
                    self@.provider_name,
                    *keys,
                    elapsed_secs,
                ),
    {
        state.first_step(self.provider_name(), keys)
    }

    /// The first step of a request to the responses interface. It is the same
    /// as for the other one: keys are looked up, refreshed and refused alike.
    pub fn stream_response(&self, state: &State, keys: &ApiKeyState) -> (r: Step)
        requires
            state@.well_formed(),
        ensures
            exists|elapsed_secs: u64|
                state@.helper_has_age(elapsed_secs) && r@ == #[trigger] state@.first_step(
                    self@.provider_name,
                    *keys,
                    elapsed_secs,
                ),
    {
        state.first_step(self.provider_name(), keys)
    }
}

/// A model without tools follows only the choice to use none, and one with
/// tools follows every choice.
pub proof fn law_tool_choice_needs_tools(model: LanguageModelView, choice: LanguageModelToolChoice)
    ensures
        !model.model.capabilities.tools ==> (model.supports_tool_choice(choice) <==> choice
            == LanguageModelToolChoice::NoTool),
        model.model.capabilities.tools ==> model.supports_tool_choice(choice),
{
}

/// Nothing of a language model is lost when its texts are seen as characters.
pub proof fn law_language_models_are_seen_whole(model: OpenAiCompatibleLanguageModel)
    ensures
        model@.id == model.id@,
        model@.provider_id == model.provider_id@,
        model@.provider_name == model.provider_name@,
        model@.model == model.model@,
        model@.request_limit == model.request_limit,
{
}

/// Requests go to the chat completions interface exactly if the model is
/// configured for it, and else to the responses interface. Two models that agree
/// in this agree in the interface, however else they differ.
pub proof fn law_interface_depends_on_chat_completions_alone(
    model: LanguageModelView,
    other: LanguageModelView,
)
    ensures
        model.api() is ChatCompletions <==> model.model.capabilities.chat_completions,
        model.api() is Responses <==> !model.model.capabilities.chat_completions,
        model.model.capabilities.chat_completions == other.model.capabilities.chat_completions
            <==> model.api() == other.api(),
{
}

/// A model is shown under the name to display if one is configured, even an
/// empty one, and else under its own.
pub proof fn law_display_name_is_shown_if_there_is_one(model: LanguageModelView)
    ensures
        model.model.display_name matches Some(name) ==> model.name() == name,
        model.model.display_name is None ==> model.name() == model.model.name,
{
}

} // verus!
