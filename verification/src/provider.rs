//! A provider: its state, and the models that its settings list.

use crate::model::{LanguageModelView, OpenAiCompatibleLanguageModel};
use crate::settings::{AvailableModel, AvailableModelView, OpenAiCompatibleSettings};
use crate::state::{
    env_var_name_of, handle_of, settings_or_unconfigured, ApiKeyState, Authentication, KeyChange,
    State, StateView,
};
use vstd::prelude::*;

verus! {

/// How many requests to one model may be under way at the same time.
pub const REQUESTS_AT_ONCE: usize = 4;

/// The icon of a provider.
#[derive(Clone, Copy, Debug, PartialEq, Eq, Structural)]
pub enum IconName {
    AiOpenAiCompat,
}

/// A provider for a server that speaks the OpenAI protocol.
#[derive(Debug)]
pub struct OpenAiCompatibleLanguageModelProvider {
    pub id: String,
    pub name: String,
    pub state: State,
}

/// An [`OpenAiCompatibleLanguageModelProvider`] with its texts seen as
/// characters.
pub struct ProviderView {
    pub id: Seq<char>,
    pub name: Seq<char>,
    pub state: StateView,
}

impl View for OpenAiCompatibleLanguageModelProvider {
    type V = ProviderView;

    open spec fn view(&self) -> ProviderView {
        ProviderView { id: self.id@, name: self.name@, state: self.state@ }
    }
}

impl ProviderView {
    /// The language model that stands for a configured model.
    pub open spec fn language_model(self, model: AvailableModelView) -> LanguageModelView {
        LanguageModelView {
            id: model.name,
            provider_id: self.id,
            provider_name: self.name,
            model,
            request_limit: REQUESTS_AT_ONCE,
        }
    }

    /// The language models that stand for the configured ones, in their order.
    pub open spec fn provided_models(self) -> Seq<LanguageModelView> {
        Seq::new(
            self.state.settings.available_models.len(),
            |i: int| self.language_model(self.state.settings.available_models[i]),
        )
    }
}

/// Language models, seen one by one.
pub open spec fn language_models_of(models: Seq<OpenAiCompatibleLanguageModel>) -> Seq<
    LanguageModelView,
> {
    Seq::new(models.len(), |i: int| models[i]@)
}

impl OpenAiCompatibleLanguageModelProvider {
    /// The provider `id`, whose settings are missing if it is not configured.
    pub fn new(id: String, settings: Option<OpenAiCompatibleSettings>) -> (r:
        OpenAiCompatibleLanguageModelProvider)
        ensures
            r@.id == id@,
            r@.name == id@,
            r@.state == StateView::initial(
                id@,
                env_var_name_of(id@),
                settings_or_unconfigured(settings),
            ),
            r@.state.well_formed(),
    {
        let name = id.clone();
        let state = State::new(id.clone(), settings);
        OpenAiCompatibleLanguageModelProvider { id, name, state }
    }

    /// The language model that stands for a configured model.
    pub fn create_language_model(&self, model: AvailableModel) -> (r: OpenAiCompatibleLanguageModel)
        ensures
            r@ == self@.language_model(model@),
    {
        OpenAiCompatibleLanguageModel {
            id: model.name.clone(),
            provider_id: self.id.clone(),
            provider_name: self.name.clone(),
            model,
            request_limit: REQUESTS_AT_ONCE,
        }
    }

    pub fn id(&self) -> (r: String)
        ensures
            r@ == self@.id,
    {
        self.id.clone()
    }

    pub fn name(&self) -> (r: String)
        ensures
            r@ == self@.name,
    {
        self.name.clone()
    }

    pub fn icon(&self) -> (r: IconName)
        ensures
            r == IconName::AiOpenAiCompat,
    {
        IconName::AiOpenAiCompat
    }

    /// The model to use if the user has not chosen one: the first of the
    /// provided ones.
    pub fn default_model(&self) -> (r: Option<OpenAiCompatibleLanguageModel>)
        ensures
            r is None <==> self@.provided_models().len() == 0,
            r matches Some(model) ==> model@ == self@.provided_models()[0],
    {
        let models = &self.state.settings().available_models;
        assert(self@.provided_models().len() == models@.len());
        if models.len() == 0 {
            None
        } else {
            Some(self.create_language_model(models[0].clone()))
        }
    }

    /// There is no default for work that has to be fast.
    pub fn default_fast_model(&self) -> (r: Option<OpenAiCompatibleLanguageModel>)
        ensures
            r is None,
    {
        None
    }

    /// All models that the settings list, in their order.
    pub fn provided_models(&self) -> (r: Vec<OpenAiCompatibleLanguageModel>)
        ensures
            language_models_of(r@) == self@.provided_models(),
    {
        let models = &self.state.settings().available_models;
        let mut provided: Vec<OpenAiCompatibleLanguageModel> = Vec::new();
        let mut i: usize = 0;
        while i < models.len()
            invariant
                i <= models.len(),
                provided.len() == i,
                forall|j: int|
                    0 <= j < i ==> (#[trigger] provided[j])@ == self@.language_model(models[j]@),
            decreases models.len() - i,
        {
            provided.push(self.create_language_model(models[i].clone()));
            i += 1;
        }
        assert(language_models_of(provided@) =~= self@.provided_models());
        provided
    }

    /// True if there is a key now.
    pub fn is_authenticated(&self, keys: &ApiKeyState) -> (r: bool)
        requires
            self@.state.well_formed(),
        ensures
            exists|elapsed_secs: u64|
                self@.state.helper_has_age(elapsed_secs) && r
                    == #[trigger] self@.state.authenticated_after(*keys, elapsed_secs),
    {
        self.state.is_authenticated(keys)
    }

    /// What authenticating takes.
    pub fn authenticate(&self, keys: &ApiKeyState) -> (r: Authentication)
        requires
            self@.state.well_formed(),
        ensures
            r.api_url@ == self@.state.settings.api_url,
            handle_of(r.helper) == self@.state.helper_for_authentication(*keys),
    {
        self.state.authenticate(keys)
    }

    /// What to ask of the credential store to forget the stored key.
    pub fn reset_credentials(&self) -> (r: KeyChange)
        ensures
            r.api_url@ == self@.state.settings.api_url,
            r.api_key is None,
    {
        self.state.set_api_key(None)
    }
}

/// A provided model is known by the name it is configured with, and belongs to
/// the provider.
pub proof fn law_provided_models_carry_their_configuration(provider: ProviderView, i: int)
    requires
        0 <= i < provider.provided_models().len(),
    ensures
        provider.provided_models().len() == provider.state.settings.available_models.len(),
        provider.provided_models()[i].model == provider.state.settings.available_models[i],
        provider.provided_models()[i].id == provider.state.settings.available_models[i].name,
        provider.provided_models()[i].provider_id == provider.id,
        provider.provided_models()[i].provider_name == provider.name,
        provider.provided_models()[i].request_limit == REQUESTS_AT_ONCE,
{
}

/// Nothing of a provider is lost when its texts are seen as characters, and of
/// several language models each is seen, in their order.
pub proof fn law_providers_are_seen_whole(
    provider: OpenAiCompatibleLanguageModelProvider,
    models: Seq<OpenAiCompatibleLanguageModel>,
)
    ensures
        provider@.id == provider.id@,
        provider@.name == provider.name@,
        provider@.state == provider.state@,
        language_models_of(models).len() == models.len(),
        forall|i: int|
            0 <= i < models.len() ==> #[trigger] language_models_of(models)[i] == models[i]@,
{
}

/// The language model that stands for a configured model has its name and all of
/// its configuration, belongs to the provider, and takes four requests at once.
pub proof fn law_language_model_stands_for_the_configured_one(
    provider: ProviderView,
    model: AvailableModelView,
)
    ensures
        provider.language_model(model).id == model.name,
        provider.language_model(model).model.name == model.name,
        provider.language_model(model).model.display_name == model.display_name,
        provider.language_model(model).model.max_tokens == model.max_tokens,
        provider.language_model(model).model.max_output_tokens == model.max_output_tokens,
        provider.language_model(model).model.capabilities == model.capabilities,
        provider.language_model(model).provider_id == provider.id,
        provider.language_model(model).provider_name == provider.name,
        provider.language_model(model).request_limit == 4,
{
}

/// Every configured model is provided, in the configured order, and no other.
pub proof fn law_exactly_the_configured_models_are_provided(provider: ProviderView)
    ensures
        provider.provided_models().len() == provider.state.settings.available_models.len(),
        forall|i: int|
            0 <= i < provider.state.settings.available_models.len() ==> {
                let configured = provider.state.settings.available_models[i];
                &&& (#[trigger] provider.provided_models()[i]).id == configured.name
                &&& provider.provided_models()[i].model == configured
                &&& provider.provided_models()[i].provider_id == provider.id
                &&& provider.provided_models()[i].provider_name == provider.name
                &&& provider.provided_models()[i].request_limit == 4
            },
{
}

} // verus!
