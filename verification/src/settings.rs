//! What the user configures for one provider.

use crate::text::text_of;
use vstd::prelude::*;

verus! {

/// What a model can do.
#[derive(Clone, Copy, Debug, PartialEq, Eq, Structural)]
pub struct ModelCapabilities {
    pub tools: bool,
    pub images: bool,
    pub parallel_tool_calls: bool,
    pub prompt_cache_key: bool,
    pub chat_completions: bool,
}

/// A model that the provider offers.
#[derive(Debug, PartialEq)]
pub struct AvailableModel {
    pub name: String,
    pub display_name: Option<String>,
    pub max_tokens: u64,
    pub max_output_tokens: Option<u64>,
    pub capabilities: ModelCapabilities,
}

/// An [`AvailableModel`] with its texts seen as characters.
#[verifier::ext_equal]
pub struct AvailableModelView {
    pub name: Seq<char>,
    pub display_name: Option<Seq<char>>,
    pub max_tokens: u64,
    pub max_output_tokens: Option<u64>,
    pub capabilities: ModelCapabilities,
}

impl View for AvailableModel {
    type V = AvailableModelView;

    open spec fn view(&self) -> AvailableModelView {
        AvailableModelView {
            name: self.name@,
            display_name: text_of(self.display_name),
            max_tokens: self.max_tokens,
            max_output_tokens: self.max_output_tokens,
            capabilities: self.capabilities,
        }
    }
}

/// The settings of one provider.
#[derive(Debug, PartialEq)]
pub struct OpenAiCompatibleSettings {
    pub api_url: String,
    pub available_models: Vec<AvailableModel>,
    pub api_key_helper: Option<String>,
    pub api_key_helper_ttl_secs: Option<u64>,
    pub custom_headers: Vec<(String, String)>,
}

/// [`OpenAiCompatibleSettings`] with their texts seen as characters.
#[verifier::ext_equal]
pub struct SettingsView {
    pub api_url: Seq<char>,
    pub available_models: Seq<AvailableModelView>,
    pub api_key_helper: Option<Seq<char>>,
    pub api_key_helper_ttl_secs: Option<u64>,
    pub custom_headers: Seq<(Seq<char>, Seq<char>)>,
}

/// The models of a provider, seen one by one.
pub open spec fn models_of(models: Seq<AvailableModel>) -> Seq<AvailableModelView> {
    Seq::new(models.len(), |i: int| models[i]@)
}

/// Request headers, names and values seen as characters.
pub open spec fn headers_of(headers: Seq<(String, String)>) -> Seq<(Seq<char>, Seq<char>)> {
    Seq::new(headers.len(), |i: int| (headers[i].0@, headers[i].1@))
}

impl View for OpenAiCompatibleSettings {
    type V = SettingsView;

    open spec fn view(&self) -> SettingsView {
        SettingsView {
            api_url: self.api_url@,
            available_models: models_of(self.available_models@),
            api_key_helper: text_of(self.api_key_helper),
            api_key_helper_ttl_secs: self.api_key_helper_ttl_secs,
            custom_headers: headers_of(self.custom_headers@),
        }
    }
}

impl SettingsView {
    /// The settings of a provider that is not configured.
    pub open spec fn unconfigured() -> SettingsView {
        SettingsView {
            api_url: Seq::empty(),
            available_models: Seq::empty(),
            api_key_helper: None,
            api_key_helper_ttl_secs: None,
            custom_headers: Seq::empty(),
        }
    }
}

/// True if both texts are missing, or both are there and equal.
pub(crate) fn same_text(a: &Option<String>, b: &Option<String>) -> (r: bool)
    ensures
        r == (text_of(*a) == text_of(*b)),
{
    match (a, b) {
        (Some(a), Some(b)) => *a == *b,
        (None, None) => true,
        _ => false,
    }
}

/// A copy of a text that may be missing.
pub(crate) fn copy_text(text: &Option<String>) -> (r: Option<String>)
    ensures
        text_of(r) == text_of(*text),
{
    match text {
        Some(text) => Some(text.clone()),
        None => None,
    }
}

/// A copy of request headers.
pub(crate) fn copy_headers(headers: &Vec<(String, String)>) -> (r: Vec<(String, String)>)
    ensures
        headers_of(r@) == headers_of(headers@),
{
    let mut copy: Vec<(String, String)> = Vec::new();
    let mut i: usize = 0;
    while i < headers.len()
        invariant
            i <= headers.len(),
            copy.len() == i,
            forall|j: int|
                0 <= j < i ==> (#[trigger] copy[j]).0@ == headers[j].0@ && copy[j].1@
                    == headers[j].1@,
        decreases headers.len() - i,
    {
        copy.push((headers[i].0.clone(), headers[i].1.clone()));
        i += 1;
    }
    assert(headers_of(copy@) =~= headers_of(headers@));
    copy
}

impl AvailableModel {
    /// True if the two models agree in every field.
    pub fn same_as(&self, other: &AvailableModel) -> (r: bool)
        ensures
            r == (self@ == other@),
    {
        self.name == other.name && same_text(&self.display_name, &other.display_name)
            && self.max_tokens == other.max_tokens && self.max_output_tokens
            == other.max_output_tokens && self.capabilities == other.capabilities
    }
}

impl Clone for AvailableModel {
    fn clone(&self) -> (r: AvailableModel)
        ensures
            r@ == self@,
    {
        AvailableModel {
            name: self.name.clone(),
            display_name: copy_text(&self.display_name),
            max_tokens: self.max_tokens,
            max_output_tokens: self.max_output_tokens,
            capabilities: self.capabilities,
        }
    }
}

impl OpenAiCompatibleSettings {
    /// True if the two settings agree in every field.
    pub fn same_as(&self, other: &OpenAiCompatibleSettings) -> (r: bool)
        ensures
            r == (self@ == other@),
    {
        let scalars: bool = self.api_url == other.api_url && same_text(
            &self.api_key_helper,
            &other.api_key_helper,
        ) && self.api_key_helper_ttl_secs == other.api_key_helper_ttl_secs;
        if !scalars || self.available_models.len() != other.available_models.len()
            || self.custom_headers.len() != other.custom_headers.len() {
            assert(self@.available_models.len() == self.available_models@.len());
            assert(other@.available_models.len() == other.available_models@.len());
            assert(self@.custom_headers.len() == self.custom_headers@.len());
            assert(other@.custom_headers.len() == other.custom_headers@.len());
            return false;
        }
        let mut i: usize = 0;
        while i < self.available_models.len()
            invariant
                i <= self.available_models.len(),
                self.available_models.len() == other.available_models.len(),
                forall|j: int|
                    0 <= j < i ==> (#[trigger] self.available_models[j])@
                        == other.available_models[j]@,
            decreases self.available_models.len() - i,
        {
            if !self.available_models[i].same_as(&other.available_models[i]) {
                assert(self@.available_models[i as int] != other@.available_models[i as int]);
                return false;
            }
            i += 1;
        }
        let mut i: usize = 0;
        while i < self.custom_headers.len()
            invariant
                i <= self.custom_headers.len(),
                self.custom_headers.len() == other.custom_headers.len(),
                forall|j: int|
                    0 <= j < i ==> (#[trigger] self.custom_headers[j]).0@
                        == other.custom_headers[j].0@ && self.custom_headers[j].1@
                        == other.custom_headers[j].1@,
            decreases self.custom_headers.len() - i,
        {
            let mine = &self.custom_headers[i];
            let theirs = &other.custom_headers[i];
            if mine.0 != theirs.0 || mine.1 != theirs.1 {
                assert(self@.custom_headers[i as int] != other@.custom_headers[i as int]);
                return false;
            }
            i += 1;
        }
        assert(self@.available_models =~= other@.available_models);
        assert(self@.custom_headers =~= other@.custom_headers);
        true
    }
}

impl Clone for OpenAiCompatibleSettings {
    fn clone(&self) -> (r: OpenAiCompatibleSettings)
        ensures
            r@ == self@,
    {
        let mut available_models: Vec<AvailableModel> = Vec::new();
        let mut i: usize = 0;
        while i < self.available_models.len()
            invariant
                i <= self.available_models.len(),
                available_models.len() == i,
                forall|j: int|
                    0 <= j < i ==> (#[trigger] available_models[j])@ == self.available_models[j]@,
            decreases self.available_models.len() - i,
        {
            available_models.push(self.available_models[i].clone());
            i += 1;
        }
        assert(models_of(available_models@) =~= models_of(self.available_models@));
        OpenAiCompatibleSettings {
            api_url: self.api_url.clone(),
            available_models,
            api_key_helper: copy_text(&self.api_key_helper),
            api_key_helper_ttl_secs: self.api_key_helper_ttl_secs,
            custom_headers: copy_headers(&self.custom_headers),
        }
    }
}

impl Default for OpenAiCompatibleSettings {
    fn default() -> (r: OpenAiCompatibleSettings)
        ensures
            r@ == SettingsView::unconfigured(),
    {
        let r = OpenAiCompatibleSettings {
            api_url: String::new(),
            available_models: Vec::new(),
            api_key_helper: None,
            api_key_helper_ttl_secs: None,
            custom_headers: Vec::new(),
        };
        assert(r@ =~= SettingsView::unconfigured());
        r
    }
}

/// Nothing of a configured model is lost when its texts are seen as characters.
pub proof fn law_models_are_seen_whole(model: AvailableModel)
    ensures
        model@.name == model.name@,
        model@.display_name is None <==> model.display_name is None,
        model.display_name matches Some(name) ==> model@.display_name == Some(name@),
        model@.max_tokens == model.max_tokens,
        model@.max_output_tokens == model.max_output_tokens,
        model@.capabilities.tools == model.capabilities.tools,
        model@.capabilities.images == model.capabilities.images,
        model@.capabilities.parallel_tool_calls == model.capabilities.parallel_tool_calls,
        model@.capabilities.prompt_cache_key == model.capabilities.prompt_cache_key,
        model@.capabilities.chat_completions == model.capabilities.chat_completions,
{
}

/// Headers are all seen, in their order, each with its name and its value.
pub proof fn law_headers_are_seen_whole(headers: Seq<(String, String)>)
    ensures
        headers_of(headers).len() == headers.len(),
        forall|i: int|
            0 <= i < headers.len() ==> (#[trigger] headers_of(headers)[i]).0 == headers[i].0@
                && headers_of(headers)[i].1 == headers[i].1@,
{
}

/// Nothing of the settings is lost when their texts are seen as characters: all
/// models and all headers are there, in their order.
pub proof fn law_settings_are_seen_whole(settings: OpenAiCompatibleSettings)
    ensures
        settings@.api_url == settings.api_url@,
        settings@.available_models.len() == settings.available_models@.len(),
        forall|i: int|
            0 <= i < settings.available_models@.len() ==> #[trigger] settings@.available_models[i]
                == settings.available_models@[i]@,
        settings@.api_key_helper is None <==> settings.api_key_helper is None,
        settings.api_key_helper matches Some(command) ==> settings@.api_key_helper == Some(
            command@,
        ),
        settings@.api_key_helper_ttl_secs == settings.api_key_helper_ttl_secs,
        settings@.custom_headers.len() == settings.custom_headers@.len(),
        forall|i: int|
            0 <= i < settings.custom_headers@.len() ==> (#[trigger] settings@.custom_headers[i]).0
                == settings.custom_headers@[i].0@ && settings@.custom_headers[i].1
                == settings.custom_headers@[i].1@,
{
}

/// A provider that is not configured has no URL, no models, no helper and no
/// headers.
pub proof fn law_unconfigured_settings_are_empty()
    ensures
        SettingsView::unconfigured().api_url.len() == 0,
        SettingsView::unconfigured().available_models.len() == 0,
        SettingsView::unconfigured().api_key_helper is None,
        SettingsView::unconfigured().api_key_helper_ttl_secs is None,
        SettingsView::unconfigured().custom_headers.len() == 0,
{
}

} // verus!
