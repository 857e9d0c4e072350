//! What the configuration view of a provider shows, and what its controls do.

use crate::state::{ApiKeyState, State, StateView};
use crate::text::{is_blank, is_white_space, text_of, trimmed};
use crate::text::{
    law_trimmed_text_has_no_blank_ends, law_trimming_empties_exactly_blank_text,
    law_trimming_removes_blank_ends, law_trimming_undoes_padding,
};
use vstd::prelude::*;

verus! {

/// What the empty editor shows.
pub const API_KEY_PLACEHOLDER: &'static str =
    "000000000000000000000000000000000000000000000000000";

/// The configuration view: what is typed into the editor for the key, and
/// whether credentials are still being loaded.
#[derive(Debug)]
pub struct ConfigurationView {
    pub api_key_editor: String,
    pub loading_credentials: bool,
}

/// What the view shows.
#[derive(Debug, PartialEq)]
pub enum Rendering {
    /// That credentials are being loaded.
    Loading { label: String },
    /// An editor for the key.
    Editor { prompt: String, hint: String },
    /// That there is a key, and a button to reset it.
    KeyConfigured {
        warning: Option<String>,
        status: String,
        reset_label: String,
        reset_tooltip: Option<String>,
    },
}

/// A [`Rendering`] with its texts seen as characters.
pub enum RenderingView {
    Loading { label: Seq<char> },
    Editor { prompt: Seq<char>, hint: Seq<char> },
    KeyConfigured {
        warning: Option<Seq<char>>,
        status: Seq<char>,
        reset_label: Seq<char>,
        reset_tooltip: Option<Seq<char>>,
    },
}

impl View for Rendering {
    type V = RenderingView;

    open spec fn view(&self) -> RenderingView {
        match *self {
            Rendering::Loading { label } => RenderingView::Loading { label: label@ },
            Rendering::Editor { prompt, hint } => RenderingView::Editor {
                prompt: prompt@,
                hint: hint@,
            },
            Rendering::KeyConfigured {
                warning,
                status,
                reset_label,
                reset_tooltip,
            } => RenderingView::KeyConfigured {
                warning: text_of(warning),
                status: status@,
                reset_label: reset_label@,
                reset_tooltip: text_of(reset_tooltip),
            },
        }
    }
}

impl StateView {
    /// What is shown while there is no key.
    pub open spec fn editor_rendering(self) -> RenderingView {
        RenderingView::Editor {
            prompt:
                "To use Zed's agent with an OpenAI-compatible provider, you need to add an API key."@,
            hint: "You can also set the "@ + self.env_var_name
                + " environment variable and restart Zed."@,
        }
    }

    /// What is shown while there is a key.
    pub open spec fn key_rendering(self, from_env_var: bool) -> RenderingView {
        let has_helper = self.settings.api_key_helper is Some;
        RenderingView::KeyConfigured {
            warning: if from_env_var && has_helper {
                Some(
                    "Both "@ + self.env_var_name
                        + " and api_key_helper are configured. The environment variable takes precedence."@,
                )
            } else {
                None
            },
            status: if from_env_var {
                "API key set in "@ + self.env_var_name + " environment variable"@
            } else if has_helper {
                "API key obtained from helper command"@
            } else {
                "API key configured for "@ + self.settings.api_url
            },
            reset_label: "Reset API Key"@,
            reset_tooltip: if from_env_var {
                Some(
                    "To reset your API key, unset the "@ + self.env_var_name
                        + " environment variable."@,
                )
            } else {
                None
            },
        }
    }

    /// What the view shows `elapsed_secs` seconds after the helper in use last
    /// gave a key.
    pub open spec fn rendering_after(
        self,
        loading: bool,
        keys: ApiKeyState,
        elapsed_secs: u64,
    ) -> RenderingView {
        if loading {
            RenderingView::Loading { label: "Loading credentials…"@ }
        } else if self.authenticated_after(keys, elapsed_secs) {
            self.key_rendering(keys.from_env_var)
        } else {
            self.editor_rendering()
        }
    }
}

/// `prefix`, then `text`, then `suffix`.
fn framed(prefix: &str, text: &String, suffix: &str) -> (r: String)
    ensures
        r@ == prefix@ + text@ + suffix@,
{
    prefix.to_string().concat(text.as_str()).concat(suffix)
}

impl ConfigurationView {
    /// A view with an empty editor, which waits for credentials to be loaded.
    pub fn new() -> (r: ConfigurationView)
        ensures
            r.api_key_editor@ == Seq::<char>::empty(),
            r.loading_credentials,
    {
        ConfigurationView { api_key_editor: String::new(), loading_credentials: true }
    }

    /// Credentials have been loaded, or could not be.
    pub fn credentials_loaded(&mut self)
        ensures
            !final(self).loading_credentials,
            final(self).api_key_editor == old(self).api_key_editor,
    {
        self.loading_credentials = false;
    }

    /// The user has confirmed the editor. Returns the key to store, without the
    /// white space around it, and empties the editor; if there is none, nothing
    /// happens.
    pub fn save_api_key(&mut self) -> (r: Option<String>)
        ensures
            trimmed(old(self).api_key_editor@).len() == 0 ==> r is None && *final(self) == *old(
                self,
            ),
            trimmed(old(self).api_key_editor@).len() > 0 ==> {
                &&& text_of(r) == Some(trimmed(old(self).api_key_editor@))
                &&& final(self).api_key_editor@ == Seq::<char>::empty()
                &&& final(self).loading_credentials == old(self).loading_credentials
            },
    {
        let api_key = self.api_key_editor.as_str().trim().to_string();
        if api_key.as_str().is_empty() {
            return None;
        }
        self.api_key_editor = String::new();
        Some(api_key)
    }

    /// The user wants the stored key to be forgotten: the editor is emptied,
    /// and no key is what there is to store.
    pub fn reset_api_key(&mut self) -> (r: Option<String>)
        ensures
            r is None,
            final(self).api_key_editor@ == Seq::<char>::empty(),
            final(self).loading_credentials == old(self).loading_credentials,
    {
        self.api_key_editor = String::new();
        None
    }

    /// True if the view has the editor to show: while there is no key.
    pub fn should_render_editor(&self, state: &State, keys: &ApiKeyState) -> (r: bool)
        requires
            state@.well_formed(),
        ensures
            exists|elapsed_secs: u64|
                state@.helper_has_age(elapsed_secs) && r == !#[trigger] state@.authenticated_after(
                    *keys,
                    elapsed_secs,
                ),
    {
        !state.is_authenticated(keys)
    }

    /// What the view shows, `elapsed_secs` seconds after the helper in use last
    /// gave a key.
    pub fn render_after(&self, state: &State, keys: &ApiKeyState, elapsed_secs: u64) -> (r:
        Rendering)
        requires
            state@.well_formed(),
        ensures
            r@ == state@.rendering_after(self.loading_credentials, *keys, elapsed_secs),
    {
        self.render_with(state, keys, !state.is_authenticated_after(keys, elapsed_secs))
    }

    /// What the view shows now.
    pub fn render(&self, state: &State, keys: &ApiKeyState) -> (r: Rendering)
        requires
            state@.well_formed(),
        ensures
            exists|elapsed_secs: u64|
                state@.helper_has_age(elapsed_secs) && r@ == #[trigger] state@.rendering_after(
                    self.loading_credentials,
                    *keys,
                    elapsed_secs,
                ),
    {
        let editor: bool = self.should_render_editor(state, keys);
        let ghost elapsed_secs = choose|elapsed_secs: u64|
            state@.helper_has_age(elapsed_secs) && editor == !#[trigger] state@.authenticated_after(
                *keys,
                elapsed_secs,
            );
        let rendering = self.render_with(state, keys, editor);
        assert(rendering@ == state@.rendering_after(self.loading_credentials, *keys, elapsed_secs));
        rendering
    }

    /// What the view shows with or without the editor.
    fn render_with(&self, state: &State, keys: &ApiKeyState, editor: bool) -> (r: Rendering)
        ensures
            r@ == (if self.loading_credentials {
                RenderingView::Loading { label: "Loading credentials…"@ }
            } else if editor {
                state@.editor_rendering()
            } else {
                state@.key_rendering(keys.from_env_var)
            }),
    {
        if self.loading_credentials {
            return Rendering::Loading { label: "Loading credentials…".to_string() };
        }
        let env_var_name = state.env_var_name();
        if editor {
            return Rendering::Editor {
                prompt:
                    "To use Zed's agent with an OpenAI-compatible provider, you need to add an API key.".to_string(),
                hint: framed(
                    "You can also set the ",
                    &env_var_name,
                    " environment variable and restart Zed.",
                ),
            };
        }
        let has_helper: bool = state.settings().api_key_helper.is_some();
        let warning: Option<String> = if keys.from_env_var && has_helper {
            Some(
                framed(
                    "Both ",
                    &env_var_name,
                    " and api_key_helper are configured. The environment variable takes precedence.",
                ),
            )
        } else {
            None
        };
        let status: String = if keys.from_env_var {
            framed("API key set in ", &env_var_name, " environment variable")
        } else if has_helper {
            "API key obtained from helper command".to_string()
        } else {
            "API key configured for ".to_string().concat(state.settings().api_url.as_str())
        };
        let reset_tooltip: Option<String> = if keys.from_env_var {
            Some(
                framed(
                    "To reset your API key, unset the ",
                    &env_var_name,
                    " environment variable.",
                ),
            )
        } else {
            None
        };
        Rendering::KeyConfigured {
            warning,
            status,
            reset_label: "Reset API Key".to_string(),
            reset_tooltip,
        }
    }
}

/// A key that the view saves is not empty and has no white space around it, and
/// one is saved unless the editor is blank.
pub proof fn law_saved_keys_are_trimmed(typed: Seq<char>)
    ensures
        trimmed(typed).len() == 0 <==> is_blank(typed),
        trimmed(typed).len() > 0 ==> !is_white_space(trimmed(typed)[0]) && !is_white_space(
            trimmed(typed)[trimmed(typed).len() - 1],
        ),
{
    law_trimming_empties_exactly_blank_text(typed);
    law_trimmed_text_has_no_blank_ends(typed);
}

/// While nothing is being loaded, the view shows the editor exactly if there is
/// no key.
pub proof fn law_editor_is_shown_exactly_without_a_key(
    state: StateView,
    keys: ApiKeyState,
    elapsed_secs: u64,
)
    ensures
        state.rendering_after(false, keys, elapsed_secs) is Editor
            <==> !state.authenticated_after(keys, elapsed_secs),
        state.rendering_after(false, keys, elapsed_secs) is KeyConfigured
            <==> state.authenticated_after(keys, elapsed_secs),
        state.rendering_after(true, keys, elapsed_secs) is Loading,
{
}

/// Nothing of what the view shows is lost when its texts are seen as characters.
pub proof fn law_renderings_are_seen_whole(rendering: Rendering)
    ensures
        rendering matches Rendering::Loading { label } ==> (
        rendering@ matches RenderingView::Loading { label: seen } && seen == label@),
        rendering matches Rendering::Editor { prompt, hint } ==> (
        rendering@ matches RenderingView::Editor { prompt: asked, hint: hinted } && asked == prompt@
            && hinted == hint@),
        rendering matches Rendering::KeyConfigured {
            warning,
            status,
            reset_label,
            reset_tooltip,
        } ==> (rendering@ matches RenderingView::KeyConfigured {
            warning: warned,
            status: told,
            reset_label: label,
            reset_tooltip: tooltip,
        } && {
            &&& warned is None <==> warning is None
            &&& warning matches Some(text) ==> warned == Some(text@)
            &&& told == status@
            &&& label == reset_label@
            &&& tooltip is None <==> reset_tooltip is None
            &&& reset_tooltip matches Some(text) ==> tooltip == Some(text@)
        }),
{
}

/// The key that the view saves is all that was typed but for white space at its
/// ends, and whatever white space is typed around a key, that key is saved.
pub proof fn law_saved_key_is_all_that_was_typed(
    typed: Seq<char>,
    front: Seq<char>,
    key: Seq<char>,
    back: Seq<char>,
)
    requires
        forall|i: int| 0 <= i < front.len() ==> is_white_space(#[trigger] front[i]),
        forall|i: int| 0 <= i < back.len() ==> is_white_space(#[trigger] back[i]),
        key.len() > 0 ==> !is_white_space(key[0]) && !is_white_space(key[key.len() - 1]),
    ensures
        exists|before: Seq<char>, after: Seq<char>| #[trigger]
            is_blank(before) && #[trigger] is_blank(after) && typed == before + trimmed(typed)
                + after,
        trimmed(front + key + back) == key,
{
    law_trimming_removes_blank_ends(typed);
    law_trimming_undoes_padding(front, key, back);
}

/// While credentials are being loaded the view says so and nothing else, whether
/// there is a key or not.
pub proof fn law_loading_hides_everything_else(
    state: StateView,
    keys: ApiKeyState,
    elapsed_secs: u64,
)
    ensures
        state.rendering_after(true, keys, elapsed_secs) matches RenderingView::Loading { label }
            && label == "Loading credentials…"@,
{
}

/// Without a key the view asks for one, and names the environment variable that
/// can hold it.
pub proof fn law_editor_names_the_environment_variable(
    state: StateView,
    keys: ApiKeyState,
    elapsed_secs: u64,
)
    requires
        !keys.has_key,
        state.helper_key_after(elapsed_secs) is None,
    ensures
        state.rendering_after(false, keys, elapsed_secs) matches RenderingView::Editor {
            prompt,
            hint,
        } && prompt
            == "To use Zed's agent with an OpenAI-compatible provider, you need to add an API key."@
            && hint == "You can also set the "@ + state.env_var_name
            + " environment variable and restart Zed."@,
{
}

/// With a key the view says where it comes from: the environment variable before
/// the helper before the key kept for the URL. It warns exactly if both of the
/// first two are configured, and tells how to reset a key exactly if that takes
/// more than the button.
pub proof fn law_key_is_shown_with_its_source(
    state: StateView,
    keys: ApiKeyState,
    elapsed_secs: u64,
)
    requires
        keys.has_key || state.helper_key_after(elapsed_secs) is Some,
    ensures
        state.rendering_after(false, keys, elapsed_secs) matches RenderingView::KeyConfigured {
            warning,
            status,
            reset_label,
            reset_tooltip,
        } && {
            &&& reset_label == "Reset API Key"@
            &&& warning is Some <==> keys.from_env_var && state.settings.api_key_helper is Some
            &&& warning matches Some(text) ==> text == "Both "@ + state.env_var_name
                + " and api_key_helper are configured. The environment variable takes precedence."@
            &&& reset_tooltip is Some <==> keys.from_env_var
            &&& reset_tooltip matches Some(text) ==> text == "To reset your API key, unset the "@
                + state.env_var_name + " environment variable."@
            &&& keys.from_env_var ==> status == "API key set in "@ + state.env_var_name
                + " environment variable"@
            &&& !keys.from_env_var && state.settings.api_key_helper is Some ==> status
                == "API key obtained from helper command"@
            &&& !keys.from_env_var && state.settings.api_key_helper is None ==> status
                == "API key configured for "@ + state.settings.api_url
        },
{
}

/// A key that the helper cached is shown as configured at every age below its
/// time to live, and the editor takes its place from then on.
pub proof fn law_editor_returns_when_the_key_expires(
    state: StateView,
    keys: ApiKeyState,
    elapsed_secs: u64,
)
    requires
        state.well_formed(),
        state.settings.api_key_helper is Some,
        !keys.has_key,
    ensures
        ({
            let ttl_secs = state.settings.api_key_helper_ttl_secs;
            let cached = state.helpers[state.current_helper->0].cached;
            let young = ttl_secs is None || elapsed_secs < ttl_secs->0;
            &&& cached is Some && young ==> state.rendering_after(
                false,
                keys,
                elapsed_secs,
            ) is KeyConfigured
            &&& cached is None || !young ==> state.rendering_after(
                false,
                keys,
                elapsed_secs,
            ) is Editor
        }),
{
}

/// The empty editor shows fifty-one zeros.
pub proof fn law_placeholder_is_made_of_zeros()
    ensures
        API_KEY_PLACEHOLDER@.len() == 51,
        forall|i: int| 0 <= i < 51 ==> #[trigger] API_KEY_PLACEHOLDER@[i] == '0',
{
    reveal_strlit("000000000000000000000000000000000000000000000000000");
}

} // verus!
