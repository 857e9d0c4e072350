//! The state of one provider: its settings and the key helpers that they ask
//! for, and what follows from both for the API key in force.

use crate::helper::{ApiKeyHelper, ApiKeyHelperView, FetchError};
use crate::settings::{copy_headers, headers_of, OpenAiCompatibleSettings, SettingsView};
use crate::text::{is_ascii_lowercase, text_of, to_upper_snake_case, upper_snake_case};
use std::time::Instant;
use vstd::prelude::*;

verus! {

/// What the credential store says of the provider's own key: whether it has
/// loaded one, which key it gives for the API URL of the provider, and whether
/// that key comes from the environment variable.
#[derive(Debug)]
pub struct ApiKeyState {
    pub has_key: bool,
    pub key: Option<String>,
    pub from_env_var: bool,
}

/// A change that the credential store is asked for: the key to keep for a URL,
/// or none to forget the one it has.
#[derive(Debug, PartialEq)]
pub struct KeyChange {
    pub api_url: String,
    pub api_key: Option<String>,
}

/// One of the helpers of a [`State`], and the command it runs.
#[derive(Debug, PartialEq)]
pub struct HelperHandle {
    pub index: usize,
    pub command: String,
}

/// A [`HelperHandle`] with the command seen as its characters.
pub struct HelperHandleView {
    pub index: int,
    pub command: Seq<char>,
}

impl View for HelperHandle {
    type V = HelperHandleView;

    open spec fn view(&self) -> HelperHandleView {
        HelperHandleView { index: self.index as int, command: self.command@ }
    }
}

/// A handle that may be missing, seen by its content.
pub open spec fn handle_of(handle: Option<HelperHandle>) -> Option<HelperHandleView> {
    match handle {
        Some(handle) => Some(handle@),
        None => None,
    }
}

/// What authenticating takes: the credential store loads the key for `api_url`
/// and, if there is a `helper`, that one may have to run next.
#[derive(Debug)]
pub struct Authentication {
    pub api_url: String,
    pub helper: Option<HelperHandle>,
}

/// The state of a provider.
///
/// A helper that the settings no longer ask for keeps its place in `helpers`:
/// work that was begun with it still reads and writes its cache, and no other.
#[derive(Debug)]
pub struct State {
    id: String,
    env_var_name: String,
    settings: OpenAiCompatibleSettings,
    helpers: Vec<ApiKeyHelper>,
    current_helper: Option<usize>,
}

/// A [`State`] with its texts seen as characters.
#[verifier::ext_equal]
pub struct StateView {
    pub id: Seq<char>,
    pub env_var_name: Seq<char>,
    pub settings: SettingsView,
    pub helpers: Seq<ApiKeyHelperView>,
    pub current_helper: Option<int>,
}

impl View for State {
    type V = StateView;

    closed spec fn view(&self) -> StateView {
        StateView {
            id: self.id@,
            env_var_name: self.env_var_name@,
            settings: self.settings@,
            helpers: Seq::new(self.helpers@.len(), |i: int| self.helpers@[i]@),
            current_helper: match self.current_helper {
                Some(index) => Some(index as int),
                None => None,
            },
        }
    }
}

/// The environment variable that can hold the key of the provider `id`.
pub open spec fn env_var_name_of(id: Seq<char>) -> Seq<char> {
    upper_snake_case(id + "_API_KEY"@)
}

impl StateView {
    /// The helper in use is the one that the settings ask for, and there is
    /// none exactly if they ask for none.
    pub open spec fn well_formed(self) -> bool {
        &&& self.current_helper is Some <==> self.settings.api_key_helper is Some
        &&& self.current_helper matches Some(index) ==> {
            &&& 0 <= index < self.helpers.len()
            &&& self.helpers[index].command == self.settings.api_key_helper->0
            &&& self.helpers[index].ttl_secs == self.settings.api_key_helper_ttl_secs
        }
    }

    /// The state of the provider `id` before anything has happened.
    pub open spec fn initial(
        id: Seq<char>,
        env_var_name: Seq<char>,
        settings: SettingsView,
    ) -> StateView {
        StateView {
            id,
            env_var_name,
            settings,
            helpers: match settings.api_key_helper {
                Some(command) => seq![
                    ApiKeyHelperView::fresh(command, settings.api_key_helper_ttl_secs),
                ],
                None => Seq::empty(),
            },
            current_helper: if settings.api_key_helper is Some {
                Some(0)
            } else {
                None
            },
        }
    }

    /// The helper in use.
    pub open spec fn helper(self) -> Option<ApiKeyHelperView> {
        match self.current_helper {
            Some(index) => Some(self.helpers[index]),
            None => None,
        }
    }

    /// The helper in use, as a handle.
    pub open spec fn handle(self) -> Option<HelperHandleView> {
        match self.current_helper {
            Some(index) => Some(HelperHandleView { index, command: self.helpers[index].command }),
            None => None,
        }
    }

    /// True if `handle` stands for one of the helpers.
    pub open spec fn knows(self, handle: HelperHandleView) -> bool {
        0 <= handle.index < self.helpers.len() && self.helpers[handle.index].command
            == handle.command
    }

    /// True if the helper in use runs `command` and its keys live for
    /// `ttl_secs`.
    pub open spec fn uses_helper(self, command: Seq<char>, ttl_secs: Option<u64>) -> bool {
        self.helper() matches Some(helper) && helper.command == command && helper.ttl_secs
            == ttl_secs
    }

    /// The state once the settings are `settings`: a helper that already runs
    /// the same command with the same time to live stays, with its cache; else
    /// a fresh one takes its place.
    pub open spec fn with_settings(self, settings: SettingsView) -> StateView {
        match settings.api_key_helper {
            None => StateView { settings, current_helper: None, ..self },
            Some(command) => if self.uses_helper(command, settings.api_key_helper_ttl_secs) {
                StateView { settings, ..self }
            } else {
                StateView {
                    settings,
                    helpers: self.helpers.push(
                        ApiKeyHelperView::fresh(command, settings.api_key_helper_ttl_secs),
                    ),
                    current_helper: Some(self.helpers.len() as int),
                    ..self
                }
            },
        }
    }

    /// The key that the cache of a helper holds and that is still good
    /// `elapsed_secs` seconds after it was obtained.
    pub open spec fn cached_key_after(self, index: int, elapsed_secs: u64) -> Option<Seq<char>> {
        if 0 <= index < self.helpers.len() {
            self.helpers[index].key_after(elapsed_secs)
        } else {
            None
        }
    }

    /// True if the clock can tell that the key in the cache of a helper is
    /// `secs` seconds old. Where there is no key, its age is zero.
    pub open spec fn cached_has_age(self, index: int, secs: u64) -> bool {
        if 0 <= index < self.helpers.len() {
            self.helpers[index].has_age(secs)
        } else {
            secs == 0
        }
    }

    /// True if the clock can tell that the cached key of the helper in use is
    /// `secs` seconds old.
    pub open spec fn helper_has_age(self, secs: u64) -> bool {
        match self.current_helper {
            Some(index) => self.cached_has_age(index, secs),
            None => secs == 0,
        }
    }

    /// True if the clock can tell that the cached key of the helper that takes
    /// part in authenticating is `secs` seconds old.
    pub open spec fn handle_has_age(self, helper: Option<HelperHandleView>, secs: u64) -> bool {
        match helper {
            Some(helper) => self.cached_has_age(helper.index, secs),
            None => secs == 0,
        }
    }

    /// The key that the helper in use has cached.
    pub open spec fn helper_key_after(self, elapsed_secs: u64) -> Option<Seq<char>> {
        match self.helper() {
            Some(helper) => helper.key_after(elapsed_secs),
            None => None,
        }
    }

    /// True if there is a key: one in the credential store, or one that the
    /// helper in use has cached.
    pub open spec fn authenticated_after(self, keys: ApiKeyState, elapsed_secs: u64) -> bool {
        keys.has_key || self.helper_key_after(elapsed_secs) is Some
    }

    /// The key in force: that of the credential store before the one that the
    /// helper in use has cached.
    pub open spec fn effective_key_after(self, keys: ApiKeyState, elapsed_secs: u64) -> Option<
        Seq<char>,
    > {
        match keys.key {
            Some(key) => Some(key@),
            None => self.helper_key_after(elapsed_secs),
        }
    }

    /// The helper that takes part in authenticating.
    pub open spec fn helper_for_authentication(self, keys: ApiKeyState) -> Option<
        HelperHandleView,
    > {
        if keys.has_key {
            None
        } else {
            self.handle()
        }
    }

    /// The command that runs once the credential store has been asked: that of
    /// the helper, unless there is a key by now, in the store or in its cache.
    pub open spec fn command_after_load(
        self,
        helper: Option<HelperHandleView>,
        has_key: Option<bool>,
        elapsed_secs: u64,
    ) -> Option<Seq<char>> {
        match helper {
            Some(helper) => if has_key != Some(true) && self.cached_key_after(
                helper.index,
                elapsed_secs,
            ) is None {
                Some(helper.command)
            } else {
                None
            },
            None => None,
        }
    }

    /// The state with `key` in the cache of a helper.
    pub open spec fn with_key(self, index: int, key: Seq<char>, now: Instant) -> StateView {
        if 0 <= index < self.helpers.len() {
            StateView {
                helpers: self.helpers.update(index, self.helpers[index].with_key(key, now)),
                ..self
            }
        } else {
            self
        }
    }

    /// The state with nothing in the cache of a helper.
    pub open spec fn without_key(self, index: int) -> StateView {
        if 0 <= index < self.helpers.len() {
            StateView {
                helpers: self.helpers.update(index, self.helpers[index].without_key()),
                ..self
            }
        } else {
            self
        }
    }
}

/// The settings that a provider starts with, the missing ones being empty.
pub open spec fn settings_or_unconfigured(
    settings: Option<OpenAiCompatibleSettings>,
) -> SettingsView {
    match settings {
        Some(settings) => settings@,
        None => SettingsView::unconfigured(),
    }
}

/// The environment variable that can hold the key of the provider `id`: its id
/// and `_API_KEY`, in upper case, with underscores between the words.
pub fn env_var_name_for(id: &String) -> (r: String)
    ensures
        r@ == env_var_name_of(id@),
        forall|i: int| 0 <= i < r@.len() ==> !is_ascii_lowercase(#[trigger] r@[i]),
{
    to_upper_snake_case(id.clone().concat("_API_KEY").as_str())
}

impl State {
    /// The state of the provider `id`, whose settings are missing if it is not
    /// configured.
    pub fn new(id: String, settings: Option<OpenAiCompatibleSettings>) -> (r: State)
        ensures
            r@ == StateView::initial(
                id@,
                env_var_name_of(id@),
                settings_or_unconfigured(settings),
            ),
            r@.well_formed(),
    {
        let env_var_name = env_var_name_for(&id);
        State::with_env_var_name(id, env_var_name, settings)
    }

    /// As [`State::new`], with a given name for the environment variable.
    pub fn with_env_var_name(
        id: String,
        env_var_name: String,
        settings: Option<OpenAiCompatibleSettings>,
    ) -> (r: State)
        ensures
            r@ == StateView::initial(id@, env_var_name@, settings_or_unconfigured(settings)),
            r@.well_formed(),
    {
        let settings = match settings {
            Some(settings) => settings,
            None => OpenAiCompatibleSettings::default(),
        };
        let mut helpers: Vec<ApiKeyHelper> = Vec::new();
        let mut current_helper: Option<usize> = None;
        if let Some(command) = &settings.api_key_helper {
            helpers.push(ApiKeyHelper::new(command.clone(), settings.api_key_helper_ttl_secs));
            current_helper = Some(0);
        }
        let r = State { id, env_var_name, settings, helpers, current_helper };
        assert(r@ =~= StateView::initial(r@.id, r@.env_var_name, r@.settings));
        r
    }

    /// Takes over the settings that are now configured, if there are any and
    /// they differ from the present ones. Returns then the API URL that the
    /// credential store has to be told of.
    pub fn settings_changed(&mut self, settings: Option<OpenAiCompatibleSettings>) -> (r: Option<
        String,
    >)
        requires
            old(self)@.well_formed(),
        ensures
            final(self)@.well_formed(),
            settings is None || settings->0@ == old(self)@.settings ==> r is None && *final(self)
                == *old(self),
            settings is Some && settings->0@ != old(self)@.settings ==> text_of(r) == Some(
                settings->0@.api_url,
            ) && final(self)@ == old(self)@.with_settings(settings->0@),
    {
        let settings = match settings {
            Some(settings) => settings,
            None => {
                return None;
            },
        };
        if self.settings.same_as(&settings) {
            return None;
        }
        let api_url = settings.api_url.clone();
        let ghost before = self@;
        match &settings.api_key_helper {
            None => {
                self.current_helper = None;
            },
            Some(command) => {
                let keep: bool = match self.current_helper {
                    Some(index) => self.helpers[index].command == *command
                        && self.helpers[index].ttl_secs == settings.api_key_helper_ttl_secs,
                    None => false,
                };
                if !keep {
                    self.current_helper = Some(self.helpers.len());
                    self.helpers.push(
                        ApiKeyHelper::new(command.clone(), settings.api_key_helper_ttl_secs),
                    );
                }
            },
        }
        self.settings = settings;
        assert(self@ =~= before.with_settings(self@.settings));
        Some(api_url)
    }

    /// The API URL to ask the credential store for.
    pub fn api_url(&self) -> (r: String)
        ensures
            r@ == self@.settings.api_url,
    {
        self.settings.api_url.clone()
    }

    /// The headers that the settings add to each request.
    pub fn custom_headers(&self) -> (r: Vec<(String, String)>)
        ensures
            headers_of(r@) == self@.settings.custom_headers,
    {
        copy_headers(&self.settings.custom_headers)
    }

    /// The environment variable that can hold the key.
    pub fn env_var_name(&self) -> (r: String)
        ensures
            r@ == self@.env_var_name,
    {
        self.env_var_name.clone()
    }

    /// The settings in force.
    pub fn settings(&self) -> (r: &OpenAiCompatibleSettings)
        ensures
            r@ == self@.settings,
    {
        &self.settings
    }

    /// The helper in use.
    pub fn handle(&self) -> (r: Option<HelperHandle>)
        requires
            self@.well_formed(),
        ensures
            handle_of(r) == self@.handle(),
    {
        match self.current_helper {
            Some(index) => Some(
                HelperHandle { index, command: self.helpers[index].command.clone() },
            ),
            None => None,
        }
    }
}

impl State {
    /// How many seconds ago the key in the cache of a helper was obtained, or
    /// zero if there is none.
    fn cache_age_secs(&self, index: usize) -> (r: u64)
        ensures
            self@.cached_has_age(index as int, r),
    {
        if index < self.helpers.len() {
            self.helpers[index].cache_age_secs()
        } else {
            0
        }
    }

    /// The age of the cached key of the helper in use, as above.
    fn helper_age_secs(&self) -> (r: u64)
        ensures
            self@.helper_has_age(r),
    {
        match self.current_helper {
            Some(index) => self.cache_age_secs(index),
            None => 0,
        }
    }

    /// The key that the helper in use has cached, if it is still good
    /// `elapsed_secs` seconds after it was obtained.
    fn helper_key_after(&self, elapsed_secs: u64) -> (r: Option<String>)
        requires
            self@.well_formed(),
        ensures
            text_of(r) == self@.helper_key_after(elapsed_secs),
    {
        match self.current_helper {
            Some(index) => self.helpers[index].get_cached_after(elapsed_secs),
            None => None,
        }
    }

    /// True if there is a key `elapsed_secs` seconds after the helper in use
    /// last gave one.
    pub fn is_authenticated_after(&self, keys: &ApiKeyState, elapsed_secs: u64) -> (r: bool)
        requires
            self@.well_formed(),
        ensures
            r == self@.authenticated_after(*keys, elapsed_secs),
    {
        keys.has_key || self.helper_key_after(elapsed_secs).is_some()
    }

    /// True if there is a key now.
    pub fn is_authenticated(&self, keys: &ApiKeyState) -> (r: bool)
        requires
            self@.well_formed(),
        ensures
            exists|elapsed_secs: u64|
                self@.helper_has_age(elapsed_secs) && r == #[trigger] self@.authenticated_after(
                    *keys,
                    elapsed_secs,
                ),
    {
        let elapsed_secs: u64 = self.helper_age_secs();
        self.is_authenticated_after(keys, elapsed_secs)
    }

    /// The key in force `elapsed_secs` seconds after the helper in use last
    /// gave one.
    pub fn effective_api_key_after(&self, keys: &ApiKeyState, elapsed_secs: u64) -> (r: Option<
        String,
    >)
        requires
            self@.well_formed(),
        ensures
            text_of(r) == self@.effective_key_after(*keys, elapsed_secs),
    {
        match &keys.key {
            Some(key) => Some(key.clone()),
            None => self.helper_key_after(elapsed_secs),
        }
    }

    /// The key in force now, with priority: environment variable, then
    /// keychain, then what the helper has cached.
    pub fn effective_api_key(&self, keys: &ApiKeyState) -> (r: Option<String>)
        requires
            self@.well_formed(),
        ensures
            exists|elapsed_secs: u64|
                self@.helper_has_age(elapsed_secs) && text_of(r)
                    == #[trigger] self@.effective_key_after(*keys, elapsed_secs),
    {
        let elapsed_secs: u64 = self.helper_age_secs();
        self.effective_api_key_after(keys, elapsed_secs)
    }

    /// What to ask of the credential store to make `api_key` the stored key, or
    /// to forget the stored key.
    pub fn set_api_key(&self, api_key: Option<String>) -> (r: KeyChange)
        ensures
            r.api_url@ == self@.settings.api_url,
            text_of(r.api_key) == text_of(api_key),
    {
        KeyChange { api_url: self.settings.api_url.clone(), api_key }
    }

    /// What authenticating takes. A helper is part of it if one is configured
    /// and there is no key in the credential store once loading has begun.
    pub fn authenticate(&self, keys: &ApiKeyState) -> (r: Authentication)
        requires
            self@.well_formed(),
        ensures
            r.api_url@ == self@.settings.api_url,
            handle_of(r.helper) == self@.helper_for_authentication(*keys),
    {
        let helper: Option<HelperHandle> = if self.settings.api_key_helper.is_some()
            && !keys.has_key {
            self.handle()
        } else {
            None
        };
        Authentication { api_url: self.settings.api_url.clone(), helper }
    }

    /// The command to run once the credential store has been asked, if any.
    /// `has_key` is whether it has a key now, or nothing if that can no longer
    /// be told, and `elapsed_secs` is the age of the key that the helper has
    /// cached.
    pub fn command_after_load_at(
        &self,
        authentication: &Authentication,
        has_key: Option<bool>,
        elapsed_secs: u64,
    ) -> (r: Option<String>)
        ensures
            text_of(r) == self@.command_after_load(
                handle_of(authentication.helper),
                has_key,
                elapsed_secs,
            ),
    {
        let still_no_static_key: bool = match has_key {
            Some(has_key) => !has_key,
            None => true,
        };
        match &authentication.helper {
            Some(helper) => {
                let cached: Option<String> = if helper.index < self.helpers.len() {
                    self.helpers[helper.index].get_cached_after(elapsed_secs)
                } else {
                    None
                };
                if still_no_static_key && cached.is_none() {
                    Some(helper.command.clone())
                } else {
                    None
                }
            },
            None => None,
        }
    }

    /// The command to run now that the credential store has been asked, if
    /// any.
    pub fn command_after_load(&self, authentication: &Authentication, has_key: Option<bool>) -> (r:
        Option<String>)
        ensures
            exists|elapsed_secs: u64|
                self@.handle_has_age(handle_of(authentication.helper), elapsed_secs) && text_of(r)
                    == #[trigger] self@.command_after_load(
                    handle_of(authentication.helper),
                    has_key,
                    elapsed_secs,
                ),
    {
        let elapsed_secs: u64 = match &authentication.helper {
            Some(helper) => self.cache_age_secs(helper.index),
            None => 0,
        };
        self.command_after_load_at(authentication, has_key, elapsed_secs)
    }

    /// Takes in what a helper gave at the moment `now` in the course of
    /// authenticating. A key is cached, and nothing is returned: the views are
    /// then told of the change. An error leaves everything as it was and is
    /// returned as a line for the log.
    pub fn helper_finished_at(
        &mut self,
        helper: &HelperHandle,
        fetched: Result<String, FetchError>,
        now: Instant,
    ) -> (r: Option<String>)
        ensures
            fetched matches Ok(key) ==> r is None && final(self)@ == old(self)@.with_key(
                helper.index as int,
                key@,
                now,
            ),
            fetched matches Err(error) ==> *final(self) == *old(self) && (r matches Some(line)
                && error.is_told_by("api_key_helper failed"@, line@)),
            old(self)@.well_formed() ==> final(self)@.well_formed(),
    {
        match fetched {
            Ok(key) => {
                self.store_at(helper.index, key, now);
                None
            },
            Err(error) => Some(error.log_line("api_key_helper failed")),
        }
    }

    /// Takes in what a helper gave just now in the course of authenticating.
    pub fn helper_finished(&mut self, helper: &HelperHandle, fetched: Result<String, FetchError>)
        -> (r: Option<String>)
        ensures
            fetched matches Ok(key) ==> r is None && exists|now: Instant|
                call_ensures(Instant::now, (), now) && final(self)@ == #[trigger] old(
                    self,
                )@.with_key(helper.index as int, key@, now),
            fetched matches Err(error) ==> *final(self) == *old(self) && (r matches Some(line)
                && error.is_told_by("api_key_helper failed"@, line@)),
            old(self)@.well_formed() ==> final(self)@.well_formed(),
    {
        self.helper_finished_at(helper, fetched, Instant::now())
    }

    /// Puts `key` into the cache of a helper, as obtained at the moment `now`.
    pub(crate) fn store_at(&mut self, index: usize, key: String, now: Instant)
        ensures
            final(self)@ == old(self)@.with_key(index as int, key@, now),
            old(self)@.well_formed() ==> final(self)@.well_formed(),
    {
        if index < self.helpers.len() {
            let ghost before = self@;
            self.helpers[index].store_at(key, now);
            assert(self@ =~= before.with_key(index as int, key@, now));
        }
    }

    /// Empties the cache of a helper.
    pub(crate) fn invalidate(&mut self, index: usize)
        ensures
            final(self)@ == old(self)@.without_key(index as int),
            old(self)@.well_formed() ==> final(self)@.well_formed(),
    {
        if index < self.helpers.len() {
            let ghost before = self@;
            self.helpers[index].invalidate();
            assert(self@ =~= before.without_key(index as int));
        }
    }
}

impl Authentication {
    /// How authenticating ends when the credential store answered `loaded`: a
    /// helper makes up for a key that could not be loaded.
    pub fn result<E>(&self, loaded: Result<(), E>) -> (r: Result<(), E>)
        ensures
            r == (if self.helper is Some {
                Ok(())
            } else {
                loaded
            }),
    {
        if self.helper.is_some() {
            Ok(())
        } else {
            loaded
        }
    }
}

/// A new state keeps the rules that tie the helper in use to the settings.
pub proof fn law_initial_state_is_well_formed(
    id: Seq<char>,
    env_var_name: Seq<char>,
    settings: SettingsView,
)
    ensures
        StateView::initial(id, env_var_name, settings).well_formed(),
{
}

/// Changed settings, and whatever is cached or forgotten, keep those rules.
pub proof fn law_operations_keep_the_state_well_formed(
    state: StateView,
    settings: SettingsView,
    index: int,
    key: Seq<char>,
    now: Instant,
)
    requires
        state.well_formed(),
    ensures
        state.with_settings(settings).well_formed(),
        state.with_key(index, key, now).well_formed(),
        state.without_key(index).well_formed(),
{
}

/// Nothing changes the id of a provider or the name of its environment
/// variable, and only changed settings change its settings.
pub proof fn law_identity_never_changes(
    state: StateView,
    settings: SettingsView,
    index: int,
    key: Seq<char>,
    now: Instant,
)
    ensures
        state.with_settings(settings).id == state.id,
        state.with_settings(settings).env_var_name == state.env_var_name,
        state.with_settings(settings).settings == settings,
        state.with_key(index, key, now).id == state.id,
        state.with_key(index, key, now).env_var_name == state.env_var_name,
        state.with_key(index, key, now).settings == state.settings,
        state.without_key(index).id == state.id,
        state.without_key(index).env_var_name == state.env_var_name,
        state.without_key(index).settings == state.settings,
{
}

/// Changed settings keep what is cached if the helper command and its time to
/// live are the same, and else start with an empty cache.
pub proof fn law_cache_survives_unless_the_helper_changes(
    state: StateView,
    settings: SettingsView,
    elapsed_secs: u64,
)
    requires
        state.well_formed(),
    ensures
        settings.api_key_helper == state.settings.api_key_helper
            && settings.api_key_helper_ttl_secs == state.settings.api_key_helper_ttl_secs ==> {
            &&& state.with_settings(settings).helper() == state.helper()
            &&& state.with_settings(settings).handle() == state.handle()
        },
        settings.api_key_helper != state.settings.api_key_helper
            || settings.api_key_helper_ttl_secs != state.settings.api_key_helper_ttl_secs ==>
            state.with_settings(settings).helper_key_after(elapsed_secs) is None,
{
}

/// Changed settings leave every helper that there was in its place, cache
/// included, so that work begun with one goes on with it.
pub proof fn law_changed_settings_keep_the_helpers(state: StateView, settings: SettingsView)
    ensures
        state.helpers.len() <= state.with_settings(settings).helpers.len(),
        forall|i: int|
            0 <= i < state.helpers.len() ==> #[trigger] state.with_settings(settings).helpers[i]
                == state.helpers[i],
        forall|handle: HelperHandleView| #[trigger]
            state.knows(handle) ==> state.with_settings(settings).knows(handle),
{
}

/// Taking over the same settings twice is taking them over once.
pub proof fn law_taking_over_settings_twice_is_once(state: StateView, settings: SettingsView)
    requires
        state.well_formed(),
    ensures
        state.with_settings(settings).with_settings(settings) == state.with_settings(settings),
{
    assert(state.with_settings(settings).with_settings(settings) =~= state.with_settings(settings));
}

/// A key in the credential store wins over the helper: nothing that the helper
/// caches or forgets, and no passing of time, changes the key in force.
pub proof fn law_stored_key_takes_precedence(
    state: StateView,
    keys: ApiKeyState,
    index: int,
    key: Seq<char>,
    now: Instant,
    elapsed_secs: u64,
)
    requires
        keys.key is Some,
    ensures
        state.effective_key_after(keys, elapsed_secs) == text_of(keys.key),
        state.with_key(index, key, now).effective_key_after(keys, elapsed_secs) == text_of(
            keys.key,
        ),
        state.without_key(index).effective_key_after(keys, elapsed_secs) == text_of(keys.key),
{
}

/// Without a key in the credential store, a key that the helper in use has just
/// given is in force while it is young enough, and none is once it is
/// forgotten.
pub proof fn law_helper_key_is_in_force_without_a_stored_key(
    state: StateView,
    keys: ApiKeyState,
    key: Seq<char>,
    now: Instant,
    elapsed_secs: u64,
)
    requires
        state.well_formed(),
        state.current_helper is Some,
        keys.key is None,
    ensures
        state.settings.api_key_helper_ttl_secs is None || elapsed_secs
            < state.settings.api_key_helper_ttl_secs->0 ==> state.with_key(
            state.current_helper->0,
            key,
            now,
        ).effective_key_after(keys, elapsed_secs) == Some(key),
        state.without_key(state.current_helper->0).effective_key_after(keys, elapsed_secs) is None,
{
}

/// A provider is authenticated exactly if it has a key to send, provided that
/// the credential store gives a key exactly if it says it has one.
pub proof fn law_authenticated_means_a_key_is_in_force(
    state: StateView,
    keys: ApiKeyState,
    elapsed_secs: u64,
)
    requires
        keys.has_key <==> keys.key is Some,
    ensures
        state.authenticated_after(keys, elapsed_secs) <==> state.effective_key_after(
            keys,
            elapsed_secs,
        ) is Some,
{
}

/// Authenticating never runs a helper while there is a key: not with one in the
/// credential store before or after loading, not with a good one in its cache,
/// and not if none is configured. Else it runs the configured command.
pub proof fn law_helper_runs_only_without_a_key(
    state: StateView,
    keys: ApiKeyState,
    has_key: Option<bool>,
    elapsed_secs: u64,
)
    requires
        state.well_formed(),
    ensures
        state.command_after_load(
            state.helper_for_authentication(keys),
            has_key,
            elapsed_secs,
        ) == (if keys.has_key || has_key == Some(true) || state.helper_key_after(
            elapsed_secs,
        ) is Some {
            None
        } else {
            state.settings.api_key_helper
        }),
{
}

/// Writing to the cache of one helper leaves the caches of the others alone.
pub proof fn law_caches_are_separate(
    state: StateView,
    index: int,
    other: int,
    key: Seq<char>,
    now: Instant,
    elapsed_secs: u64,
)
    requires
        index != other,
    ensures
        state.with_key(index, key, now).cached_key_after(other, elapsed_secs)
            == state.cached_key_after(other, elapsed_secs),
        state.without_key(index).cached_key_after(other, elapsed_secs) == state.cached_key_after(
            other,
            elapsed_secs,
        ),
{
}

/// Nothing of a handle is lost when its command is seen as characters, nor that
/// it is missing.
pub proof fn law_handles_are_seen_whole(handle: Option<HelperHandle>)
    ensures
        handle is None <==> handle_of(handle) is None,
        handle matches Some(there) ==> (handle_of(handle) matches Some(seen) && seen.index
            == there.index && seen.command == there.command@),
{
}

/// The environment variable is named after the whole id, with `_API_KEY` behind
/// it.
pub proof fn law_env_var_is_named_after_the_id(id: Seq<char>)
    ensures
        env_var_name_of(id) == upper_snake_case(id + "_API_KEY"@),
{
}

/// A provider starts with the settings it is configured with, and with empty
/// ones if it is not.
pub proof fn law_missing_settings_are_empty(settings: Option<OpenAiCompatibleSettings>)
    ensures
        settings matches Some(given) ==> settings_or_unconfigured(settings) == given@,
        settings is None ==> settings_or_unconfigured(settings).api_url.len() == 0
            && settings_or_unconfigured(settings).available_models.len() == 0
            && settings_or_unconfigured(settings).api_key_helper is None
            && settings_or_unconfigured(settings).api_key_helper_ttl_secs is None
            && settings_or_unconfigured(settings).custom_headers.len() == 0,
{
}

/// A new state holds the very id, variable name and settings that it was given.
/// It has one helper, without a key, for the command that they ask for, and none
/// if they ask for none.
pub proof fn law_new_state_holds_what_it_was_given(
    id: Seq<char>,
    env_var_name: Seq<char>,
    settings: SettingsView,
)
    ensures
        ({
            let state = StateView::initial(id, env_var_name, settings);
            &&& state.id == id
            &&& state.env_var_name == env_var_name
            &&& state.settings.api_url == settings.api_url
            &&& state.settings.available_models == settings.available_models
            &&& state.settings.api_key_helper == settings.api_key_helper
            &&& state.settings.api_key_helper_ttl_secs == settings.api_key_helper_ttl_secs
            &&& state.settings.custom_headers == settings.custom_headers
            &&& settings.api_key_helper is None ==> state.helpers.len() == 0
                && state.current_helper is None
            &&& settings.api_key_helper matches Some(command) ==> {
                &&& state.helpers.len() == 1
                &&& state.current_helper == Some(0int)
                &&& state.helpers[0].command == command
                &&& state.helpers[0].ttl_secs == settings.api_key_helper_ttl_secs
                &&& state.helpers[0].cached is None
            }
        }),
{
}

/// A well-formed state uses a helper exactly if its settings ask for one, and
/// then one with their command and their time to live.
pub proof fn law_helper_in_use_is_the_configured_one(state: StateView)
    ensures
        state.well_formed() <==> {
            &&& state.settings.api_key_helper is None ==> state.current_helper is None
            &&& state.settings.api_key_helper matches Some(command) ==> (
            state.current_helper matches Some(index) && 0 <= index < state.helpers.len()
                && state.helpers[index].command == command && state.helpers[index].ttl_secs
                == state.settings.api_key_helper_ttl_secs)
        },
{
}

/// The handle of the helper in use names its place and its command, and there
/// is one exactly if a helper is in use.
pub proof fn law_handle_names_the_helper_in_use(state: StateView)
    ensures
        state.handle() is Some <==> state.current_helper is Some,
        state.helper() is Some <==> state.current_helper is Some,
        state.current_helper matches Some(index) ==> {
            &&& state.handle() matches Some(handle) && handle.index == index && handle.command
                == state.helpers[index].command
            &&& state.helper() == Some(state.helpers[index])
        },
        state.well_formed() ==> (state.handle() is Some <==> state.settings.api_key_helper is Some)
            && (state.handle() matches Some(handle) ==> Some(handle.command)
            == state.settings.api_key_helper && state.knows(handle)),
{
}

/// A handle is known exactly if there is a helper in its place that runs its
/// command.
pub proof fn law_known_handles_name_a_helper(state: StateView, handle: HelperHandleView)
    ensures
        state.knows(handle) <==> 0 <= handle.index < state.helpers.len()
            && state.helpers[handle.index].command == handle.command,
{
}

/// Changed settings are taken over as they are. A helper stays in use exactly if
/// the new settings ask for the same command with the same time to live; else
/// one without a key is put behind the others if they ask for a helper, and no
/// helper is in use if they do not.
pub proof fn law_changed_settings_decide_on_the_helper(state: StateView, settings: SettingsView)
    requires
        state.well_formed(),
    ensures
        ({
            let changed = state.with_settings(settings);
            let same = settings.api_key_helper == state.settings.api_key_helper
                && settings.api_key_helper_ttl_secs == state.settings.api_key_helper_ttl_secs;
            &&& changed.id == state.id
            &&& changed.env_var_name == state.env_var_name
            &&& changed.settings.api_url == settings.api_url
            &&& changed.settings.available_models == settings.available_models
            &&& changed.settings.api_key_helper == settings.api_key_helper
            &&& changed.settings.api_key_helper_ttl_secs == settings.api_key_helper_ttl_secs
            &&& changed.settings.custom_headers == settings.custom_headers
            &&& settings.api_key_helper is None ==> changed.current_helper is None
                && changed.helpers == state.helpers
            &&& settings.api_key_helper is Some && same ==> changed.current_helper
                == state.current_helper && changed.helpers == state.helpers
            &&& settings.api_key_helper matches Some(command) ==> !same ==> {
                let count = state.helpers.len() as int;
                &&& changed.current_helper == Some(count)
                &&& changed.helpers.len() == count + 1
                &&& changed.helpers[count].command == command
                &&& changed.helpers[count].ttl_secs == settings.api_key_helper_ttl_secs
                &&& changed.helpers[count].cached is None
                &&& forall|i: int|
                    0 <= i < count ==> #[trigger] changed.helpers[i] == state.helpers[i]
            }
        }),
{
}

/// A key is put into the cache of the very helper it is for, with the moment it
/// was obtained at, and taken out of no other; nothing else changes.
pub proof fn law_writes_reach_one_cache(state: StateView, index: int, key: Seq<char>, now: Instant)
    ensures
        ({
            let stored = state.with_key(index, key, now);
            let forgotten = state.without_key(index);
            &&& stored.current_helper == state.current_helper
            &&& forgotten.current_helper == state.current_helper
            &&& stored.helpers.len() == state.helpers.len()
            &&& forgotten.helpers.len() == state.helpers.len()
            &&& forall|i: int|
                0 <= i < state.helpers.len() ==> {
                    &&& (#[trigger] stored.helpers[i]).command == state.helpers[i].command
                    &&& stored.helpers[i].ttl_secs == state.helpers[i].ttl_secs
                    &&& i != index ==> stored.helpers[i].cached == state.helpers[i].cached
                    &&& i == index ==> (stored.helpers[i].cached matches Some(cached) && cached.key
                        == key && cached.fetched_at == now)
                }
            &&& forall|i: int|
                0 <= i < state.helpers.len() ==> {
                    &&& (#[trigger] forgotten.helpers[i]).command == state.helpers[i].command
                    &&& forgotten.helpers[i].ttl_secs == state.helpers[i].ttl_secs
                    &&& i != index ==> forgotten.helpers[i].cached == state.helpers[i].cached
                    &&& i == index ==> forgotten.helpers[i].cached is None
                }
        }),
{
}

/// The cache of every helper serves its key at each age below its time to live
/// and at none from it on. There is nothing where there is no helper.
pub proof fn law_every_cache_obeys_its_ttl(state: StateView, index: int, elapsed_secs: u64)
    ensures
        !(0 <= index < state.helpers.len()) ==> state.cached_key_after(index, elapsed_secs) is None,
        0 <= index < state.helpers.len() ==> {
            let helper = state.helpers[index];
            &&& helper.cached is None ==> state.cached_key_after(index, elapsed_secs) is None
            &&& helper.cached matches Some(cached) ==> {
                &&& helper.ttl_secs is None ==> state.cached_key_after(index, elapsed_secs) == Some(
                    cached.key,
                )
                &&& helper.ttl_secs matches Some(ttl) ==> {
                    &&& elapsed_secs < ttl ==> state.cached_key_after(index, elapsed_secs) == Some(
                        cached.key,
                    )
                    &&& elapsed_secs >= ttl ==> state.cached_key_after(index, elapsed_secs) is None
                }
            }
        },
{
}

/// Without a stored key the helper in use decides. From the time to live on, the
/// cached key is no longer in force, the provider is not authenticated and
/// authenticating runs the command again; at every age below it, and at every
/// age if there is no time to live, the key is in force, the provider is
/// authenticated and nothing runs.
pub proof fn law_expired_key_is_out_of_force(
    state: StateView,
    keys: ApiKeyState,
    has_key: Option<bool>,
    elapsed_secs: u64,
)
    requires
        state.well_formed(),
        !keys.has_key,
        keys.key is None,
        has_key != Some(true),
    ensures
        state.settings.api_key_helper matches Some(command) ==> {
            let ttl_secs = state.settings.api_key_helper_ttl_secs;
            let cached = state.helpers[state.current_helper->0].cached;
            let young = ttl_secs is None || elapsed_secs < ttl_secs->0;
            let helper = state.helper_for_authentication(keys);
            &&& cached is Some && young ==> {
                &&& state.helper_key_after(elapsed_secs) == Some(cached->0.key)
                &&& state.effective_key_after(keys, elapsed_secs) == Some(cached->0.key)
                &&& state.authenticated_after(keys, elapsed_secs)
                &&& state.command_after_load(helper, has_key, elapsed_secs) is None
            }
            &&& cached is None || !young ==> {
                &&& state.helper_key_after(elapsed_secs) is None
                &&& state.effective_key_after(keys, elapsed_secs) is None
                &&& !state.authenticated_after(keys, elapsed_secs)
                &&& state.command_after_load(helper, has_key, elapsed_secs) == Some(command)
            }
        },
        state.settings.api_key_helper is None ==> {
            &&& state.helper_key_after(elapsed_secs) is None
            &&& state.effective_key_after(keys, elapsed_secs) is None
            &&& !state.authenticated_after(keys, elapsed_secs)
            &&& state.helper_for_authentication(keys) is None
        },
{
}

/// The key in force is the stored one if there is one, whatever the helper has
/// cached, and else the one that the cache of the helper in use serves at this
/// very age.
pub proof fn law_key_in_force_is_stored_or_cached(
    state: StateView,
    keys: ApiKeyState,
    elapsed_secs: u64,
)
    ensures
        keys.key matches Some(key) ==> state.effective_key_after(keys, elapsed_secs) == Some(key@),
        keys.key is None ==> state.effective_key_after(keys, elapsed_secs)
            == state.helper_key_after(elapsed_secs),
        state.current_helper is None ==> state.helper_key_after(elapsed_secs) is None,
        state.current_helper matches Some(index) ==> state.helper_key_after(elapsed_secs)
            == state.helpers[index].key_after(elapsed_secs),
        state.authenticated_after(keys, elapsed_secs) <==> keys.has_key || state.helper_key_after(
            elapsed_secs,
        ) is Some,
{
}

/// The helper in use takes part in authenticating exactly if no key is stored.
pub proof fn law_helper_takes_part_without_a_stored_key(state: StateView, keys: ApiKeyState)
    ensures
        keys.has_key ==> state.helper_for_authentication(keys) is None,
        !keys.has_key ==> (state.helper_for_authentication(keys) is Some
            <==> state.current_helper is Some),
        !keys.has_key ==> (state.current_helper matches Some(index) ==> (
        state.helper_for_authentication(keys) matches Some(helper) && helper.index == index
            && helper.command == state.helpers[index].command)),
{
}

/// Once the credential store has been asked, the helper that takes part runs its
/// own command exactly if the store is not known to have a key and the cache of
/// that helper, whether it is still in use or not, serves none.
pub proof fn law_authenticating_runs_the_helper_it_began_with(
    state: StateView,
    helper: HelperHandleView,
    has_key: Option<bool>,
    elapsed_secs: u64,
)
    ensures
        state.command_after_load(None, has_key, elapsed_secs) is None,
        has_key == Some(true) ==> state.command_after_load(
            Some(helper),
            has_key,
            elapsed_secs,
        ) is None,
        has_key != Some(true) ==> {
            &&& state.cached_key_after(helper.index, elapsed_secs) is Some
                ==> state.command_after_load(Some(helper), has_key, elapsed_secs) is None
            &&& state.cached_key_after(helper.index, elapsed_secs) is None
                ==> state.command_after_load(Some(helper), has_key, elapsed_secs) == Some(
                helper.command,
            )
        },
{
}

/// The age that counts is that of the key of the helper in question, and zero
/// where there is no such helper.
pub proof fn law_ages_belong_to_the_helper_in_question(
    state: StateView,
    helper: HelperHandleView,
    index: int,
    secs: u64,
)
    ensures
        0 <= index < state.helpers.len() ==> (state.cached_has_age(index, secs)
            <==> state.helpers[index].has_age(secs)),
        !(0 <= index < state.helpers.len()) ==> (state.cached_has_age(index, secs) <==> secs == 0),
        state.current_helper is None ==> (state.helper_has_age(secs) <==> secs == 0),
        state.current_helper matches Some(used) ==> (state.helper_has_age(secs)
            <==> state.cached_has_age(used, secs)),
        state.handle_has_age(None, secs) <==> secs == 0,
        state.handle_has_age(Some(helper), secs) <==> state.cached_has_age(helper.index, secs),
{
}

} // verus!
