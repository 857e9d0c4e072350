//! API keys that come from a helper command: the cache that holds such a key
//! for a while, and what the output of the command means.

use crate::text::{
    is_blank, is_white_space, law_trimmed_text_has_no_blank_ends,
    law_trimming_empties_exactly_blank_text, law_trimming_removes_blank_ends,
    law_trimming_undoes_padding, lossy_text, text_from_utf8_lossy, text_of, trimmed,
};
use std::string::FromUtf8Error;
use std::time::{Duration, Instant};
use vstd::prelude::*;
use vstd::string::to_string_from_display_ensures;
use vstd::utf8::{decode_utf8, valid_utf8};

verus! {

/// `std::time::Instant`: a moment on the monotonic clock of the machine.
#[verifier::external_type_specification]
#[verifier::external_body]
pub struct ExInstant(Instant);

/// `Instant::now`: the present moment, of which nothing is claimed.
pub assume_specification[ Instant::now ]() -> (r: Instant)
;

/// `Instant::elapsed`: how long ago a moment was. It rests on the clock, so
/// nothing is claimed of it.
pub assume_specification[ Instant::elapsed ](since: &Instant) -> (r: Duration)
;

/// `Duration::as_secs`: the whole seconds of a duration. Every duration here
/// comes from the clock, so nothing is claimed of their number.
pub assume_specification[ Duration::as_secs ](duration: &Duration) -> (r: u64)
;

/// True if the clock can tell that `since` was `secs` whole seconds ago.
pub open spec fn is_age(since: Instant, secs: u64) -> bool {
    exists|elapsed: Duration|
        call_ensures(Instant::elapsed, (&since,), elapsed) && #[trigger] call_ensures(
            Duration::as_secs,
            (&elapsed,),
            secs,
        )
}

/// A key and the moment at which it was obtained.
#[derive(Debug)]
pub struct CachedKey {
    pub key: String,
    pub fetched_at: Instant,
}

/// A [`CachedKey`] with the key seen as its characters.
pub struct CachedKeyView {
    pub key: Seq<char>,
    pub fetched_at: Instant,
}

impl View for CachedKey {
    type V = CachedKeyView;

    open spec fn view(&self) -> CachedKeyView {
        CachedKeyView { key: self.key@, fetched_at: self.fetched_at }
    }
}

/// A helper command, how long its keys live, and the last key it gave.
#[derive(Debug)]
pub struct ApiKeyHelper {
    pub command: String,
    pub ttl_secs: Option<u64>,
    pub cached: Option<CachedKey>,
}

/// An [`ApiKeyHelper`] with its texts seen as characters.
pub struct ApiKeyHelperView {
    pub command: Seq<char>,
    pub ttl_secs: Option<u64>,
    pub cached: Option<CachedKeyView>,
}

impl View for ApiKeyHelper {
    type V = ApiKeyHelperView;

    open spec fn view(&self) -> ApiKeyHelperView {
        ApiKeyHelperView {
            command: self.command@,
            ttl_secs: self.ttl_secs,
            cached: match self.cached {
                Some(cached) => Some(cached@),
                None => None,
            },
        }
    }
}

impl ApiKeyHelperView {
    /// A helper that has not run yet.
    pub open spec fn fresh(command: Seq<char>, ttl_secs: Option<u64>) -> ApiKeyHelperView {
        ApiKeyHelperView { command, ttl_secs, cached: None }
    }

    /// The key that is still good `elapsed_secs` seconds after it was obtained:
    /// any cached key if there is no time to live, else a younger one.
    pub open spec fn key_after(self, elapsed_secs: u64) -> Option<Seq<char>> {
        match (self.cached, self.ttl_secs) {
            (None, _) => None,
            (Some(cached), None) => Some(cached.key),
            (Some(cached), Some(ttl)) => if elapsed_secs < ttl {
                Some(cached.key)
            } else {
                None
            },
        }
    }

    /// True if the clock can tell that the cached key is `secs` seconds old.
    /// Where there is no key, its age is zero.
    pub open spec fn has_age(self, secs: u64) -> bool {
        match self.cached {
            Some(cached) => is_age(cached.fetched_at, secs),
            None => secs == 0,
        }
    }

    /// The helper with `key` as the key obtained at `fetched_at`.
    pub open spec fn with_key(self, key: Seq<char>, fetched_at: Instant) -> ApiKeyHelperView {
        ApiKeyHelperView { cached: Some(CachedKeyView { key, fetched_at }), ..self }
    }

    /// The helper without a cached key.
    pub open spec fn without_key(self) -> ApiKeyHelperView {
        ApiKeyHelperView { cached: None, ..self }
    }
}

impl ApiKeyHelper {
    /// A helper that has not run yet.
    pub fn new(command: String, ttl_secs: Option<u64>) -> (r: ApiKeyHelper)
        ensures
            r@ == ApiKeyHelperView::fresh(command@, ttl_secs),
    {
        ApiKeyHelper { command, ttl_secs, cached: None }
    }

    /// The cached key, if it is still good `elapsed_secs` seconds after it was
    /// obtained.
    pub fn get_cached_after(&self, elapsed_secs: u64) -> (r: Option<String>)
        ensures
            text_of(r) == self@.key_after(elapsed_secs),
    {
        match &self.cached {
            None => None,
            Some(cached) => {
                if let Some(ttl) = self.ttl_secs {
                    if elapsed_secs >= ttl {
                        return None;
                    }
                }
                Some(cached.key.clone())
            },
        }
    }

    /// How many seconds ago the cached key was obtained, or zero if there is
    /// none.
    pub(crate) fn cache_age_secs(&self) -> (r: u64)
        ensures
            self@.has_age(r),
    {
        match &self.cached {
            None => 0,
            Some(cached) => cached.fetched_at.elapsed().as_secs(),
        }
    }

    /// The cached key, if it is still good now.
    pub fn get_cached(&self) -> (r: Option<String>)
        ensures
            exists|elapsed_secs: u64|
                self@.has_age(elapsed_secs) && text_of(r) == #[trigger] self@.key_after(
                    elapsed_secs,
                ),
    {
        let elapsed: u64 = self.cache_age_secs();
        self.get_cached_after(elapsed)
    }

    /// Forgets the cached key.
    pub fn invalidate(&mut self)
        ensures
            final(self)@ == old(self)@.without_key(),
    {
        self.cached = None;
    }

    /// Caches `key` as obtained at the moment `now`.
    pub fn store_at(&mut self, key: String, now: Instant)
        ensures
            final(self)@ == old(self)@.with_key(key@, now),
    {
        self.cached = Some(CachedKey { key, fetched_at: now });
    }

    /// Caches `key` as obtained now.
    pub fn store(&mut self, key: String)
        ensures
            exists|now: Instant|
                call_ensures(Instant::now, (), now) && final(self)@ == #[trigger] old(
                    self,
                )@.with_key(key@, now),
    {
        self.store_at(key, Instant::now());
    }
}

/// What a run of the helper command left behind: how it exited and what it
/// wrote.
#[derive(Debug)]
pub struct CommandOutput {
    pub success: bool,
    pub status: String,
    pub stdout: Vec<u8>,
    pub stderr: Vec<u8>,
}

/// Why the helper command gave no key.
#[derive(Debug)]
pub enum FetchError {
    /// The command could not be run.
    NotRun { reason: String },
    /// The command did not exit successfully.
    Exited { status: String, stderr: String },
    /// The command wrote something that is not UTF-8.
    InvalidUtf8 { error: FromUtf8Error },
    /// The command wrote nothing but white space.
    EmptyOutput,
}

/// The key that a successful run with this output gives, if any.
pub open spec fn key_in_output(stdout: Seq<u8>) -> Option<Seq<char>> {
    if valid_utf8(stdout) && trimmed(decode_utf8(stdout)).len() > 0 {
        Some(trimmed(decode_utf8(stdout)))
    } else {
        None
    }
}

/// The key that a run of the helper command gives, if any.
pub open spec fn key_in_run(run: Result<CommandOutput, String>) -> Option<Seq<char>> {
    match run {
        Ok(output) => if output.success {
            key_in_output(output.stdout@)
        } else {
            None
        },
        Err(_) => None,
    }
}

impl ApiKeyHelper {
    /// The key that a run of the helper command gives, or why it gives none.
    /// `run` is what the run left behind, or the reason why there was none.
    pub fn fetch(run: Result<CommandOutput, String>) -> (r: Result<String, FetchError>)
        ensures
            r is Ok <==> key_in_run(run) is Some,
            r matches Ok(key) ==> Some(key@) == key_in_run(run),
            run matches Err(reason) ==> (r matches Err(FetchError::NotRun { reason: told })
                && told@ == reason@),
            run matches Ok(output) ==> {
                &&& !output.success ==> (r matches Err(FetchError::Exited { status, stderr })
                    && status@ == output.status@ && stderr@ == lossy_text(output.stderr@) && (
                valid_utf8(output.stderr@) ==> stderr@ == decode_utf8(output.stderr@)))
                &&& output.success && !valid_utf8(output.stdout@) ==> (r matches Err(
                    FetchError::InvalidUtf8 { error },
                ) && call_ensures(
                    String::from_utf8,
                    (output.stdout,),
                    Err::<String, FromUtf8Error>(error),
                ))
                &&& output.success && valid_utf8(output.stdout@) && key_in_output(
                    output.stdout@,
                ) is None ==> (r matches Err(FetchError::EmptyOutput))
            },
    {
        let output = match run {
            Ok(output) => output,
            Err(reason) => {
                return Err(FetchError::NotRun { reason });
            },
        };
        if !output.success {
            return Err(
                FetchError::Exited {
                    status: output.status,
                    stderr: text_from_utf8_lossy(&output.stderr),
                },
            );
        }
        match String::from_utf8(output.stdout) {
            Err(error) => Err(FetchError::InvalidUtf8 { error }),
            Ok(text) => {
                let key = text.as_str().trim();
                if key.is_empty() {
                    Err(FetchError::EmptyOutput)
                } else {
                    Ok(key.to_string())
                }
            },
        }
    }
}

impl FetchError {
    /// True if `text` is the message of this error.
    pub open spec fn reads(self, text: String) -> bool {
        match self {
            FetchError::NotRun { reason } => text@ == reason@,
            FetchError::Exited { status, stderr } => text@ == "api_key_helper exited with "@
                + status@ + ": "@ + stderr@,
            FetchError::InvalidUtf8 { error } => to_string_from_display_ensures(&error, text),
            FetchError::EmptyOutput => text@ == "api_key_helper produced empty output"@,
        }
    }

    /// True if `line` says that this error happened: `what` went wrong, then
    /// the message of the error.
    pub open spec fn is_told_by(self, what: Seq<char>, line: Seq<char>) -> bool {
        exists|text: String| #[trigger] self.reads(text) && line == what + ": "@ + text@
    }

    /// The message of this error.
    pub fn message(&self) -> (r: String)
        ensures
            self.reads(r),
    {
        match self {
            FetchError::NotRun { reason } => reason.clone(),
            FetchError::Exited { status, stderr } => "api_key_helper exited with ".to_string().concat(
                status.as_str(),
            ).concat(": ").concat(stderr.as_str()),
            FetchError::InvalidUtf8 { error } => error.to_string(),
            FetchError::EmptyOutput => "api_key_helper produced empty output".to_string(),
        }
    }

    /// The line for the log when `what` went wrong because of this error.
    pub fn log_line(&self, what: &str) -> (r: String)
        ensures
            self.is_told_by(what@, r@),
    {
        let message = self.message();
        what.to_string().concat(": ").concat(message.as_str())
    }
}

/// A stored key is served exactly while it is younger than the time to live,
/// and for ever if there is none.
pub proof fn law_stored_key_is_served_while_young(
    helper: ApiKeyHelperView,
    key: Seq<char>,
    now: Instant,
    elapsed_secs: u64,
)
    ensures
        helper.with_key(key, now).key_after(elapsed_secs) == (if helper.ttl_secs is None
            || elapsed_secs < helper.ttl_secs->0 {
            Some(key)
        } else {
            None
        }),
{
}

/// A helper that has not run, or whose key was forgotten, serves nothing.
pub proof fn law_nothing_is_served_without_a_key(
    helper: ApiKeyHelperView,
    command: Seq<char>,
    ttl_secs: Option<u64>,
    elapsed_secs: u64,
)
    ensures
        ApiKeyHelperView::fresh(command, ttl_secs).key_after(elapsed_secs) is None,
        helper.without_key().key_after(elapsed_secs) is None,
{
}

/// A key that has expired stays expired, and one that is served later was
/// served before.
pub proof fn law_expiry_is_final(helper: ApiKeyHelperView, sooner: u64, later: u64)
    requires
        sooner <= later,
    ensures
        helper.key_after(sooner) is None ==> helper.key_after(later) is None,
        helper.key_after(later) is Some ==> helper.key_after(sooner) == helper.key_after(later),
{
}

/// A time to live of zero means that no key is ever served from the cache.
pub proof fn law_zero_ttl_disables_the_cache(helper: ApiKeyHelperView, elapsed_secs: u64)
    requires
        helper.ttl_secs == Some(0u64),
    ensures
        helper.key_after(elapsed_secs) is None,
{
}

/// The last store or invalidation decides, and neither touches the command or
/// the time to live.
pub proof fn law_last_write_to_the_cache_wins(
    helper: ApiKeyHelperView,
    first: Seq<char>,
    at_first: Instant,
    last: Seq<char>,
    at_last: Instant,
)
    ensures
        helper.with_key(first, at_first).with_key(last, at_last) == helper.with_key(last, at_last),
        helper.without_key().with_key(last, at_last) == helper.with_key(last, at_last),
        helper.with_key(first, at_first).without_key() == helper.without_key(),
        helper.with_key(last, at_last).command == helper.command,
        helper.with_key(last, at_last).ttl_secs == helper.ttl_secs,
        helper.without_key().command == helper.command,
        helper.without_key().ttl_secs == helper.ttl_secs,
{
}

/// The key in an output is not empty and has no white space at either end; an
/// output holds no key exactly if it is not UTF-8 or is blank.
pub proof fn law_keys_are_trimmed_and_not_empty(stdout: Seq<u8>)
    ensures
        key_in_output(stdout) matches Some(key) ==> key.len() > 0 && !is_white_space(key[0])
            && !is_white_space(key[key.len() - 1]),
        key_in_output(stdout) is None <==> !valid_utf8(stdout) || is_blank(decode_utf8(stdout)),
{
    law_trimmed_text_has_no_blank_ends(decode_utf8(stdout));
    law_trimming_empties_exactly_blank_text(decode_utf8(stdout));
}

/// Nothing of a helper is lost when its texts are seen as characters.
pub proof fn law_helpers_are_seen_whole(helper: ApiKeyHelper)
    ensures
        helper@.command == helper.command@,
        helper@.ttl_secs == helper.ttl_secs,
        helper@.cached is None <==> helper.cached is None,
        helper.cached matches Some(cached) ==> (helper@.cached matches Some(seen) && seen.key
            == cached.key@ && seen.fetched_at == cached.fetched_at),
{
}

/// A helper starts with the command and the time to live it is given, and with
/// no key.
pub proof fn law_new_helper_has_no_key(command: Seq<char>, ttl_secs: Option<u64>)
    ensures
        ApiKeyHelperView::fresh(command, ttl_secs).command == command,
        ApiKeyHelperView::fresh(command, ttl_secs).ttl_secs == ttl_secs,
        ApiKeyHelperView::fresh(command, ttl_secs).cached is None,
{
}

/// The cache serves nothing but the key it holds, at every age below the time to
/// live and at none from it on, and at every age if there is no time to live.
pub proof fn law_cached_key_lives_for_its_ttl(helper: ApiKeyHelperView, elapsed_secs: u64)
    ensures
        helper.cached is None ==> helper.key_after(elapsed_secs) is None,
        helper.cached matches Some(cached) ==> {
            &&& helper.ttl_secs is None ==> helper.key_after(elapsed_secs) == Some(cached.key)
            &&& helper.ttl_secs matches Some(ttl) ==> {
                &&& elapsed_secs < ttl ==> helper.key_after(elapsed_secs) == Some(cached.key)
                &&& elapsed_secs >= ttl ==> helper.key_after(elapsed_secs) is None
            }
        },
{
}

/// Storing keeps the key and the moment it was obtained at, whatever was cached
/// before, and forgetting keeps nothing; the rest of the helper stays.
pub proof fn law_stored_key_is_kept_with_its_moment(
    helper: ApiKeyHelperView,
    key: Seq<char>,
    now: Instant,
)
    ensures
        helper.with_key(key, now).cached matches Some(cached) && cached.key == key
            && cached.fetched_at == now,
        helper.with_key(key, now).command == helper.command,
        helper.with_key(key, now).ttl_secs == helper.ttl_secs,
        helper.without_key().cached is None,
        helper.without_key().command == helper.command,
        helper.without_key().ttl_secs == helper.ttl_secs,
{
}

/// The age of a cached key is what the clock tells of the very moment at which
/// the key was obtained, in whole seconds. Without a key it is zero.
pub proof fn law_age_is_told_by_the_clock(helper: ApiKeyHelperView, secs: u64)
    ensures
        helper.cached is None ==> (helper.has_age(secs) <==> secs == 0),
        helper.cached matches Some(cached) ==> (helper.has_age(secs) <==> exists|elapsed: Duration|
            call_ensures(Instant::elapsed, (&cached.fetched_at,), elapsed)
                && #[trigger] call_ensures(Duration::as_secs, (&elapsed,), secs)),
{
}

/// The key in an output is the whole of the text but for white space at its
/// ends.
pub proof fn law_key_is_the_whole_output_but_blank_ends(stdout: Seq<u8>)
    ensures
        key_in_output(stdout) matches Some(key) ==> valid_utf8(stdout) && exists|
            front: Seq<char>,
            back: Seq<char>,
        | #[trigger]
            is_blank(front) && #[trigger] is_blank(back) && decode_utf8(stdout) == front + key
                + back,
{
    law_trimming_removes_blank_ends(decode_utf8(stdout));
}

/// Whatever white space a successful run writes around a key, the run gives that
/// key, whole.
pub proof fn law_padded_key_is_read_back(
    run: Result<CommandOutput, String>,
    front: Seq<char>,
    key: Seq<char>,
    back: Seq<char>,
)
    requires
        run matches Ok(output) && output.success && valid_utf8(output.stdout@) && decode_utf8(
            output.stdout@,
        ) == front + key + back,
        forall|i: int| 0 <= i < front.len() ==> is_white_space(#[trigger] front[i]),
        forall|i: int| 0 <= i < back.len() ==> is_white_space(#[trigger] back[i]),
        key.len() > 0,
        !is_white_space(key[0]),
        !is_white_space(key[key.len() - 1]),
    ensures
        key_in_run(run) == Some(key),
        run matches Ok(output) ==> key_in_output(output.stdout@) == Some(key),
{
    law_trimming_undoes_padding(front, key, back);
}

/// A run gives a key exactly if the command ran, exited successfully and wrote
/// UTF-8 that is more than white space, and then the key in that output.
pub proof fn law_exactly_good_runs_give_keys(run: Result<CommandOutput, String>)
    ensures
        key_in_run(run) is Some <==> (run matches Ok(output) && output.success && valid_utf8(
            output.stdout@,
        ) && exists|i: int|
            0 <= i < decode_utf8(output.stdout@).len() && !is_white_space(
                #[trigger] decode_utf8(output.stdout@)[i],
            )),
        run matches Ok(output) ==> output.success ==> key_in_run(run) == key_in_output(
            output.stdout@,
        ),
{
    if let Ok(output) = run {
        law_trimming_empties_exactly_blank_text(decode_utf8(output.stdout@));
    }
}

/// What the errors say: the reason why the command did not run, the status and
/// the error output of one that failed, the error of the conversion of what it
/// wrote, or that it wrote nothing.
pub proof fn law_errors_say_what_went_wrong(error: FetchError, text: String)
    ensures
        error matches FetchError::NotRun { reason } ==> (error.reads(text) <==> text@ == reason@),
        error matches FetchError::Exited { status, stderr } ==> (error.reads(text) <==> text@
            == "api_key_helper exited with "@ + status@ + ": "@ + stderr@),
        error matches FetchError::InvalidUtf8 { error: cause } ==> (error.reads(text)
            <==> to_string_from_display_ensures(&cause, text)),
        error matches FetchError::EmptyOutput ==> (error.reads(text) <==> text@
            == "api_key_helper produced empty output"@),
{
}

/// A line for the log is what went wrong, a colon and a space, and the message
/// of the error.
pub proof fn law_log_lines_end_with_the_message(
    error: FetchError,
    what: Seq<char>,
    line: Seq<char>,
)
    ensures
        error.is_told_by(what, line) <==> exists|text: String| #[trigger]
            error.reads(text) && line == what + ": "@ + text@,
{
}

} // verus!
