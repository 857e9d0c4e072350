//! Counting the tokens of a conversation with the tokenizers of `tiktoken_rs`.

use crate::text::{is_white_space, text_of, white_space};
use tiktoken_rs::ChatCompletionRequestMessage;
use vstd::prelude::*;
use vstd::utf8::encode_utf8;

verus! {

/// From this context size on, a model is taken to use the newer tokenizer.
pub const LARGE_CONTEXT: u64 = 100_000;

/// The tokenizer is not known to take a text that holds this many characters
/// without a break: its search keeps a branch for each character of a piece, and
/// gives up beyond a million of them.
pub const LONGEST_STRETCH: usize = 999_900;

/// The newer tokenizer is not known to take a mark before capital letters if
/// there are this many of them with the mark: its search steps back over all of
/// the letters twice, and gives up after a million steps back.
pub const LONGEST_CAPITALS: usize = 499_900;

/// A message of a conversation.
#[derive(Debug, PartialEq)]
pub struct Message {
    pub role: String,
    pub content: Option<String>,
    pub name: Option<String>,
}

impl View for Message {
    type V = (Seq<char>, Option<Seq<char>>, Option<Seq<char>>);

    open spec fn view(&self) -> (Seq<char>, Option<Seq<char>>, Option<Seq<char>>) {
        (self.role@, text_of(self.content), text_of(self.name))
    }
}

/// A conversation, role, content and name of each message seen as characters.
pub open spec fn messages_of(messages: Seq<Message>) -> Seq<
    (Seq<char>, Option<Seq<char>>, Option<Seq<char>>),
> {
    Seq::new(messages.len(), |i: int| messages[i]@)
}

/// True if `c` is one of the common letters of the Latin, Greek, Cyrillic,
/// Armenian, Hebrew, Arabic, Thaana, Indic, Thai, Lao, Tibetan, Burmese,
/// Georgian, Hangul, Ethiopic, Cherokee, Canadian, Khmer, Mongolian, kana,
/// Bopomofo, Han and Yi scripts. Further letters exist.
pub open spec fn is_word_character(c: char) -> bool {
    ||| 'a' <= c <= 'z'
    ||| 'A' <= c <= 'Z'
    ||| '\u{c0}' <= c <= '\u{2c1}' && c != '\u{d7}' && c != '\u{f7}'
    ||| '\u{391}' <= c <= '\u{3f5}' && c != '\u{3a2}'
    ||| '\u{400}' <= c <= '\u{481}'
    ||| '\u{48a}' <= c <= '\u{52f}'
    ||| '\u{531}' <= c <= '\u{556}'
    ||| '\u{561}' <= c <= '\u{587}'
    ||| '\u{5d0}' <= c <= '\u{5ea}'
    ||| '\u{620}' <= c <= '\u{64a}'
    ||| '\u{671}' <= c <= '\u{6d3}'
    ||| '\u{74d}' <= c <= '\u{7a5}'
    ||| '\u{904}' <= c <= '\u{939}'
    ||| '\u{993}' <= c <= '\u{9a8}'
    ||| '\u{a13}' <= c <= '\u{a28}'
    ||| '\u{a93}' <= c <= '\u{aa8}'
    ||| '\u{b13}' <= c <= '\u{b28}'
    ||| '\u{bae}' <= c <= '\u{bb9}'
    ||| '\u{c12}' <= c <= '\u{c28}'
    ||| '\u{c92}' <= c <= '\u{ca8}'
    ||| '\u{d12}' <= c <= '\u{d3a}'
    ||| '\u{d9a}' <= c <= '\u{db1}'
    ||| '\u{e01}' <= c <= '\u{e30}'
    ||| '\u{e8c}' <= c <= '\u{ea3}'
    ||| '\u{f49}' <= c <= '\u{f6c}'
    ||| '\u{1000}' <= c <= '\u{102a}'
    ||| '\u{10d0}' <= c <= '\u{10fa}'
    ||| '\u{1100}' <= c <= '\u{1248}'
    ||| '\u{12d8}' <= c <= '\u{1310}'
    ||| '\u{13a0}' <= c <= '\u{13f5}'
    ||| '\u{1401}' <= c <= '\u{166c}'
    ||| '\u{1780}' <= c <= '\u{17b3}'
    ||| '\u{1820}' <= c <= '\u{1878}'
    ||| '\u{1e00}' <= c <= '\u{1f15}'
    ||| '\u{3041}' <= c <= '\u{3096}'
    ||| '\u{30a1}' <= c <= '\u{30fa}'
    ||| '\u{3105}' <= c <= '\u{312d}'
    ||| '\u{3131}' <= c <= '\u{318e}'
    ||| '\u{3400}' <= c <= '\u{4db5}'
    ||| '\u{4e00}' <= c <= '\u{9fa5}'
    ||| '\u{a000}' <= c <= '\u{a48c}'
    ||| '\u{ac00}' <= c <= '\u{d7a3}'
    ||| '\u{ff21}' <= c <= '\u{ff3a}'
    ||| '\u{ff41}' <= c <= '\u{ff5a}'
    ||| '\u{ff66}' <= c <= '\u{ff9d}'
    ||| '\u{20000}' <= c <= '\u{2a6d6}'
}

/// True if `c` stands between words: any ASCII character but a letter, or one of
/// the guillemets, dashes, quotation marks, arrows, shapes, pictographs and East
/// Asian punctuation marks.
pub open spec fn is_separator(c: char) -> bool {
    ||| c <= '\u{7f}' && !('a' <= c <= 'z') && !('A' <= c <= 'Z')
    ||| c == '\u{ab}'
    ||| c == '\u{bb}'
    ||| '\u{2010}' <= c <= '\u{2027}'
    ||| '\u{2190}' <= c <= '\u{2426}'
    ||| '\u{2500}' <= c <= '\u{2775}'
    ||| '\u{3001}' <= c <= '\u{3003}'
    ||| '\u{3008}' <= c <= '\u{3011}'
    ||| '\u{ff01}' <= c <= '\u{ff0f}'
    ||| '\u{ff1a}' <= c <= '\u{ff20}'
    ||| '\u{1f300}' <= c <= '\u{1f64f}'
}

/// True if `c` ends a line.
pub open spec fn is_line_end(c: char) -> bool {
    c == '\n' || c == '\r'
}

/// True unless `c` is known not to be a mark that combines with another
/// character.
pub open spec fn may_be_mark(c: char) -> bool {
    c >= '\u{300}' && !is_word_character(c) && !is_separator(c) && !is_white_space(c)
}

/// True unless `c` is known not to be a capital letter: it is of a block that
/// holds some.
pub open spec fn may_be_capital(c: char) -> bool {
    ||| 'A' <= c <= 'Z'
    ||| '\u{c0}' <= c <= '\u{24f}'
    ||| '\u{370}' <= c <= '\u{556}'
    ||| '\u{10a0}' <= c <= '\u{10cf}'
    ||| '\u{13a0}' <= c <= '\u{13f5}'
    ||| '\u{1c80}' <= c <= '\u{1cbf}'
    ||| '\u{1e00}' <= c <= '\u{1fff}'
    ||| '\u{2100}' <= c <= '\u{218f}'
    ||| '\u{2c00}' <= c <= '\u{2cff}'
    ||| '\u{a640}' <= c <= '\u{a7ff}'
    ||| '\u{ff21}' <= c <= '\u{ff3a}'
    ||| c >= '\u{10400}'
}

/// True if `model` has the older of the two tokenizers.
pub open spec fn is_older(model: Seq<char>) -> bool {
    model == "gpt-4"@
}

/// True if `a` followed by `b` brings every piece that the tokenizer cuts out of
/// a text to its end within a few characters, unless the piece began just
/// before `a`: `a` is a digit, or white space meets something else, or a word
/// meets what stands between words. Line ends may follow a run of punctuation
/// marks, and for the newer tokenizer a slash may follow the line ends.
pub open spec fn is_break(older: bool, a: char, b: char) -> bool {
    ||| '0' <= a <= '9'
    ||| !is_white_space(a) && is_white_space(b) && !is_line_end(b)
    ||| is_white_space(a) && !is_white_space(b) && (older || !(is_line_end(a) && b == '/'))
    ||| is_word_character(a) && is_separator(b)
    ||| is_separator(a) && is_word_character(b)
}

/// True if there is a break after the character of `text` at `i`.
pub open spec fn breaks_at(older: bool, text: Seq<char>, i: int) -> bool {
    is_break(older, text[i], text[i + 1])
}

/// True if there is a break between two of the characters from `start` up to
/// `end`.
pub open spec fn breaks_between(older: bool, text: Seq<char>, start: int, end: int) -> bool {
    exists|i: int| start <= i < end - 1 && #[trigger] breaks_at(older, text, i)
}

/// True if every stretch of [`LONGEST_STRETCH`] characters within the first `end`
/// of them has a break.
pub open spec fn is_divided_up_to(older: bool, text: Seq<char>, end: int) -> bool {
    forall|start: int|
        0 <= start && start + LONGEST_STRETCH <= end ==> #[trigger] breaks_between(
            older,
            text,
            start,
            start + LONGEST_STRETCH,
        )
}

/// True if what may be a mark stands at `mark`, and nothing but what may be
/// capital letters after it up to `end`.
pub open spec fn marks_capitals(text: Seq<char>, mark: int, end: int) -> bool {
    &&& 0 <= mark < end
    &&& may_be_mark(text[mark])
    &&& forall|i: int| mark < i < end ==> may_be_capital(#[trigger] text[i])
}

/// True if within the first `end` characters no mark stands before so many
/// capital letters that they are [`LONGEST_CAPITALS`] with it.
pub open spec fn capitals_are_few_up_to(text: Seq<char>, end: int) -> bool {
    forall|mark: int|
        mark + LONGEST_CAPITALS <= end ==> !#[trigger] marks_capitals(
            text,
            mark,
            mark + LONGEST_CAPITALS,
        )
}

/// True if the older or the newer tokenizer is known to take the text.
pub open spec fn is_searchable(older: bool, text: Seq<char>) -> bool {
    &&& is_divided_up_to(older, text, text.len() as int)
    &&& older || capitals_are_few_up_to(text, text.len() as int)
}

/// A text, or the empty one if it is missing.
pub open spec fn text_or_empty(text: Option<Seq<char>>) -> Seq<char> {
    match text {
        Some(text) => text,
        None => Seq::empty(),
    }
}

/// An upper bound on the tokens of a message: at most one for each byte of its
/// texts, and four that frame it.
pub open spec fn token_bound(
    message: (Seq<char>, Option<Seq<char>>, Option<Seq<char>>),
) -> nat {
    encode_utf8(message.0).len() + encode_utf8(text_or_empty(message.1)).len() + encode_utf8(
        text_or_empty(message.2),
    ).len() + 4
}

/// An upper bound on the tokens of a conversation.
pub open spec fn total_token_bound(
    messages: Seq<(Seq<char>, Option<Seq<char>>, Option<Seq<char>>)>,
) -> nat
    decreases messages.len(),
{
    if messages.len() == 0 {
        3
    } else {
        total_token_bound(messages.drop_last()) + token_bound(messages.last())
    }
}

/// True if the tokenizer is known to take the texts of a message.
pub open spec fn message_is_searchable(
    older: bool,
    message: (Seq<char>, Option<Seq<char>>, Option<Seq<char>>),
) -> bool {
    &&& is_searchable(older, message.0)
    &&& is_searchable(older, text_or_empty(message.1))
    &&& is_searchable(older, text_or_empty(message.2))
}

/// True if the older or the newer tokenizer is known to take the conversation.
/// It cuts a text into words, numbers, runs of punctuation marks and runs of
/// white space with a backtracking search, which gives up on a piece of about a
/// million characters (for the newer one half as many in some texts), and it
/// counts in 32 bits. The condition is sufficient, not necessary: it knows the
/// most common letters only, and takes each byte for a token.
pub open spec fn is_countable(
    older: bool,
    messages: Seq<(Seq<char>, Option<Seq<char>>, Option<Seq<char>>)>,
) -> bool {
    &&& total_token_bound(messages) <= i32::MAX
    &&& forall|i: int|
        0 <= i < messages.len() ==> message_is_searchable(older, #[trigger] messages[i])
}

/// `anyhow::Error`: the error of the tokenizer, which is only carried along.
#[verifier::external_type_specification]
#[verifier::external_body]
pub struct ExAnyhowError(anyhow::Error);

/// What `tiktoken_rs` counts with the tokenizer of `model`, or nothing if it
/// has no tokenizer for a conversation with `model`.
pub uninterp spec fn token_count(
    model: Seq<char>,
    messages: Seq<(Seq<char>, Option<Seq<char>>, Option<Seq<char>>)>,
) -> Option<usize>;

/// `tiktoken_rs::num_tokens_from_messages`: the count, or that there is none,
/// depends on the model and on role, content and name of the messages alone.
/// There is a tokenizer for a conversation with `gpt-4` or with `gpt-4o`. The
/// vocabulary that the count comes from is left unsaid.
#[verifier::external_body]
fn num_tokens_from_messages(model: &str, messages: &Vec<Message>) -> (r: Result<
    usize,
    anyhow::Error,
>)
    requires
        is_countable(is_older(model@), messages_of(messages@)),
    ensures
        r is Ok <==> token_count(model@, messages_of(messages@)) is Some,
        r matches Ok(count) ==> Some(count) == token_count(model@, messages_of(messages@)),
        model@ == "gpt-4"@ || model@ == "gpt-4o"@ ==> r is Ok,
{
    let messages: Vec<ChatCompletionRequestMessage> = messages.iter().map(
        |message| ChatCompletionRequestMessage {
            role: message.role.clone(),
            content: message.content.clone(),
            name: message.name.clone(),
            function_call: None,
        },
    ).collect();
    tiktoken_rs::num_tokens_from_messages(model, &messages)
}

/// Why the tokens of a conversation could not be counted.
#[derive(Debug)]
pub struct CountTokensError {
    pub cause: anyhow::Error,
}

/// The model whose tokenizer fits a context of `max_tokens` tokens.
pub open spec fn tokenizer_model_of(max_tokens: u64) -> Seq<char> {
    if max_tokens >= LARGE_CONTEXT {
        "gpt-4o"@
    } else {
        "gpt-4"@
    }
}

/// The model whose tokenizer fits a context of `max_tokens` tokens: the one of
/// `gpt-4o` from [`LARGE_CONTEXT`] on, else that of `gpt-4`.
pub fn tokenizer_model(max_tokens: u64) -> (r: &'static str)
    ensures
        r@ == tokenizer_model_of(max_tokens),
{
    if max_tokens >= LARGE_CONTEXT {
        "gpt-4o"
    } else {
        "gpt-4"
    }
}

/// The number of tokens, given what the tokenizer returned.
pub fn tokens_counted(counted: Result<usize, anyhow::Error>) -> (r: Result<u64, CountTokensError>)
    ensures
        counted matches Ok(count) ==> r == Ok::<u64, CountTokensError>(count as u64),
        counted matches Err(cause) ==> r == Err::<u64, CountTokensError>(
            CountTokensError { cause },
        ),
{
    match counted {
        Ok(count) => Ok(count as u64),
        Err(cause) => Err(CountTokensError { cause }),
    }
}

/// The number of tokens that a model with a context of `max_tokens` tokens sees
/// in a conversation.
pub fn count_tokens(max_tokens: u64, messages: &Vec<Message>) -> (r: Result<u64, CountTokensError>)
    requires
        is_countable(is_older(tokenizer_model_of(max_tokens)), messages_of(messages@)),
    ensures
        token_count(tokenizer_model_of(max_tokens), messages_of(messages@)) matches Some(count)
            && r == Ok::<u64, CountTokensError>(count as u64),
{
    tokens_counted(num_tokens_from_messages(tokenizer_model(max_tokens), messages))
}

/// As [`count_tokens`], for any conversation: nothing is counted, and nothing
/// returned, if the tokenizer is not known to take it.
pub fn try_count_tokens(max_tokens: u64, messages: &Vec<Message>) -> (r: Option<
    Result<u64, CountTokensError>,
>)
    ensures
        r is Some <==> is_countable(
            is_older(tokenizer_model_of(max_tokens)),
            messages_of(messages@),
        ),
        r matches Some(counted) ==> token_count(
            tokenizer_model_of(max_tokens),
            messages_of(messages@),
        ) matches Some(count) && counted == Ok::<u64, CountTokensError>(count as u64),
{
    if can_count_tokens(max_tokens, messages) {
        Some(count_tokens(max_tokens, messages))
    } else {
        None
    }
}

/// True if `c` is a letter of one of the scripts of [`is_word_character`].
fn word_character(c: char) -> (r: bool)
    ensures
        r == is_word_character(c),
{
    ('a' <= c && c <= 'z') || ('A' <= c && c <= 'Z')
        || ('\u{c0}' <= c && c <= '\u{2c1}' && c != '\u{d7}' && c != '\u{f7}')
        || ('\u{391}' <= c && c <= '\u{3f5}' && c != '\u{3a2}')
        || ('\u{400}' <= c && c <= '\u{481}')
        || ('\u{48a}' <= c && c <= '\u{52f}')
        || ('\u{531}' <= c && c <= '\u{556}')
        || ('\u{561}' <= c && c <= '\u{587}')
        || ('\u{5d0}' <= c && c <= '\u{5ea}')
        || ('\u{620}' <= c && c <= '\u{64a}')
        || ('\u{671}' <= c && c <= '\u{6d3}')
        || ('\u{74d}' <= c && c <= '\u{7a5}')
        || ('\u{904}' <= c && c <= '\u{939}')
        || ('\u{993}' <= c && c <= '\u{9a8}')
        || ('\u{a13}' <= c && c <= '\u{a28}')
        || ('\u{a93}' <= c && c <= '\u{aa8}')
        || ('\u{b13}' <= c && c <= '\u{b28}')
        || ('\u{bae}' <= c && c <= '\u{bb9}')
        || ('\u{c12}' <= c && c <= '\u{c28}')
        || ('\u{c92}' <= c && c <= '\u{ca8}')
        || ('\u{d12}' <= c && c <= '\u{d3a}')
        || ('\u{d9a}' <= c && c <= '\u{db1}')
        || ('\u{e01}' <= c && c <= '\u{e30}')
        || ('\u{e8c}' <= c && c <= '\u{ea3}')
        || ('\u{f49}' <= c && c <= '\u{f6c}')
        || ('\u{1000}' <= c && c <= '\u{102a}')
        || ('\u{10d0}' <= c && c <= '\u{10fa}')
        || ('\u{1100}' <= c && c <= '\u{1248}')
        || ('\u{12d8}' <= c && c <= '\u{1310}')
        || ('\u{13a0}' <= c && c <= '\u{13f5}')
        || ('\u{1401}' <= c && c <= '\u{166c}')
        || ('\u{1780}' <= c && c <= '\u{17b3}')
        || ('\u{1820}' <= c && c <= '\u{1878}')
        || ('\u{1e00}' <= c && c <= '\u{1f15}')
        || ('\u{3041}' <= c && c <= '\u{3096}')
        || ('\u{30a1}' <= c && c <= '\u{30fa}')
        || ('\u{3105}' <= c && c <= '\u{312d}')
        || ('\u{3131}' <= c && c <= '\u{318e}')
        || ('\u{3400}' <= c && c <= '\u{4db5}')
        || ('\u{4e00}' <= c && c <= '\u{9fa5}')
        || ('\u{a000}' <= c && c <= '\u{a48c}')
        || ('\u{ac00}' <= c && c <= '\u{d7a3}')
        || ('\u{ff21}' <= c && c <= '\u{ff3a}')
        || ('\u{ff41}' <= c && c <= '\u{ff5a}')
        || ('\u{ff66}' <= c && c <= '\u{ff9d}')
        || ('\u{20000}' <= c && c <= '\u{2a6d6}')
}

/// True if `c` stands between words.
fn separator(c: char) -> (r: bool)
    ensures
        r == is_separator(c),
{
    (c <= '\u{7f}' && !('a' <= c && c <= 'z') && !('A' <= c && c <= 'Z'))
        || c == '\u{ab}' || c == '\u{bb}'
        || ('\u{2010}' <= c && c <= '\u{2027}')
        || ('\u{2190}' <= c && c <= '\u{2426}')
        || ('\u{2500}' <= c && c <= '\u{2775}')
        || ('\u{3001}' <= c && c <= '\u{3003}')
        || ('\u{3008}' <= c && c <= '\u{3011}')
        || ('\u{ff01}' <= c && c <= '\u{ff0f}')
        || ('\u{ff1a}' <= c && c <= '\u{ff20}')
        || ('\u{1f300}' <= c && c <= '\u{1f64f}')
}

/// True unless `c` is known not to be a mark.
fn possible_mark(c: char) -> (r: bool)
    ensures
        r == may_be_mark(c),
{
    c >= '\u{300}' && !word_character(c) && !separator(c) && !white_space(c)
}

/// True unless `c` is known not to be a capital letter.
fn possible_capital(c: char) -> (r: bool)
    ensures
        r == may_be_capital(c),
{
    ('A' <= c && c <= 'Z')
        || ('\u{c0}' <= c && c <= '\u{24f}')
        || ('\u{370}' <= c && c <= '\u{556}')
        || ('\u{10a0}' <= c && c <= '\u{10cf}')
        || ('\u{13a0}' <= c && c <= '\u{13f5}')
        || ('\u{1c80}' <= c && c <= '\u{1cbf}')
        || ('\u{1e00}' <= c && c <= '\u{1fff}')
        || ('\u{2100}' <= c && c <= '\u{218f}')
        || ('\u{2c00}' <= c && c <= '\u{2cff}')
        || ('\u{a640}' <= c && c <= '\u{a7ff}')
        || ('\u{ff21}' <= c && c <= '\u{ff3a}')
        || c >= '\u{10400}'
}

/// True if there is a break between `a` and the character `b` after it.
fn breaks(older: bool, a: char, b: char) -> (r: bool)
    ensures
        r == is_break(older, a, b),
{
    let space_before: bool = white_space(a);
    let space_after: bool = white_space(b);
    let line_end_before: bool = a == '\n' || a == '\r';
    let line_end_after: bool = b == '\n' || b == '\r';
    ('0' <= a && a <= '9') || (!space_before && space_after && !line_end_after) || (space_before
        && !space_after && (older || !(line_end_before && b == '/'))) || (word_character(a)
        && separator(b)) || (separator(a) && word_character(b))
}

/// One more character leaves every stretch with a break if the last stretch has
/// one.
proof fn lemma_one_more_stretch(older: bool, text: Seq<char>, end: int)
    requires
        is_divided_up_to(older, text, end - 1),
        end >= LONGEST_STRETCH ==> breaks_between(older, text, end - LONGEST_STRETCH, end),
    ensures
        is_divided_up_to(older, text, end),
{
    assert forall|start: int|
        0 <= start && start + LONGEST_STRETCH <= end implies #[trigger] breaks_between(
        older,
        text,
        start,
        start + LONGEST_STRETCH,
    ) by {
        if start + LONGEST_STRETCH == end {
            assert(start == end - LONGEST_STRETCH);
        }
    }
}

/// True if every stretch of [`LONGEST_STRETCH`] characters of `text` has a
/// break.
#[verifier::spinoff_prover]
fn divided(older: bool, text: &str) -> (r: bool)
    ensures
        r == is_divided_up_to(older, text@, text@.len() as int),
{
    let length: usize = text.unicode_len();
    let mut seen: usize = 0;
    let mut after_break: usize = 0;
    let mut previous: Option<char> = None;
    for c in it: text.chars()
        invariant
            length == text@.len(),
            it.seq() == text@,
            seen == it.index(),
            after_break < seen || after_break == 0,
            previous is None <==> seen == 0,
            previous matches Some(p) ==> p == text@[seen - 1],
            after_break > 0 ==> breaks_at(older, text@, after_break - 1),
            forall|i: int| after_break <= i < seen - 1 ==> !#[trigger] breaks_at(older, text@, i),
            is_divided_up_to(older, text@, seen as int),
    {
        if let Some(p) = previous {
            assert(breaks_at(older, text@, seen - 1) == is_break(older, p, c));
            if breaks(older, p, c) {
                after_break = seen;
            }
        }
        previous = Some(c);
        seen += 1;
        if seen >= LONGEST_STRETCH && after_break <= seen - LONGEST_STRETCH {
            let ghost start = seen - LONGEST_STRETCH;
            assert(!breaks_between(older, text@, start, start + LONGEST_STRETCH));
            return false;
        }
        proof {
            lemma_one_more_stretch(older, text@, seen as int);
        }
    }
    true
}

/// One more character leaves the capital letters few if those that end with it
/// are.
proof fn lemma_one_more_capital(text: Seq<char>, end: int)
    requires
        capitals_are_few_up_to(text, end - 1),
        !marks_capitals(text, end - LONGEST_CAPITALS, end),
    ensures
        capitals_are_few_up_to(text, end),
{
    assert forall|mark: int| mark + LONGEST_CAPITALS <= end implies !#[trigger] marks_capitals(
        text,
        mark,
        mark + LONGEST_CAPITALS,
    ) by {
        if mark + LONGEST_CAPITALS == end {
            assert(mark == end - LONGEST_CAPITALS);
        }
    }
}

/// True if no mark in `text` stands before so many capital letters that they are
/// [`LONGEST_CAPITALS`] with it.
#[verifier::spinoff_prover]
fn few_capitals(text: &str) -> (r: bool)
    ensures
        r == capitals_are_few_up_to(text@, text@.len() as int),
{
    let length: usize = text.unicode_len();
    let mut seen: usize = 0;
    let mut first: Option<usize> = None;
    for c in it: text.chars()
        invariant
            length == text@.len(),
            it.seq() == text@,
            seen == it.index(),
            first matches Some(mark) ==> marks_capitals(text@, mark as int, seen as int),
            forall|mark: int| #[trigger]
                marks_capitals(text@, mark, seen as int) ==> (first matches Some(earlier)
                    && earlier <= mark),
            capitals_are_few_up_to(text@, seen as int),
    {
        if !possible_capital(c) {
            first = None;
        }
        if first.is_none() && possible_mark(c) {
            first = Some(seen);
        }
        proof {
            assert forall|mark: int| #[trigger]
                marks_capitals(text@, mark, seen + 1) implies (first matches Some(earlier)
                && earlier <= mark) by {
                if mark < seen {
                    assert(may_be_capital(text@[seen as int]));
                    assert(marks_capitals(text@, mark, seen as int));
                }
            }
        }
        seen += 1;
        if let Some(mark) = first {
            assert(marks_capitals(text@, mark as int, seen as int));
            if seen - mark >= LONGEST_CAPITALS {
                assert(marks_capitals(text@, mark as int, mark + LONGEST_CAPITALS));
                return false;
            }
        }
        proof {
            lemma_one_more_capital(text@, seen as int);
        }
    }
    true
}

/// True if the older or the newer tokenizer is known to take `text`.
fn searchable(older: bool, text: &str) -> (r: bool)
    ensures
        r == is_searchable(older, text@),
{
    divided(older, text) && (older || few_capitals(text))
}

/// True if the tokenizer is known to take the texts of `message`.
fn message_searchable(older: bool, message: &Message) -> (r: bool)
    ensures
        r == message_is_searchable(older, message@),
{
    searchable(older, message.role.as_str()) && optional_text_searchable(older, &message.content)
        && optional_text_searchable(older, &message.name)
}

/// As [`searchable`], for a text that may be missing.
fn optional_text_searchable(older: bool, text: &Option<String>) -> (r: bool)
    ensures
        r == is_searchable(older, text_or_empty(text_of(*text))),
{
    match text {
        Some(text) => searchable(older, text.as_str()),
        None => true,
    }
}

/// The length of a text in bytes, zero if it is missing.
fn optional_text_len(text: &Option<String>) -> (r: usize)
    ensures
        r == encode_utf8(text_or_empty(text_of(*text))).len(),
{
    match text {
        Some(text) => text.as_str().as_bytes().len(),
        None => 0,
    }
}

/// A conversation has a bound that is no smaller than that of its beginning.
proof fn lemma_bound_grows(
    messages: Seq<(Seq<char>, Option<Seq<char>>, Option<Seq<char>>)>,
    count: int,
)
    requires
        0 <= count <= messages.len(),
    ensures
        total_token_bound(messages.take(count)) <= total_token_bound(messages),
    decreases messages.len() - count,
{
    if count < messages.len() {
        lemma_bound_grows(messages, count + 1);
        assert(messages.take(count + 1).drop_last() =~= messages.take(count));
    } else {
        assert(messages.take(count) =~= messages);
    }
}

/// True if the tokenizer of a model with a context of `max_tokens` tokens is
/// known to take the conversation. It may take one for which this is false.
pub fn can_count_tokens(max_tokens: u64, messages: &Vec<Message>) -> (r: bool)
    ensures
        r == is_countable(is_older(tokenizer_model_of(max_tokens)), messages_of(messages@)),
{
    let older: bool = max_tokens < LARGE_CONTEXT;
    proof {
        reveal_strlit("gpt-4");
        reveal_strlit("gpt-4o");
        assert("gpt-4"@.len() != "gpt-4o"@.len());
    }
    let ghost all = messages_of(messages@);
    let mut bound: u128 = 3;
    let mut i: usize = 0;
    assert(all.take(0) =~= Seq::empty());
    while i < messages.len()
        invariant
            i <= messages.len(),
            all == messages_of(messages@),
            older == is_older(tokenizer_model_of(max_tokens)),
            bound == total_token_bound(all.take(i as int)),
            bound <= i32::MAX,
            forall|j: int| 0 <= j < i ==> message_is_searchable(older, #[trigger] all[j]),
        decreases messages.len() - i,
    {
        let message = &messages[i];
        assert(message@ == all[i as int]);
        let role: usize = message.role.as_str().as_bytes().len();
        let content: usize = optional_text_len(&message.content);
        let name: usize = optional_text_len(&message.name);
        bound = bound + role as u128 + content as u128 + name as u128 + 4;
        proof {
            assert(all.take(i + 1).drop_last() =~= all.take(i as int));
            assert(all.take(i + 1).last() == all[i as int]);
            lemma_bound_grows(all, i + 1);
        }
        if bound > 0x7fff_ffff || !message_searchable(older, message) {
            return false;
        }
        i += 1;
    }
    assert(all.take(i as int) =~= all);
    true
}

/// Messages are all seen, in their order, each with its role and with its content
/// and name if it has them.
pub proof fn law_messages_are_seen_whole(messages: Seq<Message>)
    ensures
        messages_of(messages).len() == messages.len(),
        forall|i: int|
            0 <= i < messages.len() ==> {
                let (role, content, name) = #[trigger] messages_of(messages)[i];
                &&& role == messages[i].role@
                &&& content is None <==> messages[i].content is None
                &&& messages[i].content matches Some(text) ==> content == Some(text@)
                &&& name is None <==> messages[i].name is None
                &&& messages[i].name matches Some(text) ==> name == Some(text@)
            },
{
}

/// From a context of 100,000 tokens on the newer tokenizer counts, and below it
/// the older one.
pub proof fn law_context_size_decides_on_the_tokenizer(max_tokens: u64, model: Seq<char>)
    ensures
        is_older(model) <==> model == "gpt-4"@,
        max_tokens >= 100_000 ==> tokenizer_model_of(max_tokens) == "gpt-4o"@ && !is_older(
            tokenizer_model_of(max_tokens),
        ),
        max_tokens < 100_000 ==> tokenizer_model_of(max_tokens) == "gpt-4"@ && is_older(
            tokenizer_model_of(max_tokens),
        ),
{
    reveal_strlit("gpt-4");
    reveal_strlit("gpt-4o");
    assert("gpt-4"@.len() != "gpt-4o"@.len());
}

/// Either tokenizer takes every text of fewer than 499,900 characters, and the
/// older one every text of fewer than 999,900.
pub proof fn law_short_texts_are_searchable(older: bool, text: Seq<char>)
    ensures
        text.len() < 499_900 ==> is_searchable(older, text),
        text.len() < 999_900 ==> is_searchable(true, text),
{
    assert forall|mark: int| mark + LONGEST_CAPITALS <= text.len() implies text.len() >= 499_900
        || !#[trigger] marks_capitals(text, mark, mark + LONGEST_CAPITALS) by {
    }
}

/// A text of any length is taken if it has a break within every 999,900
/// characters and, for the newer tokenizer, among every 499,899 characters one
/// that is known to be no capital letter.
pub proof fn law_texts_with_breaks_are_searchable(older: bool, text: Seq<char>)
    requires
        forall|start: int|
            #![trigger text[start]]
            0 <= start && start + 999_900 <= text.len() ==> exists|i: int|
                start <= i < start + 999_899 && is_break(older, #[trigger] text[i], text[i + 1]),
        older || forall|start: int|
            #![trigger text[start]]
            0 <= start && start + 499_899 <= text.len() ==> exists|i: int|
                start <= i < start + 499_899 && !may_be_capital(#[trigger] text[i]),
    ensures
        is_searchable(older, text),
{
    assert forall|start: int| 0 <= start && start + LONGEST_STRETCH <= text.len() implies
        #[trigger] breaks_between(older, text, start, start + LONGEST_STRETCH) by {
        let first = text[start];
        let i = choose|i: int|
            start <= i < start + 999_899 && is_break(older, #[trigger] text[i], text[i + 1]);
        assert(breaks_at(older, text, i));
    }
    if !older {
        assert forall|mark: int| mark + LONGEST_CAPITALS <= text.len() implies !#[trigger]
            marks_capitals(text, mark, mark + LONGEST_CAPITALS) by {
            if 0 <= mark {
                let first = text[mark + 1];
                let i = choose|i: int|
                    mark + 1 <= i < mark + 1 + 499_899 && !may_be_capital(#[trigger] text[i]);
                assert(mark < i < mark + LONGEST_CAPITALS);
            }
        }
    }
}

/// Digits, the two edges of white space within a line, and the edges of words
/// are breaks for both tokenizers.
pub proof fn law_words_and_numbers_end_at_breaks(older: bool, a: char, b: char)
    ensures
        '0' <= a <= '9' ==> is_break(older, a, b),
        !is_white_space(a) && is_white_space(b) && b != '\n' && b != '\r' ==> is_break(older, a, b),
        is_white_space(a) && !is_white_space(b) && (a != '\n' && a != '\r' || b != '/')
            ==> is_break(older, a, b),
        is_white_space(a) && !is_white_space(b) ==> is_break(true, a, b),
        is_word_character(a) && is_separator(b) ==> is_break(older, a, b),
        is_separator(a) && is_word_character(b) ==> is_break(older, a, b),
{
}

/// Of the ASCII characters the letters make up words and all others stand
/// between them, and the letters from `A` to `Z` are the capital ones.
pub proof fn law_ascii_letters_make_up_words(c: char)
    requires
        c <= '\u{7f}',
    ensures
        is_word_character(c) <==> ('a' <= c <= 'z' || 'A' <= c <= 'Z'),
        is_separator(c) <==> !is_word_character(c),
        may_be_capital(c) <==> 'A' <= c <= 'Z',
        !may_be_mark(c),
{
}

/// The alphabets, abjads and syllabaries in wide use make up words, and nothing
/// that does is white space, stands between words or is a mark.
pub proof fn law_letters_make_up_words(c: char)
    ensures
        '\u{c0}' <= c <= '\u{d6}' || '\u{d8}' <= c <= '\u{f6}' ==> is_word_character(c),
        '\u{f8}' <= c <= '\u{2c1}' ==> is_word_character(c),
        '\u{391}' <= c <= '\u{3a1}' || '\u{3a3}' <= c <= '\u{3f5}' ==> is_word_character(c),
        '\u{400}' <= c <= '\u{481}' || '\u{48a}' <= c <= '\u{52f}' ==> is_word_character(c),
        '\u{531}' <= c <= '\u{556}' || '\u{561}' <= c <= '\u{587}' ==> is_word_character(c),
        '\u{5d0}' <= c <= '\u{5ea}' || '\u{620}' <= c <= '\u{64a}' ==> is_word_character(c),
        '\u{671}' <= c <= '\u{6d3}' || '\u{74d}' <= c <= '\u{7a5}' ==> is_word_character(c),
        '\u{904}' <= c <= '\u{939}' || '\u{993}' <= c <= '\u{9a8}' ==> is_word_character(c),
        '\u{a13}' <= c <= '\u{a28}' || '\u{a93}' <= c <= '\u{aa8}' ==> is_word_character(c),
        '\u{b13}' <= c <= '\u{b28}' || '\u{bae}' <= c <= '\u{bb9}' ==> is_word_character(c),
        '\u{c12}' <= c <= '\u{c28}' || '\u{c92}' <= c <= '\u{ca8}' ==> is_word_character(c),
        '\u{d12}' <= c <= '\u{d3a}' || '\u{d9a}' <= c <= '\u{db1}' ==> is_word_character(c),
        '\u{e01}' <= c <= '\u{e30}' || '\u{e8c}' <= c <= '\u{ea3}' ==> is_word_character(c),
        '\u{f49}' <= c <= '\u{f6c}' || '\u{1000}' <= c <= '\u{102a}' ==> is_word_character(c),
        '\u{10d0}' <= c <= '\u{10fa}' || '\u{1100}' <= c <= '\u{1248}' ==> is_word_character(c),
        '\u{12d8}' <= c <= '\u{1310}' || '\u{13a0}' <= c <= '\u{13f5}' ==> is_word_character(c),
        '\u{1401}' <= c <= '\u{166c}' || '\u{1780}' <= c <= '\u{17b3}' ==> is_word_character(c),
        '\u{1820}' <= c <= '\u{1878}' || '\u{1e00}' <= c <= '\u{1f15}' ==> is_word_character(c),
        '\u{3041}' <= c <= '\u{3096}' || '\u{30a1}' <= c <= '\u{30fa}' ==> is_word_character(c),
        '\u{3105}' <= c <= '\u{312d}' || '\u{3131}' <= c <= '\u{318e}' ==> is_word_character(c),
        '\u{3400}' <= c <= '\u{4db5}' || '\u{4e00}' <= c <= '\u{9fa5}' ==> is_word_character(c),
        '\u{a000}' <= c <= '\u{a48c}' || '\u{ac00}' <= c <= '\u{d7a3}' ==> is_word_character(c),
        '\u{ff21}' <= c <= '\u{ff3a}' || '\u{ff41}' <= c <= '\u{ff5a}' ==> is_word_character(c),
        '\u{ff66}' <= c <= '\u{ff9d}' || '\u{20000}' <= c <= '\u{2a6d6}' ==> is_word_character(c),
        is_word_character(c) ==> !is_white_space(c) && !is_separator(c) && !may_be_mark(c),
{
}

/// Typographic and East Asian punctuation, arrows, shapes and pictographs stand
/// between words, and beyond ASCII nothing that does is white space or a mark.
pub proof fn law_punctuation_stands_between_words(c: char)
    ensures
        c == '\u{ab}' || c == '\u{bb}' ==> is_separator(c),
        '\u{2010}' <= c <= '\u{2027}' || '\u{2190}' <= c <= '\u{2426}' ==> is_separator(c),
        '\u{2500}' <= c <= '\u{2775}' || '\u{3001}' <= c <= '\u{3003}' ==> is_separator(c),
        '\u{3008}' <= c <= '\u{3011}' || '\u{ff01}' <= c <= '\u{ff0f}' ==> is_separator(c),
        '\u{ff1a}' <= c <= '\u{ff20}' || '\u{1f300}' <= c <= '\u{1f64f}' ==> is_separator(c),
        is_separator(c) && c > '\u{7f}' ==> !is_white_space(c) && !may_be_mark(c),
{
}

/// The bound on the tokens of a conversation counts every byte of every text,
/// and a few more for each message.
pub proof fn law_token_bound_counts_bytes(
    messages: Seq<(Seq<char>, Option<Seq<char>>, Option<Seq<char>>)>,
    role: Seq<char>,
    content: Seq<char>,
    name: Seq<char>,
)
    ensures
        total_token_bound(Seq::empty()) == 3,
        total_token_bound(messages.push((role, Some(content), Some(name)))) == total_token_bound(
            messages,
        ) + encode_utf8(role).len() + encode_utf8(content).len() + encode_utf8(name).len() + 4,
        total_token_bound(messages.push((role, Some(content), None))) == total_token_bound(messages)
            + encode_utf8(role).len() + encode_utf8(content).len() + 4,
        total_token_bound(messages.push((role, None, None))) == total_token_bound(messages)
            + encode_utf8(role).len() + 4,
        total_token_bound(messages.push((role, None, Some(name)))) == total_token_bound(messages)
            + encode_utf8(role).len() + encode_utf8(name).len() + 4,
{
    assert(messages.push((role, Some(content), Some(name))).drop_last() =~= messages);
    assert(messages.push((role, Some(content), None)).drop_last() =~= messages);
    assert(messages.push((role, None, None)).drop_last() =~= messages);
    assert(messages.push((role, None, Some(name))).drop_last() =~= messages);
}

/// A conversation is countable exactly if its bound fits 32 bits with a sign and
/// each text of each message is one that the tokenizer takes.
pub proof fn law_countable_conversations_hold_searchable_texts(
    older: bool,
    messages: Seq<(Seq<char>, Option<Seq<char>>, Option<Seq<char>>)>,
)
    ensures
        is_countable(older, messages) <==> {
            &&& total_token_bound(messages) <= 0x7fff_ffff
            &&& forall|i: int|
                0 <= i < messages.len() ==> {
                    &&& is_searchable(older, (#[trigger] messages[i]).0)
                    &&& messages[i].1 matches Some(content) ==> is_searchable(older, content)
                    &&& messages[i].2 matches Some(name) ==> is_searchable(older, name)
                }
        },
{
    law_short_texts_are_searchable(older, Seq::empty());
}

/// A piece that may go on past two characters has no break between them.
pub proof fn law_pieces_go_on_without_a_break(older: bool, a: char, b: char)
    requires
        !('0' <= a <= '9'),
        is_white_space(a) == is_white_space(b) || !is_white_space(a) && (b == '\n' || b == '\r')
            || !older && (a == '\n' || a == '\r') && b == '/',
        !(is_word_character(a) && is_separator(b)),
        !(is_separator(a) && is_word_character(b)),
    ensures
        !is_break(older, a, b),
{
}

/// A text is not taken if 999,900 characters of it have no break, or by the newer
/// tokenizer if what may be a mark stands before 499,899 characters that may all
/// be capital letters.
pub proof fn law_endless_pieces_are_not_searchable(older: bool, text: Seq<char>, start: int)
    ensures
        0 <= start && start + 999_900 <= text.len() && (forall|i: int|
            start <= i < start + 999_899 ==> !is_break(older, #[trigger] text[i], text[i + 1]))
            ==> !is_searchable(older, text),
        0 <= start && start + 499_900 <= text.len() && may_be_mark(text[start]) && (forall|i: int|
            start < i < start + 499_900 ==> may_be_capital(#[trigger] text[i])) ==> !is_searchable(
            false,
            text,
        ),
{
    if 0 <= start && start + 999_900 <= text.len() && (forall|i: int|
        start <= i < start + 999_899 ==> !is_break(older, #[trigger] text[i], text[i + 1])) {
        assert forall|i: int| start <= i < start + LONGEST_STRETCH - 1 implies !#[trigger] breaks_at(
            older,
            text,
            i,
        ) by {
            assert(!is_break(older, text[i], text[i + 1]));
        }
        assert(!breaks_between(older, text, start, start + LONGEST_STRETCH));
    }
    if 0 <= start && start + 499_900 <= text.len() && may_be_mark(text[start]) && (forall|i: int|
        start < i < start + 499_900 ==> may_be_capital(#[trigger] text[i])) {
        assert(marks_capitals(text, start, start + LONGEST_CAPITALS));
    }
}

} // verus!
