//! Text as the provider reads it from commands and editors, and the functions
//! of the standard library and of `convert_case` that it is passed through.

use convert_case::{Case, Casing};
use std::string::FromUtf8Error;
use vstd::prelude::*;
use vstd::utf8::{decode_utf8, valid_utf8};

verus! {

/// The characters with the Unicode property `White_Space`.
pub open spec fn is_white_space(c: char) -> bool {
    let code = c as u32;
    ||| 0x9 <= code <= 0xd
    ||| code == 0x20
    ||| code == 0x85
    ||| code == 0xa0
    ||| code == 0x1680
    ||| 0x2000 <= code <= 0x200a
    ||| code == 0x2028
    ||| code == 0x2029
    ||| code == 0x202f
    ||| code == 0x205f
    ||| code == 0x3000
}

/// True if `c` has the Unicode property `White_Space`.
pub(crate) fn white_space(c: char) -> (r: bool)
    ensures
        r == is_white_space(c),
{
    let code: u32 = c as u32;
    (0x9 <= code && code <= 0xd) || code == 0x20 || code == 0x85 || code == 0xa0 || code == 0x1680
        || (0x2000 <= code && code <= 0x200a) || code == 0x2028 || code == 0x2029 || code == 0x202f
        || code == 0x205f || code == 0x3000
}

/// `s` without the white space it starts with.
pub open spec fn trimmed_start(s: Seq<char>) -> Seq<char>
    decreases s.len(),
{
    if s.len() > 0 && is_white_space(s[0]) {
        trimmed_start(s.subrange(1, s.len() as int))
    } else {
        s
    }
}

/// `s` without the white space it ends with.
pub open spec fn trimmed_end(s: Seq<char>) -> Seq<char>
    decreases s.len(),
{
    if s.len() > 0 && is_white_space(s[s.len() - 1]) {
        trimmed_end(s.subrange(0, s.len() - 1))
    } else {
        s
    }
}

/// `s` without the white space at either end.
pub open spec fn trimmed(s: Seq<char>) -> Seq<char> {
    trimmed_end(trimmed_start(s))
}

/// True if every character of `s` is white space.
pub open spec fn is_blank(s: Seq<char>) -> bool {
    forall|i: int| 0 <= i < s.len() ==> is_white_space(#[trigger] s[i])
}

/// True if `c` is one of the letters `a` to `z`.
pub open spec fn is_ascii_lowercase(c: char) -> bool {
    'a' <= c <= 'z'
}

/// What a text is or is not there, with an owned string seen as its characters.
pub open spec fn text_of(text: Option<String>) -> Option<Seq<char>> {
    match text {
        Some(text) => Some(text@),
        None => None,
    }
}

/// `std::string::FromUtf8Error`: the error of a failed UTF-8 conversion. It is
/// carried along and only its own `Display` text is ever read.
#[verifier::external_type_specification]
#[verifier::external_body]
pub struct ExFromUtf8Error(FromUtf8Error);

/// `str::trim` removes the white space at both ends and nothing else, white
/// space being the Unicode property `White_Space`.
pub assume_specification[ str::trim ](s: &str) -> (r: &str)
    ensures
        r@ == trimmed(s@),
;

/// `String::from_utf8` succeeds exactly on well-formed UTF-8, and then gives
/// the characters that the bytes encode.
pub assume_specification[ String::from_utf8 ](vec: Vec<u8>) -> (r: Result<
    String,
    FromUtf8Error,
>)
    ensures
        r is Ok <==> valid_utf8(vec@),
        r matches Ok(text) ==> text@ == decode_utf8(vec@),
;

/// What `String::from_utf8_lossy` makes of some bytes.
pub uninterp spec fn lossy_text(bytes: Seq<u8>) -> Seq<char>;

/// `String::from_utf8_lossy`: the text depends on the bytes alone, and is what
/// they encode if they are well-formed UTF-8. Where the replacement characters
/// stand in the text of malformed bytes is left unsaid.
#[verifier::external_body]
pub(crate) fn text_from_utf8_lossy(bytes: &Vec<u8>) -> (r: String)
    ensures
        r@ == lossy_text(bytes@),
        valid_utf8(bytes@) ==> r@ == decode_utf8(bytes@),
{
    String::from_utf8_lossy(bytes).into_owned()
}

/// What `convert_case` makes of a text in the case `Case::UpperSnake`.
pub uninterp spec fn upper_snake_case(text: Seq<char>) -> Seq<char>;

/// `convert_case::Casing::to_case` with `Case::UpperSnake`: the result depends
/// on the text alone, and no letter from `a` to `z` is left in it. Where the
/// words of the text begin and end is left unsaid.
#[verifier::external_body]
pub(crate) fn to_upper_snake_case(text: &str) -> (r: String)
    ensures
        r@ == upper_snake_case(text@),
        forall|i: int| 0 <= i < r@.len() ==> !is_ascii_lowercase(#[trigger] r@[i]),
{
    text.to_case(Case::UpperSnake)
}

/// Trimming at the start removes a blank prefix, and what is left does not
/// start with white space.
proof fn lemma_trimmed_start(s: Seq<char>)
    ensures
        trimmed_start(s).len() <= s.len(),
        trimmed_start(s) == s.subrange(s.len() - trimmed_start(s).len(), s.len() as int),
        is_blank(s.subrange(0, s.len() - trimmed_start(s).len())),
        trimmed_start(s).len() > 0 ==> !is_white_space(trimmed_start(s)[0]),
    decreases s.len(),
{
    if s.len() > 0 && is_white_space(s[0]) {
        let rest = s.subrange(1, s.len() as int);
        lemma_trimmed_start(rest);
        let kept = trimmed_start(s).len() as int;
        assert(trimmed_start(s) =~= s.subrange(s.len() - kept, s.len() as int));
        assert forall|i: int| 0 <= i < s.len() - kept implies is_white_space(
            #[trigger] s.subrange(0, s.len() - kept)[i],
        ) by {
            if i > 0 {
                assert(rest.subrange(0, rest.len() - kept)[i - 1] == s[i]);
            }
        }
    } else {
        assert(s =~= s.subrange(0, s.len() as int));
    }
}

/// Trimming at the end removes a blank suffix, and what is left does not end
/// with white space.
proof fn lemma_trimmed_end(s: Seq<char>)
    ensures
        trimmed_end(s).len() <= s.len(),
        trimmed_end(s) == s.subrange(0, trimmed_end(s).len() as int),
        is_blank(s.subrange(trimmed_end(s).len() as int, s.len() as int)),
        trimmed_end(s).len() > 0 ==> !is_white_space(trimmed_end(s)[trimmed_end(s).len() - 1]),
    decreases s.len(),
{
    if s.len() > 0 && is_white_space(s[s.len() - 1]) {
        let rest = s.subrange(0, s.len() - 1);
        lemma_trimmed_end(rest);
        let kept = trimmed_end(s).len() as int;
        assert(trimmed_end(s) =~= s.subrange(0, kept));
        assert forall|i: int| 0 <= i < s.len() - kept implies is_white_space(
            #[trigger] s.subrange(kept, s.len() as int)[i],
        ) by {
            if i < s.len() - kept - 1 {
                assert(rest.subrange(kept, rest.len() as int)[i] == s[kept + i]);
            }
        }
    } else {
        assert(s =~= s.subrange(0, s.len() as int));
    }
}

/// Trimming takes a blank text off each end and keeps what is between them.
pub proof fn law_trimming_removes_blank_ends(s: Seq<char>)
    ensures
        exists|front: Seq<char>, back: Seq<char>| #[trigger]
            is_blank(front) && #[trigger] is_blank(back) && s == front + trimmed(s) + back,
{
    let middle = trimmed_start(s);
    lemma_trimmed_start(s);
    lemma_trimmed_end(middle);
    let front = s.subrange(0, s.len() - middle.len());
    let back = middle.subrange(trimmed(s).len() as int, middle.len() as int);
    assert(s =~= front + trimmed(s) + back) by {
        assert(s =~= front + middle);
        assert(middle =~= trimmed(s) + back);
    }
    assert(is_blank(front) && is_blank(back));
}

/// A trimmed text neither starts nor ends with white space.
pub proof fn law_trimmed_text_has_no_blank_ends(s: Seq<char>)
    ensures
        trimmed(s).len() > 0 ==> !is_white_space(trimmed(s)[0]) && !is_white_space(
            trimmed(s)[trimmed(s).len() - 1],
        ),
{
    lemma_trimmed_start(s);
    lemma_trimmed_end(trimmed_start(s));
}

/// Trimming a trimmed text changes nothing.
pub proof fn law_trimming_twice_is_trimming_once(s: Seq<char>)
    ensures
        trimmed(trimmed(s)) == trimmed(s),
{
    law_trimmed_text_has_no_blank_ends(s);
}

/// Trimming leaves nothing exactly of the texts that are blank.
pub proof fn law_trimming_empties_exactly_blank_text(s: Seq<char>)
    ensures
        trimmed(s).len() == 0 <==> is_blank(s),
{
    law_trimming_removes_blank_ends(s);
    law_trimmed_text_has_no_blank_ends(s);
    let (front, back) = choose|front: Seq<char>, back: Seq<char>| #[trigger]
        is_blank(front) && #[trigger] is_blank(back) && s == front + trimmed(s) + back;
    if trimmed(s).len() == 0 {
        assert forall|i: int| 0 <= i < s.len() implies is_white_space(#[trigger] s[i]) by {
            if i < front.len() {
                assert(s[i] == front[i]);
            } else {
                assert(s[i] == back[i - front.len()]);
            }
        }
    } else {
        assert(s[front.len() as int] == trimmed(s)[0]);
    }
}

/// The white space is tab to carriage return, the space, the next line and
/// no-break space of Latin-1, and the spaces and separators of Unicode.
pub proof fn law_white_space_is_the_unicode_property(c: char)
    ensures
        is_white_space(c) <==> ('\t' <= c <= '\r' || c == ' ' || c == '\u{85}' || c == '\u{a0}' || c
            == '\u{1680}' || '\u{2000}' <= c <= '\u{200a}' || '\u{2028}' <= c <= '\u{2029}' || c
            == '\u{202f}' || c == '\u{205f}' || c == '\u{3000}'),
{
}

/// A text that may be missing is seen as missing exactly if it is, and else as
/// all of its characters.
pub proof fn law_texts_are_seen_whole(text: Option<String>)
    ensures
        text is None <==> text_of(text) is None,
        text matches Some(there) ==> text_of(text) matches Some(seen) && seen == there@,
{
}

/// Whatever white space is put around a text that has none at its ends, trimming
/// gives the text back.
pub proof fn law_trimming_undoes_padding(front: Seq<char>, text: Seq<char>, back: Seq<char>)
    requires
        forall|i: int| 0 <= i < front.len() ==> is_white_space(#[trigger] front[i]),
        forall|i: int| 0 <= i < back.len() ==> is_white_space(#[trigger] back[i]),
        text.len() > 0 ==> !is_white_space(text[0]) && !is_white_space(text[text.len() - 1]),
    ensures
        trimmed(front + text + back) == text,
{
    let s = front + text + back;
    law_trimming_removes_blank_ends(s);
    law_trimmed_text_has_no_blank_ends(s);
    law_trimming_empties_exactly_blank_text(s);
    let (before, after) = choose|before: Seq<char>, after: Seq<char>| #[trigger]
        is_blank(before) && #[trigger] is_blank(after) && s == before + trimmed(s) + after;
    if text.len() == 0 {
        assert forall|i: int| 0 <= i < s.len() implies is_white_space(#[trigger] s[i]) by {
            if i < front.len() {
                assert(s[i] == front[i]);
            } else {
                assert(s[i] == back[i - front.len()]);
            }
        }
        assert(trimmed(s) =~= text);
    } else {
        let kept = trimmed(s);
        assert(s[front.len() as int] == text[0]);
        assert(kept.len() > 0);
        let first = before.len() as int;
        let last = first + kept.len() - 1;
        let end = front.len() + text.len() - 1;
        assert(s[first] == kept[0]);
        assert(s[last] == kept[kept.len() - 1]);
        assert(s[end] == text[text.len() - 1]);
        assert(first >= front.len()) by {
            if first < front.len() {
                assert(s[first] == front[first]);
            }
        }
        assert(first <= front.len()) by {
            if first > front.len() {
                assert(s[front.len() as int] == before[front.len() as int]);
            }
        }
        assert(last <= end) by {
            if last > end {
                assert(s[last] == back[last - end - 1]);
            }
        }
        assert(last >= end) by {
            if last < end {
                assert(s[end] == after[end - last - 1]);
            }
        }
        assert forall|i: int| 0 <= i < text.len() implies text[i] == kept[i] by {
            assert(s[front.len() + i] == text[i]);
            assert(s[first + i] == kept[i]);
        }
        assert(kept =~= text);
    }
}

/// A text is blank exactly if it holds nothing but white space.
pub proof fn law_blank_text_is_white_space(s: Seq<char>)
    ensures
        is_blank(s) <==> !exists|i: int| 0 <= i < s.len() && !is_white_space(#[trigger] s[i]),
{
}

} // verus!
