//! The calls into the crates `strip_ansi_escapes` and `shlex`.
//!
//! What is said of these calls is believed, not proved: each item below states what it claims of
//! the outside function that it calls.

use crate::text::{joined, texts};
use vstd::prelude::*;

verus! {

/// What `strip_ansi_escapes::strip_str` leaves of a text.
pub uninterp spec fn stripped(text: Seq<char>) -> Seq<char>;

/// The words into which `shlex::split` cuts a text, or `None` where it finds the text malformed.
pub uninterp spec fn shell_words(text: Seq<char>) -> Option<Seq<Seq<char>>>;

/// How `shlex::try_quote` writes a text that it can quote.
pub uninterp spec fn shell_quoted(text: Seq<char>) -> Seq<char>;

/// No control character but the line feed stands in `text`.
pub open spec fn is_plain_text(text: Seq<char>) -> bool {
    forall|i: int|
        0 <= i < text.len() ==> {
            let n = #[trigger] text[i] as u32;
            n == 0xa || !(n <= 0x1f || 0x80 <= n <= 0x9f)
        }
}

/// `word` is not empty and holds no blank, quote, backslash or number sign.
pub open spec fn is_plain_word(word: Seq<char>) -> bool {
    &&& word.len() > 0
    &&& forall|i: int|
        0 <= i < word.len() ==> {
            let c = #[trigger] word[i];
            c != ' ' && c != '\t' && c != '\n' && c != '"' && c != '\'' && c != '\\' && c != '#'
        }
}

/// Each of `words` is plain.
pub open spec fn are_plain_words(words: Seq<Seq<char>>) -> bool {
    forall|i: int| 0 <= i < words.len() ==> is_plain_word(#[trigger] words[i])
}

/// A character that a shell takes as it stands: an ASCII letter or digit, or one of `+-./:@]_`.
pub open spec fn is_shell_safe(c: char) -> bool {
    ||| 'a' <= c <= 'z'
    ||| 'A' <= c <= 'Z'
    ||| '0' <= c <= '9'
    ||| c == '+' || c == '-' || c == '.' || c == '/' || c == ':' || c == '@' || c == ']' || c == '_'
}

/// `word` is not empty and each of its characters is taken by a shell as it stands.
pub open spec fn is_shell_safe_word(word: Seq<char>) -> bool {
    &&& word.len() > 0
    &&& forall|i: int| 0 <= i < word.len() ==> is_shell_safe(#[trigger] word[i])
}

/// Calls `strip_ansi_escapes::strip_str`.
///
/// Claimed: the result depends on the text alone, and a text in which the only control
/// characters are line feeds comes back as it is.
#[verifier::external_body]
pub(crate) fn strip_escapes(text: &str) -> (kept: String)
    ensures
        kept@ == stripped(text@),
        is_plain_text(text@) ==> kept@ == text@,
{
    strip_ansi_escapes::strip_str(text)
}

/// Calls `shlex::split`.
///
/// Claimed: the result depends on the text alone, and plain words with one space between each and
/// the next are cut into those words.
#[verifier::external_body]
pub(crate) fn split_words(text: &str) -> (words: Option<Vec<String>>)
    ensures
        match words {
            Some(list) => shell_words(text@) == Some(texts(list@)),
            None => shell_words(text@) is None,
        },
        forall|plain: Seq<Seq<char>>|
            are_plain_words(plain) && text@ == #[trigger] joined(plain, seq![' ']) ==> {
                &&& words is Some
                &&& texts(words->0@) == plain
            },
{
    shlex::split(text)
}

/// The error of `shlex::try_quote`.
#[verifier::external_type_specification]
#[verifier::external_body]
pub struct ExQuoteError(shlex::QuoteError);

/// Calls `shlex::try_quote`.
///
/// Claimed: it fails exactly on a text with a nul character; what it writes depends on the text
/// alone, is read by `shlex::split` as that one word, and is the text itself where every character
/// is one that a shell takes as it stands.
#[verifier::external_body]
pub(crate) fn quote_word(text: &str) -> (quoted: Result<String, shlex::QuoteError>)
    ensures
        quoted is Err <==> text@.contains('\0'),
        quoted matches Ok(word) ==> {
            &&& word@ == shell_quoted(text@)
            &&& shell_words(word@) == Some(seq![text@])
            &&& is_shell_safe_word(text@) ==> word@ == text@
        },
{
    shlex::try_quote(text).map(|word| word.into_owned())
}

/// Calls `to_string` on the error of `shlex::try_quote`.
///
/// Claimed: the text of the one error there is.
#[verifier::external_body]
pub(crate) fn quote_error_text(error: &shlex::QuoteError) -> (message: String)
    ensures
        message@ == "cannot shell-quote string containing nul byte"@,
{
    error.to_string()
}

} // verus!
