//! From the URI that a file dialog reports to the text of a local path.

use std::string::FromUtf8Error;
use vstd::prelude::*;
use vstd::string::*;

verus! {

/// `std::string::FromUtf8Error`, carried through as an opaque value.
#[verifier::external_type_specification]
#[verifier::external_body]
pub struct ExFromUtf8Error(FromUtf8Error);

/// What `urlencoding::decode` makes of a text: the text with its percent
/// escapes replaced by the bytes they stand for, or nothing where those bytes
/// are not UTF-8.
pub uninterp spec fn percent_decoded(text: Seq<char>) -> Option<Seq<char>>;

/// Calls `urlencoding::decode`, which depends on its argument alone and
/// fails exactly when the decoded bytes are not UTF-8.
#[verifier::external_body]
fn percent_decode(text: &str) -> (decoded: Result<String, FromUtf8Error>)
    ensures
        match decoded {
            Ok(plain) => percent_decoded(text@) == Some(plain@),
            Err(_) => percent_decoded(text@) is None,
        },
{
    match urlencoding::decode(text) {
        Ok(plain) => Ok(plain.into_owned()),
        Err(error) => Err(error),
    }
}

/// `text` after every leading repetition of `pattern` has been removed. An
/// empty pattern removes nothing.
pub open spec fn without_leading(text: Seq<char>, pattern: Seq<char>) -> Seq<char>
    decreases text.len(),
{
    if pattern.len() > 0 && pattern.is_prefix_of(text) {
        without_leading(text.skip(pattern.len() as int), pattern)
    } else {
        text
    }
}

/// The path part of a file URI, still percent-encoded: the URI without its
/// leading `file:/` and without the slashes that follow, and on Unix with one
/// slash in front.
pub open spec fn local_text(uri: Seq<char>, unix: bool) -> Seq<char> {
    let stripped = without_leading(without_leading(uri, "file:/"@), "/"@);
    if unix {
        seq!['/'] + stripped
    } else {
        stripped
    }
}

/// The path text that a URI stands for: its local part, percent-decoded
/// where that succeeds and as it is where it does not.
pub open spec fn path_text(uri: Seq<char>, unix: bool) -> Seq<char> {
    match percent_decoded(local_text(uri, unix)) {
        Some(plain) => plain,
        None => local_text(uri, unix),
    }
}

/// A path as text, and the failure of the decoder where decoding failed.
pub struct LocalPath {
    pub text: String,
    /// Set where the text could not be decoded; the text is then still
    /// percent-encoded, and the front end treats the failure as fatal.
    pub failure: Option<FromUtf8Error>,
}

/// Whether `pattern` stands in `text` at position `start`.
fn matches_at(text: &str, start: usize, pattern: &str) -> (found: bool)
    requires
        start <= text@.len(),
    ensures
        found == pattern@.is_prefix_of(text@.skip(start as int)),
{
    let length = text.unicode_len();
    let needed = pattern.unicode_len();
    if needed > length - start {
        return false;
    }
    let mut offset: usize = 0;
    while offset < needed
        invariant
            offset <= needed,
            needed == pattern@.len(),
            length == text@.len(),
            start + needed <= length,
            forall|i: int| 0 <= i < offset ==> text@[start + i] == pattern@[i],
        decreases needed - offset,
    {
        if text.get_char(start + offset) != pattern.get_char(offset) {
            return false;
        }
        offset += 1;
    }
    true
}

/// Removes every leading repetition of `pattern` from `text`.
pub fn trim_leading<'a>(text: &'a str, pattern: &str) -> (rest: &'a str)
    ensures
        rest@ == without_leading(text@, pattern@),
{
    let length = text.unicode_len();
    let step = pattern.unicode_len();
    if step == 0 {
        return text;
    }
    let mut start: usize = 0;
    assert(text@.skip(0) =~= text@);
    while length - start >= step && matches_at(text, start, pattern)
        invariant
            start <= length,
            length == text@.len(),
            step == pattern@.len(),
            step > 0,
            without_leading(text@, pattern@) == without_leading(
                text@.skip(start as int),
                pattern@,
            ),
        decreases length - start,
    {
        assert(text@.skip(start as int).skip(step as int) =~= text@.skip(start + step));
        start += step;
    }
    text.substring_char(start, length)
}

/// The path part of a file URI, still percent-encoded.
pub fn local_part(uri: &str, unix: bool) -> (local: String)
    ensures
        local@ == local_text(uri@, unix),
{
    let stripped = trim_leading(trim_leading(uri, "file:/"), "/");
    if unix {
        proof {
            reveal_strlit("/");
        }
        let mut local = String::from_str("/");
        local.append(stripped);
        local
    } else {
        String::from_str(stripped)
    }
}

/// Settles on the path text once the decoder has answered: the decoded text
/// where it succeeded, and `raw` together with the failure where it did not.
pub fn resolve_decoded(raw: String, decoded: Result<String, FromUtf8Error>) -> (path: LocalPath)
    ensures
        match decoded {
            Ok(plain) => path.text@ == plain@ && path.failure is None,
            Err(error) => path.text@ == raw@ && path.failure == Some(error),
        },
{
    match decoded {
        Ok(plain) => LocalPath { text: plain, failure: None },
        Err(error) => LocalPath { text: raw, failure: Some(error) },
    }
}

/// Turns the URI that a file dialog reports into the text of a local path.
/// `unix` says whether paths start with a slash on this platform.
pub fn path_from_uri(uri: &str, unix: bool) -> (path: LocalPath)
    ensures
        path.text@ == path_text(uri@, unix),
        path.failure is Some <==> percent_decoded(local_text(uri@, unix)) is None,
{
    let raw = local_part(uri, unix);
    let decoded = percent_decode(raw.as_str());
    resolve_decoded(raw, decoded)
}

} // verus!
