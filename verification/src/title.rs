//! Title and description of an image, taken from the free text that a model
//! wrote about it.
//!
//! A title stands on a line that begins, in any letter case, with the word
//! `title` followed by a colon or white space; what follows on that line is
//! the title. Where the text has such a line, the description is the text
//! without the first of them. Where no line begins so, the text is the
//! description as it stands, and the title is a fixed one: a `title` inside a
//! line or inside a word counts for nothing. The search is a heuristic and is
//! kept in one place, so that another can take its place.

use vstd::prelude::*;
use crate::text::{chars_of, is_space, is_whitespace, trim, trimmed};
use crate::types::{opt_text, ImageDescriptionResult};

verus! {

/// The pattern of a title: at the start of a line the word, then colons or
/// white space, then the rest of the line, which is the first group.
pub const TITLE_PATTERN: &'static str = "(?im)^title[:\\s]+(.+?)(?:\\n|$)";

/// The title of a text that names none.
pub const DEFAULT_TITLE: &'static str = "Image Analysis";

#[verifier::external_type_specification]
#[verifier::external_body]
pub struct ExRegex(regex::Regex);

#[verifier::external_type_specification]
#[verifier::external_body]
pub struct ExRegexError(regex::Error);

/// The regular expression that a pattern compiles to, if it is one.
pub uninterp spec fn compiled(pattern: Seq<char>) -> Option<regex::Regex>;

/// What a group of the first match of an expression in a text holds, if the
/// text has a match and the group took part in it.
pub uninterp spec fn captured(regex: regex::Regex, text: Seq<char>, group: nat) -> Option<Seq<char>>;

/// A text with the first match of an expression replaced.
pub uninterp spec fn replaced(regex: regex::Regex, text: Seq<char>, replacement: Seq<char>) -> Seq<
    char,
>;

/// `regex::Regex::new`: the expression for a pattern, or the error for a
/// pattern that is none. The same pattern gives the same expression.
#[verifier::external_body]
pub(crate) fn compile(pattern: &str) -> (regex: Result<regex::Regex, regex::Error>)
    ensures
        match regex {
            Ok(expression) => compiled(pattern@) == Some(expression),
            Err(_) => compiled(pattern@) is None,
        },
{
    regex::Regex::new(pattern)
}

/// `regex::Regex::captures`, and of its result the text of one group: `None`
/// where the text has no match, the expression has no such group, or the group
/// took no part in the match.
#[verifier::external_body]
pub(crate) fn capture(regex: &regex::Regex, text: &str, group: usize) -> (found: Option<String>)
    ensures
        opt_text(found) == captured(*regex, text@, group as nat),
{
    match regex.captures(text) {
        Some(groups) => match groups.get(group) {
            Some(part) => Some(part.as_str().to_owned()),
            None => None,
        },
        None => None,
    }
}

/// `regex::Regex::replace`: the text with its first match replaced.
#[verifier::external_body]
pub(crate) fn replace_first(regex: &regex::Regex, text: &str, replacement: &str) -> (result: String)
    ensures
        result@ == replaced(*regex, text@, replacement@),
{
    regex.replace(text, replacement).into_owned()
}

/// Whether two characters are the same letter, whatever their case. The
/// second is a lower-case ASCII letter.
pub open spec fn same_letter(c: char, lower: char) -> bool {
    c == lower || (c as u32) + 32 == lower as u32
}

/// Whether the word `title`, in any letter case, stands at position `at` with
/// a colon or white space behind it.
pub open spec fn title_at(text: Seq<char>, at: int) -> bool {
    &&& 0 <= at
    &&& at + 6 <= text.len()
    &&& same_letter(text[at], 't')
    &&& same_letter(text[at + 1], 'i')
    &&& same_letter(text[at + 2], 't')
    &&& same_letter(text[at + 3], 'l')
    &&& same_letter(text[at + 4], 'e')
    &&& (text[at + 5] == ':' || is_space(text[at + 5]))
}

/// Whether a line begins at position `at`: at the start of the text, or
/// behind a line feed.
pub open spec fn line_start(text: Seq<char>, at: int) -> bool {
    at == 0 || (0 < at <= text.len() && text[at - 1] == '\n')
}

/// Whether some line of the text begins with the word `title` followed by a
/// colon or white space.
pub open spec fn has_title_line(text: Seq<char>) -> bool {
    exists|at: int| line_start(text, at) && #[trigger] title_at(text, at)
}

fn is_letter(c: char, lower: char) -> (same: bool)
    requires
        'a' <= lower <= 'z',
    ensures
        same == same_letter(c, lower),
{
    let code: u32 = c as u32;
    let low: u32 = lower as u32;
    code == low || code + 32 == low
}

fn is_title_at(text: &Vec<char>, at: usize) -> (found: bool)
    ensures
        found == title_at(text@, at as int),
{
    let n: usize = text.len();
    if at > n || n - at < 6 {
        return false;
    }
    let behind = text[at + 5];
    is_letter(text[at], 't') && is_letter(text[at + 1], 'i') && is_letter(text[at + 2], 't')
        && is_letter(text[at + 3], 'l') && is_letter(text[at + 4], 'e') && (behind == ':'
        || is_whitespace(behind))
}

/// Whether some line of the text begins with the word `title` followed by a
/// colon or white space.
pub fn begins_title_line(content: &str) -> (found: bool)
    ensures
        found == has_title_line(content@),
{
    let text = chars_of(content);
    let n: usize = text.len();
    let mut at: usize = 0;
    while at < n
        invariant
            n == text@.len(),
            text@ == content@,
            at <= n,
            forall|k: int| 0 <= k < at ==> !(line_start(text@, k) && title_at(text@, k)),
        decreases n - at,
    {
        if (at == 0 || text[at - 1] == '\n') && is_title_at(&text, at) {
            return true;
        }
        at = at + 1;
    }
    proof {
        assert forall|k: int| !(line_start(text@, k) && #[trigger] title_at(text@, k)) by {
            if k >= n {
                assert(!title_at(text@, k));
            }
        }
    }
    false
}

/// Title and description, given what the search found: the rest of the title
/// line, and the text without the first match. Both are trimmed. Where nothing
/// was found, the title is the fixed one and the description is the text,
/// untouched.
pub open spec fn described(content: Seq<char>, found: Option<Seq<char>>, remainder: Seq<char>) -> (
    Seq<char>,
    Seq<char>,
) {
    match found {
        Some(title) => (trimmed(title), trimmed(remainder)),
        None => (DEFAULT_TITLE@, content),
    }
}

/// What was found in a text: the rest of its first title line, and the text
/// without the first match. Nothing is found where the pattern does not
/// compile.
pub open spec fn title_search(content: Seq<char>) -> (Option<Seq<char>>, Seq<char>) {
    match compiled(TITLE_PATTERN@) {
        Some(expression) => (
            captured(expression, content, 1),
            replaced(expression, content, Seq::empty()),
        ),
        None => (None, content),
    }
}

/// Title and description of a text. A text in which no line begins with the
/// word is not searched at all.
pub open spec fn title_of(content: Seq<char>) -> (Seq<char>, Seq<char>) {
    if has_title_line(content) {
        described(content, title_search(content).0, title_search(content).1)
    } else {
        (DEFAULT_TITLE@, content)
    }
}

/// Title and description, given what the search found.
pub fn describe(content: &str, found: Option<&str>, remainder: &str) -> (result:
    ImageDescriptionResult)
    ensures
        (result.title@, result.description@) == described(
            content@,
            match found {
                Some(title) => Some(title@),
                None => None,
            },
            remainder@,
        ),
{
    match found {
        Some(title) => ImageDescriptionResult {
            title: trim(title).to_owned(),
            description: trim(remainder).to_owned(),
        },
        None => ImageDescriptionResult {
            title: DEFAULT_TITLE.to_owned(),
            description: content.to_owned(),
        },
    }
}

/// Title and description of a text.
pub fn extract_title(content: &str) -> (result: ImageDescriptionResult)
    ensures
        (result.title@, result.description@) == title_of(content@),
{
    if !begins_title_line(content) {
        return describe(content, None, content);
    }
    match compile(TITLE_PATTERN) {
        Ok(expression) => {
            match capture(&expression, content, 1) {
                Some(title) => {
                    let remainder = replace_first(&expression, content, "");
                    proof {
                        reveal_strlit("");
                        assert(""@ =~= Seq::<char>::empty());
                    }
                    describe(content, Some(title.as_str()), remainder.as_str())
                },
                None => describe(content, None, content),
            }
        },
        Err(_) => describe(content, None, content),
    }
}

/// A text in which no line begins with the word `title` followed by a colon
/// or white space keeps all of itself as the description, white space
/// included, under the fixed title.
pub proof fn lemma_untitled_text_is_kept(content: Seq<char>)
    requires
        !has_title_line(content),
    ensures
        title_of(content) == (DEFAULT_TITLE@, content),
{
}

/// So does a text in which the search finds nothing.
pub proof fn lemma_unmatched_text_is_kept(content: Seq<char>)
    requires
        title_search(content).0 is None,
    ensures
        title_of(content) == (DEFAULT_TITLE@, content),
{
}

} // verus!
