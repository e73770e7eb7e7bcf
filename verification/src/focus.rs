//! The name of the foreground application, taken from the text that the
//! operating system's introspection utility prints.
//!
//! The utility reports the application in front on a line that holds its
//! name between double quotes, and the name is looked for with a regular
//! expression. Output that holds no quoted name, or that is not text at all,
//! yields no name; and where there is no name the target application counts
//! as not being in the foreground.

use vstd::prelude::*;
use vstd::utf8::{decode_utf8, valid_utf8};
use std::string::FromUtf8Error;

verus! {

/// The application that the consumers act upon.
pub const TARGET_APP: &'static str = "Tibia";

/// The pattern that finds a name in the utility's output: a double quote,
/// one or more characters other than a double quote as group 1, and a
/// double quote.
pub const QUOTED_NAME_PATTERN: &'static str = "\"([^\"]+)\"";

/// The error of `regex::Regex::new`, carried through unread.
#[verifier::external_type_specification]
#[verifier::external_body]
pub struct ExRegexError(regex::Error);

/// The error of `String::from_utf8`, carried through unread.
#[verifier::external_type_specification]
#[verifier::external_body]
pub struct ExFromUtf8Error(FromUtf8Error);

/// Whether `regex::Regex::new` compiles `pattern`.
pub uninterp spec fn regex_accepts(pattern: Seq<char>) -> bool;

/// What `regex::Regex::captures` finds in `haystack` for the regular
/// expression compiled from `pattern`: `None` when the expression matches
/// nowhere; otherwise, for the leftmost match, what `Captures::get(group)`
/// holds, that is the text that the group matched, or `None` when the group
/// took no part in the match or the expression has no such group.
pub uninterp spec fn regex_capture(pattern: Seq<char>, haystack: Seq<char>, group: nat) -> Option<
    Option<Seq<char>>,
>;

/// The characters of what a capture holds.
pub open spec fn capture_view(found: Option<Option<String>>) -> Option<Option<Seq<char>>> {
    match found {
        None => None,
        Some(None) => Some(None),
        Some(Some(text)) => Some(Some(text@)),
    }
}

/// Compiles `pattern` with `regex::Regex::new` and searches `haystack` with
/// `regex::Regex::captures`, reading the group with `Captures::get` and
/// `Match::as_str`.
///
/// Trusted: the call fails exactly on the patterns that the regex crate
/// rejects, and otherwise returns what the crate finds, copied into owned
/// strings. What these are is left to the regex crate; nothing is claimed
/// here about any particular pattern or text.
#[verifier::external_body]
fn capture_group(pattern: &str, haystack: &str, group: usize) -> (r: Result<
    Option<Option<String>>,
    regex::Error,
>)
    ensures
        r is Ok <==> regex_accepts(pattern@),
        r matches Ok(found) ==> capture_view(found) == regex_capture(
            pattern@,
            haystack@,
            group as nat,
        ),
{
    let re = regex::Regex::new(pattern)?;
    Ok(re.captures(haystack).map(|caps| caps.get(group).map(|m| m.as_str().to_string())))
}

/// `String::from_utf8`: the bytes become a string exactly when they are
/// valid UTF-8, and the string then holds the characters that they encode.
pub assume_specification[ String::from_utf8 ](bytes: Vec<u8>) -> (r: Result<String, FromUtf8Error>)
    ensures
        r is Ok <==> valid_utf8(bytes@),
        r matches Ok(text) ==> text@ == decode_utf8(bytes@),
;

/// A text without every occurrence of one character.
pub open spec fn without_char(text: Seq<char>, unwanted: char) -> Seq<char> {
    text.filter(|c: char| c != unwanted)
}

/// `str::replace` with a character as the pattern and the empty string as
/// the replacement.
///
/// Trusted: every occurrence of `unwanted` is removed and every other
/// character stays, in order.
#[verifier::external_body]
fn remove_char(text: &str, unwanted: char) -> (r: String)
    ensures
        r@ == without_char(text@, unwanted),
{
    text.replace(unwanted, "")
}

/// The characters of a name, where there is one.
pub open spec fn name_view(name: Option<String>) -> Option<Seq<char>> {
    match name {
        Some(text) => Some(text@),
        None => None,
    }
}

/// The quoted name in what a search found: the text of the group, where the
/// expression matched and the group took part in the match; else none.
pub open spec fn quoted_name(found: Option<Option<Seq<char>>>) -> Option<Seq<char>> {
    match found {
        Some(Some(name)) => Some(name),
        _ => None,
    }
}

/// The application name in one line of the utility's output: the text that
/// the pattern's group 1 matched, where the pattern compiles and finds one;
/// else none. A line without a quoted name has no name, whatever else it
/// holds.
pub open spec fn spec_extract_app_name(text: Seq<char>) -> Option<Seq<char>> {
    if regex_accepts(QUOTED_NAME_PATTERN@) {
        quoted_name(regex_capture(QUOTED_NAME_PATTERN@, text, 1))
    } else {
        None
    }
}

/// Picks the application name once the search has run: the quoted name
/// where one was found, else none.
pub fn choose_app_name(found: Option<Option<String>>) -> (name: Option<String>)
    ensures
        name_view(name) == quoted_name(capture_view(found)),
        name is Some <==> found matches Some(Some(_)),
{
    match found {
        Some(Some(quoted)) => Some(quoted),
        _ => None,
    }
}

/// Extracts the application name from one line of the utility's output.
/// A line in which no quoted name is found yields none, also where the line
/// itself reads like a name.
pub fn extract_app_name(app_name: String) -> (name: Option<String>)
    ensures
        name_view(name) == spec_extract_app_name(app_name@),
        name is Some <==> regex_accepts(QUOTED_NAME_PATTERN@) && regex_capture(
            QUOTED_NAME_PATTERN@,
            app_name@,
            1,
        ) matches Some(Some(_)),
{
    match capture_group(QUOTED_NAME_PATTERN, app_name.as_str(), 1) {
        Ok(found) => choose_app_name(found),
        Err(_) => None,
    }
}

/// The application name that the utility's raw output stands for: where the
/// output is valid UTF-8, its line feeds are removed and the name is
/// extracted from what is left; output that is not valid UTF-8 has none.
pub open spec fn spec_app_name_from_output(output: Seq<u8>) -> Option<Seq<char>> {
    if valid_utf8(output) {
        spec_extract_app_name(without_char(decode_utf8(output), '\n'))
    } else {
        None
    }
}

/// Turns the raw output of the utility into the name of the foreground
/// application. Output that is not valid UTF-8, or that holds no quoted
/// name, yields none.
pub fn app_name_from_output(output: Vec<u8>) -> (name: Option<String>)
    ensures
        name_view(name) == spec_app_name_from_output(output@),
        !valid_utf8(output@) ==> name is None,
{
    match String::from_utf8(output) {
        Ok(text) => extract_app_name(remove_char(text.as_str(), '\n')),
        Err(_) => None,
    }
}

/// Whether `app_name` is the name of the target application.
pub fn is_target_app(app_name: &String) -> (b: bool)
    ensures
        b == (app_name@ == TARGET_APP@),
{
    let target = TARGET_APP.to_owned();
    *app_name == target
}

/// Whether a foreground name, where there is one, is that of the target
/// application. No name is never the target.
pub open spec fn spec_is_focused(foreground: Option<Seq<char>>) -> bool {
    foreground == Some(TARGET_APP@)
}

/// Whether the target application is in the foreground, given the name that
/// was found there. With no name it is not.
pub fn is_focused(foreground: &Option<String>) -> (b: bool)
    ensures
        b == spec_is_focused(name_view(*foreground)),
        foreground is None ==> !b,
{
    match foreground {
        Some(app_name) => is_target_app(app_name),
        None => false,
    }
}

/// No line makes the target look focused unless a quoted name was found in
/// it and that name is the target's: a line without a quoted name counts as
/// unfocused, also where the line itself is the target's name.
pub proof fn lemma_focus_needs_quoted_name(text: Seq<char>)
    ensures
        spec_is_focused(spec_extract_app_name(text)) <==> regex_accepts(QUOTED_NAME_PATTERN@)
            && regex_capture(QUOTED_NAME_PATTERN@, text, 1) == Some(Some(TARGET_APP@)),
{
}

} // verus!
