//! Regular-expression searches through the `regex` crate.

use vstd::prelude::*;

verus! {

#[verifier::external_type_specification]
#[verifier::external_body]
pub struct ExRegexError(regex::Error);

/// What `Regex::new(pattern)` followed by `captures(haystack)` and
/// `get(group)` gives: `None` when the pattern does not compile, `Some(None)`
/// when there is no match or the group took no part in it, and
/// `Some(Some(text))` with the text of the group in the leftmost-first match.
pub uninterp spec fn regex_capture_group(
    pattern: Seq<char>,
    haystack: Seq<char>,
    group: nat,
) -> Option<Option<Seq<char>>>;

/// What `Regex::new(pattern)` followed by `replace(haystack, replacement)`
/// gives: `None` when the pattern does not compile, else the haystack with
/// its leftmost-first match replaced (`$` references in the replacement
/// expanded).
pub uninterp spec fn regex_replace_first(
    pattern: Seq<char>,
    haystack: Seq<char>,
    replacement: Seq<char>,
) -> Option<Seq<char>>;

/// Compiles `pattern` with `regex::Regex::new` and returns the text of
/// capture group `group` in the first match in `haystack`
/// (`Regex::captures`, `Captures::get`, `Match::as_str`). The contract
/// claims no more than that the outcome is `regex_capture_group` of the
/// arguments.
#[verifier::external_body]
pub(crate) fn capture_group(pattern: &str, haystack: &str, group: usize) -> (r: Result<
    Option<String>,
    regex::Error,
>)
    ensures
        match regex_capture_group(pattern@, haystack@, group as nat) {
            None => r is Err,
            Some(None) => r matches Ok(None::<String>),
            Some(Some(text)) => r matches Ok(Some(s)) && s@ == text,
        },
{
    let re = regex::Regex::new(pattern)?;
    Ok(re.captures(haystack).and_then(|caps| caps.get(group)).map(|m| m.as_str().to_string()))
}

/// Compiles `pattern` with `regex::Regex::new` and replaces its first match
/// in `haystack` with `replacement` (`Regex::replace`). The contract claims
/// no more than that the outcome is `regex_replace_first` of the arguments.
#[verifier::external_body]
pub(crate) fn replace_first(pattern: &str, haystack: &str, replacement: &str) -> (r: Result<
    String,
    regex::Error,
>)
    ensures
        match regex_replace_first(pattern@, haystack@, replacement@) {
            None => r is Err,
            Some(text) => r matches Ok(s) && s@ == text,
        },
{
    let re = regex::Regex::new(pattern)?;
    Ok(re.replace(haystack, replacement).into_owned())
}

} // verus!
