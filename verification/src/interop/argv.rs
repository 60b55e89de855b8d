//! Splitting a command line into words with the `shell-words` crate.
use vstd::prelude::*;

verus! {

/// The words `shell_words::split` produces for a command line, or `None`
/// where it reports an unterminated quote.
pub uninterp spec fn spec_shell_split(s: Seq<char>) -> Option<Seq<Seq<char>>>;

/// The views of a vector of strings.
pub open spec fn string_views(v: Seq<String>) -> Seq<Seq<char>> {
    v.map_values(|x: String| x@)
}

/// `shell_words::split`. Its only error is an unterminated quote, which the
/// crate renders as the text `missing closing quote`; that text is the `Err`.
#[verifier::external_body]
pub(crate) fn split_words(s: &str) -> (r: Result<Vec<String>, String>)
    ensures
        match r {
            Ok(v) => spec_shell_split(s@) == Some(string_views(v@)),
            Err(e) => spec_shell_split(s@) is None && e@ == "missing closing quote"@,
        },
{
    match shell_words::split(s) {
        Ok(v) => Ok(v),
        Err(e) => Err(e.to_string()),
    }
}

} // verus!
