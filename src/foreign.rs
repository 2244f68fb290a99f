//! The calls into std and into shlex that the library relies on, with what it
//! assumes of each.
use vstd::prelude::*;

verus! {

#[verifier::external_type_specification]
#[verifier::external_body]
pub struct ExQuoteError(shlex::QuoteError);

/// The final component of a path, as `std::path::Path::file_name` finds it.
pub uninterp spec fn path_file_name(path: Seq<char>) -> Option<Seq<char>>;

/// The text of `s` quoted as one shell word, as `shlex::try_quote` writes it.
pub uninterp spec fn shell_quoted(s: Seq<char>) -> Seq<char>;

/// The words of `s` under shell splitting rules, as `shlex::split` finds
/// them; `None` where the text cannot be split (an unbalanced quote).
pub uninterp spec fn shell_words(s: Seq<char>) -> Option<Seq<Seq<char>>>;

/// The views of a list of strings.
pub open spec fn string_views(v: Seq<String>) -> Seq<Seq<char>> {
    v.map_values(|s: String| s@)
}

/// Relies on `std::path::Path::file_name`: the final component of the path,
/// or `None` where it has none (as where the path ends in `..`); the result
/// depends on the path alone. A component of a path given as `str` converts
/// back to `str`.
#[verifier::external_body]
pub(crate) fn file_name(path: &str) -> (r: Option<String>)
    ensures
        r matches Some(n) ==> path_file_name(path@) == Some(n@),
        r is None ==> path_file_name(path@) is None,
{
    std::path::Path::new(path).file_name().and_then(|n| n.to_str()).map(|n| n.to_string())
}

/// Relies on `shlex::try_quote` with default settings: it fails exactly when
/// the text holds a nul character, and its result depends on the text alone.
#[verifier::external_body]
pub(crate) fn try_quote(s: &str) -> (r: Result<String, shlex::QuoteError>)
    ensures
        r is Err <==> s@.contains('\0'),
        r matches Ok(q) ==> q@ == shell_quoted(s@),
{
    shlex::try_quote(s).map(|q| q.into_owned())
}

/// Relies on `shlex::split`: the words of the text, or `None` where it
/// cannot be split.
#[verifier::external_body]
pub(crate) fn split(s: &str) -> (r: Option<Vec<String>>)
    ensures
        r matches Some(w) ==> shell_words(s@) == Some(string_views(w@)),
        r is None ==> shell_words(s@) is None,
{
    shlex::split(s)
}

} // verus!
