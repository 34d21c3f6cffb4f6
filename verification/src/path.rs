//! Lexical path cleaning for file-backed connection strings.

use vstd::prelude::*;

verus! {

/// What `path_clean::clean` returns for a path: slashes collapsed, `.`
/// elements dropped, `..` elements resolved lexically, `.` for an empty
/// result. The exact form is a function of the characters alone.
pub uninterp spec fn cleaned_of(path: Seq<char>) -> Seq<char>;

/// Relies on `path_clean::clean`: a pure, lexical normalization of the
/// path, never touching the filesystem; its result for an empty input is
/// `.`, so it is never empty.
#[verifier::external_body]
pub(crate) fn clean_path(path: &str) -> (r: String)
    ensures
        r@ == cleaned_of(path@),
        r@.len() > 0,
{
    path_clean::clean(path).to_string_lossy().into_owned()
}

} // verus!
