use vstd::prelude::*;

verus! {

/// The regular expression that finds a parent-directory marker or a path separator.
pub const TRAVERSAL_PATTERN: &'static str = "(\\.\\.)|/|\\\\";

/// The characters of `TRAVERSAL_PATTERN`.
pub open spec fn traversal_pattern() -> Seq<char> {
    seq!['(', '\\', '.', '\\', '.', ')', '|', '/', '|', '\\', '\\']
}

/// A path separator, or the start of `..`, stands at position `i` of `s`.
pub open spec fn marker_at(s: Seq<char>, i: int) -> bool {
    s[i] == '/' || s[i] == '\\' || (i + 1 < s.len() && s[i] == '.' && s[i + 1] == '.')
}

/// `s` holds `..`, `/` or `\` somewhere.
pub open spec fn has_traversal(s: Seq<char>) -> bool {
    exists|i: int| 0 <= i < s.len() && #[trigger] marker_at(s, i)
}

/// Relies on regex::Regex::new and regex::Regex::is_match: the pattern `(\.\.)|/|\\`
/// compiles, and it matches a text exactly when the text holds `..`, `/` or `\`.
#[verifier::external_body]
fn regex_is_match(pattern: &str, text: &str) -> (r: bool)
    requires
        pattern@ == traversal_pattern(),
    ensures
        r == has_traversal(text@),
{
    regex::Regex::new(pattern).unwrap().is_match(text)
}

/// A version identifier is accepted when it can serve verbatim as a file name and as
/// one component of a URL path.
pub fn is_valid_version(version: &str) -> (r: bool)
    ensures
        r == !has_traversal(version@),
{
    proof {
        reveal_strlit("(\\.\\.)|/|\\\\");
        assert(TRAVERSAL_PATTERN@ =~= traversal_pattern());
    }
    !regex_is_match(TRAVERSAL_PATTERN, version)
}

} // verus!
