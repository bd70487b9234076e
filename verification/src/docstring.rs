//! Doc comments: from the raw text of a comment to the documentation string
//! that a metadata record stores.

use vstd::prelude::*;

verus! {

/// The text that `textwrap::dedent` makes of `raw`: in short, its lines
/// without the leading whitespace that they have in common. What counts as a
/// line, as whitespace and as common is that function's to say; its value is
/// not restated here.
pub uninterp spec fn dedented(raw: Seq<char>) -> Seq<char>;

/// Calls `textwrap::dedent`, which returns a new string and reads nothing but
/// its argument. Trusted: the result is the named text `dedented` of the input.
#[verifier::external_body]
fn dedent(raw: &str) -> (text: String)
    ensures
        text@ == dedented(raw@),
{
    textwrap::dedent(raw)
}

/// The documentation string of a node whose doc comment is `doc`: absent where
/// the comment is absent, the dedented comment otherwise.
pub open spec fn normalized(doc: Option<Seq<char>>) -> Option<Seq<char>> {
    match doc {
        Some(raw) => Some(dedented(raw)),
        None => None,
    }
}

/// Normalizes an optional doc comment. A missing comment stays missing: it
/// never turns into an empty string.
pub fn convert_docstring(doc: &Option<String>) -> (out: Option<String>)
    ensures
        out.deep_view() == normalized(doc.deep_view()),
        out is None <==> doc is None,
{
    match doc {
        Some(raw) => Some(dedent(raw.as_str())),
        None => None,
    }
}

} // verus!
