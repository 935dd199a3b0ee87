use vstd::prelude::*;

verus! {

/// What a page may say of itself before its text begins.
#[derive(Debug, PartialEq, Eq)]
pub struct FrontMatter {
    pub title: Option<String>,
    pub categories: Option<Vec<String>>,
}

impl FrontMatter {
    /// The line that opens and closes a page's front matter.
    pub const DELIMITER: &'static str = "+++";
}

impl Default for FrontMatter {
    fn default() -> (empty: FrontMatter)
        ensures
            empty.title is None,
            empty.categories is None,
    {
        FrontMatter { title: None, categories: None }
    }
}

/// The front matter and the data that `input` falls into, where the front
/// matter stands between two lines that hold `delimiter`.
pub uninterp spec fn enclosed_split(input: Seq<char>, delimiter: Seq<char>) -> (
    Seq<char>,
    Seq<char>,
);

/// Calls `extract_frontmatter::Extractor::extract` on an extractor made
/// with `Splitter::EnclosingLines(delimiter)` and no modifier. The two
/// parts are copied out as they come; the contract only gives them their
/// name.
#[verifier::external_body]
pub(crate) fn extract_enclosed(input: &str, delimiter: &str) -> (parts: (String, String))
    ensures
        (parts.0@, parts.1@) == enclosed_split(input@, delimiter@),
{
    let splitter = extract_frontmatter::config::Splitter::EnclosingLines(delimiter);
    let (front, data) = extract_frontmatter::Extractor::new(splitter).extract(input);
    (front.into_owned(), data.to_string())
}

} // verus!
