use vstd::prelude::*;

verus! {

/// What is left of the path `path` behind the path `base`, as the target's
/// path syntax reads the two; `None` where `path` does not begin with
/// `base`.
pub uninterp spec fn stripped_path(path: Seq<char>, base: Seq<char>) -> Option<Seq<char>>;

/// The stem of the path's file name: the name without its extension.
/// `None` where the path has no file name.
pub uninterp spec fn file_stem_of(path: Seq<char>) -> Option<Seq<char>>;

/// The extension of the path's file name, without the dot; `None` where it
/// has none.
pub uninterp spec fn extension_of_path(path: Seq<char>) -> Option<Seq<char>>;

/// The path `path` with the extension of its file name replaced by
/// `extension`, or taken away where `extension` is empty.
pub uninterp spec fn path_with_extension(path: Seq<char>, extension: Seq<char>) -> Seq<char>;

/// Calls `std::path::Path::strip_prefix`, which compares the two paths
/// segment by segment and reads nothing but them. The contract only gives
/// the outcome its name.
#[verifier::external_body]
pub(crate) fn strip_prefix(path: &str, base: &str) -> (rest: Option<String>)
    ensures
        match rest {
            Some(r) => stripped_path(path@, base@) == Some(r@),
            None => stripped_path(path@, base@) is None,
        },
{
    std::path::Path::new(path).strip_prefix(base).ok().map(|rest| rest.to_string_lossy().into_owned())
}

/// Calls `std::path::Path::file_stem`. The contract only gives the outcome
/// its name.
#[verifier::external_body]
pub(crate) fn file_stem(path: &str) -> (stem: Option<String>)
    ensures
        match stem {
            Some(s) => file_stem_of(path@) == Some(s@),
            None => file_stem_of(path@) is None,
        },
{
    std::path::Path::new(path).file_stem().map(|stem| stem.to_string_lossy().into_owned())
}

/// Calls `std::path::Path::extension`. The contract only gives the outcome
/// its name.
#[verifier::external_body]
pub(crate) fn extension(path: &str) -> (found: Option<String>)
    ensures
        match found {
            Some(e) => extension_of_path(path@) == Some(e@),
            None => extension_of_path(path@) is None,
        },
{
    std::path::Path::new(path).extension().map(|found| found.to_string_lossy().into_owned())
}

/// An extension that holds no separator of path segments.
pub open spec fn plain_extension(extension: Seq<char>) -> bool {
    forall|i: int|
        0 <= i < extension.len() ==> #[trigger] extension[i] != '/' && extension[i] != '\\'
}

/// Calls `std::path::Path::with_extension`, which panics on an extension
/// that holds a separator of path segments. The contract only gives the
/// outcome its name.
#[verifier::external_body]
pub(crate) fn with_extension(path: &str, extension: &str) -> (changed: String)
    requires
        plain_extension(extension@),
    ensures
        changed@ == path_with_extension(path@, extension@),
{
    std::path::Path::new(path).with_extension(extension).to_string_lossy().into_owned()
}

} // verus!
