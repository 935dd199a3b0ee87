use vstd::prelude::*;

verus! {

/// The media type guessed for files with the extension `extension`: its
/// top-level type, and its essence, which is type and subtype.
pub uninterp spec fn media_type_of(extension: Seq<char>) -> (Seq<char>, Seq<char>);

/// Calls `mime_guess::from_ext` and takes the first guess, or `text/plain`
/// where there is none (`MimeGuess::first_or_text_plain`); `Mime::type_`
/// and `Mime::essence_str` give the two texts. The guess is looked up in
/// the crate's table by the extension alone. The contract only gives the
/// outcome its name.
#[verifier::external_body]
pub(crate) fn guess_media_type(extension: &str) -> (guess: (String, String))
    ensures
        (guess.0@, guess.1@) == media_type_of(extension@),
{
    let mime = mime_guess::from_ext(extension).first_or_text_plain();
    (mime.type_().as_str().to_string(), mime.essence_str().to_string())
}

} // verus!
