use vstd::prelude::*;
use crate::git::{ErrorClass, ErrorCode, GitFailure};

verus! {

/// The object id that `text` spells in hexadecimal digits, written out in
/// full; `None` where `text` spells none.
pub uninterp spec fn oid_of(text: Seq<char>) -> Option<Seq<char>>;

/// Calls `git2::Oid::from_str` and writes the id it gives with
/// `Oid::to_string`. The parse reads nothing but the text: it fails on an
/// empty text, on more than 40 characters and on any that is no hexadecimal
/// digit. The contract only gives the outcome its name; of the failure,
/// which is read out of the crate's error, it claims nothing.
#[verifier::external_body]
pub(crate) fn parse_oid(text: &str) -> (id: Result<String, GitFailure>)
    ensures
        match id {
            Ok(hex) => oid_of(text@) == Some(hex@),
            Err(_) => oid_of(text@) is None,
        },
{
    git2::Oid::from_str(text).map(|oid| oid.to_string()).map_err(|error| GitFailure {
        class: match error.class() {
            git2::ErrorClass::Os => ErrorClass::Os,
            git2::ErrorClass::Repository => ErrorClass::Repository,
            _ => ErrorClass::Other,
        },
        code: match error.code() {
            git2::ErrorCode::NotFound => ErrorCode::NotFound,
            git2::ErrorCode::GenericError => ErrorCode::GenericError,
            _ => ErrorCode::Other,
        },
        message: error.message().to_string(),
    })
}

} // verus!
