use vstd::prelude::*;

verus! {

/// The RFC 3339 text, in UTC, of the moment `seconds` after the Unix epoch;
/// `None` where that moment cannot be written so.
pub uninterp spec fn rfc3339_utc(seconds: i64) -> Option<Seq<char>>;

/// Calls `time::OffsetDateTime::from_unix_timestamp` and formats what it
/// gives with `OffsetDateTime::format` and the well-known `Rfc3339`
/// description. Both are functions of the timestamp alone; the first fails
/// outside the range of dates the crate represents, the second for a year
/// outside 0 to 9999. The contract only gives the outcome its name.
#[verifier::external_body]
pub(crate) fn format_timestamp(seconds: i64) -> (text: Option<String>)
    ensures
        match text {
            Some(t) => rfc3339_utc(seconds) == Some(t@),
            None => rfc3339_utc(seconds) is None,
        },
{
    let moment = time::OffsetDateTime::from_unix_timestamp(seconds).ok()?;
    moment.format(&time::format_description::well_known::Rfc3339).ok()
}

} // verus!
