use vstd::prelude::*;

verus! {

/// Whether `s` is a well-formed URL in the sense of the `url` crate's parser.
/// The parse is a function of the characters alone; its full grammar is not
/// restated here, only named.
pub uninterp spec fn url_ok(s: Seq<char>) -> bool;

/// Relies on url::Url::parse: it returns `Ok` exactly on well-formed URL
/// strings, deciding from the characters of its argument alone.
#[verifier::external_body]
pub(crate) fn parse_url_ok(s: &str) -> (r: bool)
    ensures
        r == url_ok(s@),
{
    url::Url::parse(s).is_ok()
}

/// Relies on uuid::Uuid::new_v4 and the hyphenated `Display` form of a UUID:
/// the printed form of any UUID is 36 characters. The value itself is
/// random, so nothing more is claimed of it.
#[verifier::external_body]
pub(crate) fn generated_client_id() -> (r: String)
    ensures
        r@.len() == 36,
{
    uuid::Uuid::new_v4().to_string()
}

} // verus!
