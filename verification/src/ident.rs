use vstd::prelude::*;

verus! {

// ---------------------------------------------------------------------------
// The stable hashing scheme behind feed and entry identifiers: a name-based
// UUID in the URL namespace, rendered in URN form.  The same scheme serves
// both, applied to different seed strings.
// ---------------------------------------------------------------------------

/// The URN form of the name-based UUID of `seed` in the URL namespace: a
/// function of the seed alone, identical across runs and machines.
pub uninterp spec fn uuid_urn_of(seed: Seq<char>) -> Seq<char>;

/// Relies on uuid::Uuid::new_v5 (the SHA-1 name-based UUID, here in the URL
/// namespace) and uuid::fmt::Urn: the result depends on the seed bytes alone,
/// and a URN string is 45 characters (`urn:uuid:` and the 36 hyphenated hex
/// digits, all ASCII).
#[verifier::external_body]
pub(crate) fn uuid_urn(seed: &str) -> (r: String)
    ensures
        r@ == uuid_urn_of(seed@),
        r@.len() == 45,
{
    uuid::Uuid::new_v5(&uuid::Uuid::NAMESPACE_URL, seed.as_bytes()).urn().to_string()
}

/// Relies on chrono::Local::now and DateTime::to_rfc3339: the current
/// wall-clock time as an RFC 3339 timestamp, which is never empty; nothing
/// more is promised of the value.
#[verifier::external_body]
pub(crate) fn now_rfc3339() -> (r: String)
    ensures
        r@.len() > 0,
{
    chrono::Local::now().to_rfc3339()
}

} // verus!
