use vstd::prelude::*;

verus! {

/// A 128-bit identifier: the library's plain-value form of a version-4 UUID.
#[derive(PartialEq, Eq, Structural, Clone, Copy, Debug, Hash)]
pub struct Uid {
    pub value: u128,
}

/// The canonical hyphenated text rendering of a 128-bit identifier.
pub uninterp spec fn uuid_text(value: u128) -> Seq<char>;

/// Relies on uuid::Uuid::new_v4 for a randomly generated identifier;
/// nothing is assumed about the value drawn.
#[verifier::external_body]
pub(crate) fn fresh_uid() -> Uid {
    Uid { value: uuid::Uuid::new_v4().as_u128() }
}

/// Relies on uuid::Uuid::to_string: the hyphenated rendering is a function
/// of the identifier's 128 bits alone.
#[verifier::external_body]
pub(crate) fn uid_to_string(u: &Uid) -> (r: String)
    ensures
        r@ == uuid_text(u.value),
{
    uuid::Uuid::from_u128(u.value).to_string()
}

/// The identifier that uuid::Uuid::parse_str reads from a text, or None
/// when it reads none; a function of the text alone.
pub uninterp spec fn uuid_of_text(s: Seq<char>) -> Option<u128>;

/// Holds when `r` maps every text that is the canonical rendering of an
/// identifier back to that identifier.
pub open spec fn parses_uuid_back(s: Seq<char>, r: Result<Uid, ()>) -> bool {
    forall|v: u128| s == uuid_text(v) ==> r == Ok::<Uid, ()>(Uid { value: v })
}

/// Relies on uuid::Uuid::parse_str: a deterministic reading of the text, so
/// the outcome is exactly `uuid_of_text`, and it accepts the hyphenated
/// rendering that uuid::Uuid::to_string produces, returning the identifier
/// it renders.
#[verifier::external_body]
pub(crate) fn parse_uid(s: &str) -> (r: Result<Uid, ()>)
    ensures
        parses_uuid_back(s@, r),
        r matches Ok(u) ==> uuid_of_text(s@) == Some(u.value),
        r is Err ==> uuid_of_text(s@) is None,
{
    match uuid::Uuid::parse_str(s) {
        Ok(u) => Ok(Uid { value: u.as_u128() }),
        Err(_) => Err(()),
    }
}

} // verus!
