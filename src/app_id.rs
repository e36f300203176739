use vstd::prelude::*;

use crate::error::HostError;

verus! {

/// The id of a function app: the 128 bits of a UUID.
#[derive(Clone, Copy, Debug, PartialEq, Eq, Structural)]
pub struct AppId {
    pub value: u128,
}

/// The UUID that `text` denotes, if it is one in any of the accepted forms
/// (simple, hyphenated, URN or braced).
pub uninterp spec fn uuid_of_text(text: Seq<char>) -> Option<u128>;

/// Relies on uuid::Uuid::parse_str: whether `text` is a UUID, and which one,
/// depends on the text alone.
#[verifier::external_body]
fn parse_uuid(text: &str) -> (r: Option<u128>)
    ensures
        r == uuid_of_text(text@),
{
    match uuid::Uuid::parse_str(text) {
        Ok(u) => Some(u.as_u128()),
        Err(_) => None,
    }
}

/// Relies on uuid::Uuid::new_v4: a random version-4 UUID. Nothing is known of
/// its value.
#[verifier::external_body]
fn random_uuid() -> (r: u128) {
    uuid::Uuid::new_v4().as_u128()
}

impl AppId {
    /// Reads an id from its text; `InvalidId` where the text is no UUID.
    pub fn parse(text: &str) -> (r: Result<AppId, HostError>)
        ensures
            match uuid_of_text(text@) {
                Some(v) => r == Ok::<AppId, HostError>(AppId { value: v }),
                None => r == Err::<AppId, HostError>(HostError::InvalidId),
            },
    {
        match parse_uuid(text) {
            Some(v) => Ok(AppId { value: v }),
            None => Err(HostError::InvalidId),
        }
    }

    /// A fresh random id.
    pub fn generate() -> (r: AppId) {
        AppId { value: random_uuid() }
    }
}

} // verus!
