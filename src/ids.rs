//! Cluster and microdevice ids as they come in from callers.
use vstd::prelude::*;

verus! {

/// Why a cluster id could not be read.
#[derive(Debug, Clone, Copy, PartialEq, Eq, Structural)]
pub enum IdError {
    /// Neither a UUID nor base64: the text is not valid URL-safe base64.
    Base64,
    /// Valid base64, but not the 16 bytes of a UUID.
    Uuid,
}

/// The 16 bytes of the UUID that `s` writes in one of uuid's text forms
/// (simple, hyphenated, urn, Microsoft GUID), if it writes one.
pub uninterp spec fn uuid_text_bytes(s: Seq<char>) -> Option<Seq<u8>>;

/// The bytes that `s` decodes to in URL-safe base64 with canonical padding
/// and no trailing bits, if `s` is valid there.
pub uninterp spec fn url_safe_decoded(s: Seq<char>) -> Option<Seq<u8>>;

/// Relies on uuid's `Uuid::parse_str`, and `Uuid::as_bytes`, which gives the
/// 16 bytes of the UUID.
#[verifier::external_body]
fn parse_uuid_text(s: &str) -> (r: Option<Vec<u8>>)
    ensures
        r is Some == uuid_text_bytes(s@) is Some,
        r is Some ==> r.unwrap()@ == uuid_text_bytes(s@).unwrap() && r.unwrap()@.len() == 16,
{
    match uuid::Uuid::parse_str(s) {
        Ok(u) => Some(u.as_bytes().to_vec()),
        Err(_) => None,
    }
}

/// Relies on base64's `URL_SAFE` engine and its `Engine::decode`.
#[verifier::external_body]
fn decode_url_safe(s: &str) -> (r: Option<Vec<u8>>)
    ensures
        r is Some == url_safe_decoded(s@) is Some,
        r is Some ==> r.unwrap()@ == url_safe_decoded(s@).unwrap(),
{
    match base64::Engine::decode(&base64::engine::general_purpose::URL_SAFE, s) {
        Ok(v) => Some(v),
        Err(_) => None,
    }
}

/// Relies on uuid's `Uuid::from_slice`, which fails exactly when the slice
/// is not 16 bytes long and otherwise keeps the bytes as they are, and on
/// `Uuid::as_bytes`, which gives them back.
#[verifier::external_body]
fn uuid_from_slice(b: &[u8]) -> (r: Option<Vec<u8>>)
    ensures
        r is Some == (b@.len() == 16),
        r is Some ==> r.unwrap()@ == b@,
{
    match uuid::Uuid::from_slice(b) {
        Ok(u) => Some(u.as_bytes().to_vec()),
        Err(_) => None,
    }
}

/// How a cluster id reads: a UUID in text, or else the URL-safe base64 of
/// its 16 bytes.
pub open spec fn cluster_id_of(s: Seq<char>) -> Result<Seq<u8>, IdError> {
    match uuid_text_bytes(s) {
        Some(b) => Ok(b),
        None => match url_safe_decoded(s) {
            None => Err(IdError::Base64),
            Some(d) => if d.len() == 16 {
                Ok(d)
            } else {
                Err(IdError::Uuid)
            },
        },
    }
}

/// Reads a cluster id, given either as a UUID or as base64, into its bytes.
pub fn parse_cluster_id(uuid_str: &String) -> (r: Result<Vec<u8>, IdError>)
    ensures
        match cluster_id_of(uuid_str@) {
            Ok(b) => r is Ok && r->Ok_0@ == b,
            Err(e) => r == Err::<Vec<u8>, IdError>(e),
        },
{
    match parse_uuid_text(uuid_str.as_str()) {
        Some(b) => Ok(b),
        None => match decode_url_safe(uuid_str.as_str()) {
            None => Err(IdError::Base64),
            Some(d) => match uuid_from_slice(d.as_slice()) {
                Some(b) => Ok(b),
                None => Err(IdError::Uuid),
            },
        },
    }
}

/// A microdevice id given as an integer is taken as it is.
pub fn parse_microdevice_id(id: i32) -> (r: Result<i32, IdError>)
    ensures
        r == Ok::<i32, IdError>(id),
{
    Ok(id)
}

} // verus!
