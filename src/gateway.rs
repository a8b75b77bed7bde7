use vstd::prelude::*;
use vstd::utf8::encode_utf8;
use crate::config::Config;

verus! {

/// Why a request to the status endpoints was refused.
#[derive(Clone, Copy, Debug, PartialEq, Eq, Structural)]
pub enum AccessError {
    /// No access key came with the request.
    MissingKey,
    /// The access key differs from the configured one.
    WrongKey,
}

/// Why a read or replacement of the door record failed.
#[derive(Clone, Copy, Debug, PartialEq, Eq, Structural)]
pub enum GatewayError {
    Unauthorized(AccessError),
    /// The record is missing from its store.
    NotFound,
    /// The record is not a well-formed door record.
    Corrupt,
    /// The store could not be written.
    WriteFailed,
}

/// Whether the bytes `presented` are exactly the configured access key.
pub open spec fn key_matches(config: Config, presented: Seq<u8>) -> bool {
    presented == encode_utf8(config.access_key@)
}

/// Checks the access key that came with a request against the configured
/// secret, byte for byte.
pub fn authorize(config: &Config, presented: Option<&[u8]>) -> (r: Result<(), AccessError>)
    ensures
        r is Ok <==> (presented matches Some(p) && key_matches(*config, p@)),
        r == Err::<(), AccessError>(AccessError::MissingKey) <==> presented is None,
{
    let p = match presented {
        Some(p) => p,
        None => return Err(AccessError::MissingKey),
    };
    let key = config.access_key.as_str().as_bytes();
    if p.len() != key.len() {
        return Err(AccessError::WrongKey);
    }
    let mut i: usize = 0;
    while i < p.len()
        invariant
            presented matches Some(q) && q@ == p@,
            p@.len() == key@.len(),
            key@ == encode_utf8(config.access_key@),
            i <= p@.len(),
            p@.subrange(0, i as int) == key@.subrange(0, i as int),
        decreases p@.len() - i,
    {
        if p[i] != key[i] {
            assert(p@[i as int] != key@[i as int]);
            return Err(AccessError::WrongKey);
        }
        assert(p@.subrange(0, i + 1) =~= p@.subrange(0, i as int).push(p@[i as int]));
        assert(key@.subrange(0, i + 1) =~= key@.subrange(0, i as int).push(key@[i as int]));
        i = i + 1;
    }
    assert(p@ =~= p@.subrange(0, p@.len() as int));
    assert(key@ =~= key@.subrange(0, key@.len() as int));
    Ok(())
}

impl GatewayError {
    /// HTTP status code reported for the failure: 401 for a refused key,
    /// 503 where the store cannot be read or written, 422 for a malformed
    /// record.
    pub fn status_code(&self) -> (r: u16)
        ensures
            self is Unauthorized ==> r == 401,
            self is NotFound ==> r == 503,
            self is WriteFailed ==> r == 503,
            self is Corrupt ==> r == 422,
    {
        match self {
            GatewayError::Unauthorized(_) => 401,
            GatewayError::NotFound => 503,
            GatewayError::WriteFailed => 503,
            GatewayError::Corrupt => 422,
        }
    }
}

} // verus!
