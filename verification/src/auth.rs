//! Who may upload: the client that presents the configured secret.

use crate::headers::{bytes_of, first_value, lookup};
use crate::reply::AuthError;
use axum::http::HeaderMap;
use vstd::prelude::*;
use vstd::string::*;
use vstd::utf8::encode_utf8;

verus! {

/// What the service is configured with when it starts, and never changes
/// afterwards: the secret that opens the upload.
#[derive(Clone, Debug, PartialEq, Eq)]
pub struct Config {
    pub secret: String,
}

impl Config {
    /// The secret as bytes: what a credential is compared with.
    pub open spec fn secret_bytes(&self) -> Seq<u8> {
        encode_utf8(self.secret@)
    }

    /// The configuration with the secret `secret`.
    pub fn new(secret: String) -> (config: Config)
        ensures
            config.secret@ == secret@,
    {
        Config { secret }
    }
}

/// The verdict on what a request presents as its credential: it has to be
/// there, and it has to be the secret, byte for byte.
pub open spec fn authorization(secret: Seq<u8>, presented: Option<Seq<u8>>) -> Result<
    (),
    AuthError,
> {
    match presented {
        None => Err(AuthError::Missing),
        Some(bytes) => if bytes == secret {
            Ok(())
        } else {
            Err(AuthError::Invalid)
        },
    }
}

/// Whether two byte strings are the same.
pub fn same_bytes(a: &[u8], b: &[u8]) -> (same: bool)
    ensures
        same == (a@ == b@),
{
    if a.len() != b.len() {
        return false;
    }
    let mut i: usize = 0;
    while i < a.len()
        invariant
            a@.len() == b@.len(),
            i <= a@.len(),
            a@.take(i as int) == b@.take(i as int),
        decreases a@.len() - i,
    {
        if a[i] != b[i] {
            return false;
        }
        proof {
            assert(a@.take(i + 1) =~= a@.take(i as int).push(a@[i as int]));
            assert(b@.take(i + 1) =~= b@.take(i as int).push(b@[i as int]));
        }
        i = i + 1;
    }
    proof {
        assert(a@ =~= a@.take(i as int) && b@ =~= b@.take(i as int));
    }
    true
}

/// Decides whether the credential that a request presents opens the upload.
pub fn check_credential(config: &Config, presented: &Option<Vec<u8>>) -> (verdict: Result<
    (),
    AuthError,
>)
    ensures
        verdict == authorization(config.secret_bytes(), bytes_of(*presented)),
{
    match presented {
        None => Err(AuthError::Missing),
        Some(bytes) => if same_bytes(bytes.as_slice(), config.secret.as_str().as_bytes()) {
            Ok(())
        } else {
            Err(AuthError::Invalid)
        },
    }
}

/// The name of the header that carries the credential.
pub open spec fn credential_header() -> Seq<char> {
    "Authorization"@
}

/// What a request presents as its credential: the bytes of its
/// `Authorization` header, the first one where there are several.
pub fn credential_of(headers: &HeaderMap) -> (presented: Option<Vec<u8>>)
    ensures
        bytes_of(presented) == first_value(*headers, credential_header()),
{
    lookup(headers, "Authorization")
}

} // verus!
