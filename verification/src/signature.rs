//! Claim checking for signed inbound requests. The asymmetric signature
//! itself is checked at the edge against the claimed key material; this
//! module decides, from the claims and that check's outcome, whether the
//! request is authorized, and hands back the verified client identity.

use vstd::prelude::*;

use crate::error::Error;
use crate::text::str_eq;

verus! {

/// The claim set of a signed request token: the audience it was minted for
/// (the server's externally reachable address), the subject (the client
/// identity the signer speaks for), when it was issued and when it expires.
#[derive(Debug)]
pub struct AuthClaims {
    pub aud: String,
    pub sub: String,
    pub iat: u64,
    pub exp: u64,
}

/// A claim set is accepted exactly when the signature over it was produced
/// by the claimed identity's key, the audience is this server, and the
/// token has not expired.
pub open spec fn claims_accepted(
    claims: AuthClaims,
    signature_valid: bool,
    server_address: Seq<char>,
    now: u64,
) -> bool {
    signature_valid && claims.aud@ == server_address && now <= claims.exp
}

/// Verifies a signed request: `signature_valid` is the outcome of checking
/// the token's asymmetric signature against the claimed identity's public
/// key, and the claims are checked here against the server address and the
/// clock. Success yields the verified client identity (the subject);
/// failure is always `SignatureInvalid`, and no state is touched.
pub fn verify_signature(
    claims: &AuthClaims,
    signature_valid: bool,
    server_address: &str,
    now: u64,
) -> (r: Result<String, Error>)
    ensures
        claims_accepted(*claims, signature_valid, server_address@, now) ==> (r matches Ok(id)
            && id@ == claims.sub@),
        !claims_accepted(*claims, signature_valid, server_address@, now) ==> (r matches Err(e)
            && e matches Error::SignatureInvalid),
{
    if signature_valid && str_eq(claims.aud.as_str(), server_address) && now <= claims.exp {
        Ok(claims.sub.clone())
    } else {
        Err(Error::SignatureInvalid)
    }
}

} // verus!
