//! The Basic authentication header of the tracker client. The encoding is
//! done by the base64 crate; everything around it is verified.

use vstd::prelude::*;
use base64::Engine;

verus! {

/// What the standard base64 alphabet encodes the given string's UTF-8 bytes
/// to: a fixed function of the input alone.
pub uninterp spec fn base64_standard_of(s: Seq<char>) -> Seq<char>;

/// Relies on base64's `Engine::encode` with the `STANDARD` general-purpose
/// engine: it deterministically encodes the input's bytes into the standard
/// alphabet with padding, and encodes empty input to an empty string.
#[verifier::external_body]
fn base64_standard(s: &str) -> (r: String)
    ensures
        r@ == base64_standard_of(s@),
        s@.len() == 0 ==> r@.len() == 0,
{
    base64::engine::general_purpose::STANDARD.encode(s.as_bytes())
}

/// The Basic authentication header value of a tracker account: `Basic `
/// followed by the standard base64 encoding of `username:token`.
pub fn basic_auth_header(username: &str, token: &str) -> (r: String)
    ensures
        r@ == "Basic "@ + base64_standard_of(username@ + ":"@ + token@),
{
    let seed = String::from_str(username).concat(":").concat(token);
    let encoded = base64_standard(seed.as_str());
    String::from_str("Basic ").concat(encoded.as_str())
}

} // verus!
