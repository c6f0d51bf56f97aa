//! Request authentication for the agent endpoint.
//!
//! An inbound request carries trust-bearing headers: a detached signature
//! over the raw body, an identity token, and an optional integration
//! identifier. The signature is validated strictly before any other header
//! is trusted, so that a caller who cannot forge a signature cannot
//! influence behaviour through the other headers.

use vstd::prelude::*;
use vstd::string::*;

use crate::copilot_public_keys::{signature_outcome, VerificationKey, VerifyFromStr};

verus! {

/// A header value is readable as text when every byte is visible ASCII,
/// space, or horizontal tab — the rule under which an HTTP header value
/// can be read as a string.
pub open spec fn header_byte_ok(b: u8) -> bool {
    (32 <= b < 127) || b == 9
}

/// Whether every byte of a header value is readable as text.
pub open spec fn header_text_ok(h: Seq<u8>) -> bool {
    forall|i: int| 0 <= i < h.len() ==> header_byte_ok(h[i])
}

/// The text carried by readable header bytes, byte for byte.
pub open spec fn header_chars(h: Seq<u8>) -> Seq<char> {
    h.map_values(|b: u8| b as char)
}

/// The trust-bearing headers of an inbound request, each present header as
/// the raw bytes of its value.
pub struct RequestHeaders {
    /// Value of the signature header, base64 text as raw bytes.
    pub signature: Option<Vec<u8>>,
    /// Value of the identity-token header.
    pub github_token: Option<Vec<u8>>,
    /// Value of the optional integration-identifier header.
    pub integration_id: Option<Vec<u8>>,
}

/// The identity derived from a request whose signature verified.
#[derive(PartialEq, Eq, Debug)]
pub struct AuthenticatedRequest {
    /// The opaque bearer token, forwarded unchanged.
    pub identity_token: String,
    /// The integration identifier, when its header was present.
    pub integration_id: Option<String>,
}

/// Why a request was rejected. Every reason maps to one 400 response.
#[derive(Clone, Copy, Debug, PartialEq, Eq, Structural)]
pub enum AuthError {
    /// The signature header is absent.
    MissingSignatureHeader,
    /// A present header's value is not readable as text.
    HeaderEncodingError,
    /// The signature failed base64 decoding, DER parsing, or verification.
    InvalidSignature,
    /// The identity-token header is absent.
    MissingIdentityToken,
}

impl AuthError {
    /// The HTTP status that every authentication failure maps to.
    pub fn status_code(&self) -> (r: u16)
        ensures
            r == 400,
    {
        400
    }
}

/// The authentication decision over the raw header values and body bytes:
/// signature header required and validated first, then the identity token,
/// then the optional integration identifier.
pub open spec fn auth_outcome(
    key_pem: Seq<char>,
    signature_h: Option<Seq<u8>>,
    token_h: Option<Seq<u8>>,
    integration_h: Option<Seq<u8>>,
    body: Seq<u8>,
) -> Result<(Seq<char>, Option<Seq<char>>), AuthError> {
    match signature_h {
        Option::None => Result::Err(AuthError::MissingSignatureHeader),
        Option::Some(sig) => if !header_text_ok(sig) {
            Result::Err(AuthError::HeaderEncodingError)
        } else if signature_outcome(key_pem, header_chars(sig), body) is Err {
            Result::Err(AuthError::InvalidSignature)
        } else {
            match token_h {
                Option::None => Result::Err(AuthError::MissingIdentityToken),
                Option::Some(tok) => if !header_text_ok(tok) {
                    Result::Err(AuthError::HeaderEncodingError)
                } else {
                    match integration_h {
                        Option::None => Result::Ok((header_chars(tok), Option::None)),
                        Option::Some(integ) => if !header_text_ok(integ) {
                            Result::Err(AuthError::HeaderEncodingError)
                        } else {
                            Result::Ok(
                                (header_chars(tok), Option::Some(header_chars(integ))),
                            )
                        },
                    }
                },
            }
        },
    }
}

/// The bytes of an optional header value.
pub open spec fn opt_bytes(h: Option<Vec<u8>>) -> Option<Seq<u8>> {
    match h {
        Option::None => Option::None,
        Option::Some(v) => Option::Some(v@),
    }
}

/// The characters of an optional string.
pub open spec fn opt_text(s: Option<String>) -> Option<Seq<char>> {
    match s {
        Option::None => Option::None,
        Option::Some(v) => Option::Some(v@),
    }
}

/// [`auth_outcome`] applied to a header struct.
pub open spec fn request_outcome(
    key_pem: Seq<char>,
    headers: RequestHeaders,
    body: Seq<u8>,
) -> Result<(Seq<char>, Option<Seq<char>>), AuthError> {
    auth_outcome(
        key_pem,
        opt_bytes(headers.signature),
        opt_bytes(headers.github_token),
        opt_bytes(headers.integration_id),
        body,
    )
}

/// Relies on `String::push`: appends the given character to the end of the
/// string.
#[verifier::external_body]
fn push_char(s: &mut String, c: char)
    ensures
        final(s)@ == old(s)@.push(c),
{
    s.push(c);
}

/// Reads a header value as text, accepting exactly the values whose bytes
/// are all readable.
fn header_text(h: &Vec<u8>) -> (r: Option<String>)
    ensures
        r is Some <==> header_text_ok(h@),
        r is Some ==> r->0@ == header_chars(h@),
{
    let mut s = String::new();
    let n = h.len();
    let mut i: usize = 0;
    while i < n
        invariant
            n == h@.len(),
            i <= n,
            forall|j: int| 0 <= j < i ==> header_byte_ok(h@[j]),
            s@ == header_chars(h@.take(i as int)),
        decreases n - i,
    {
        let b = h[i];
        if !((32 <= b && b < 127) || b == 9) {
            assert(!header_byte_ok(h@[i as int]));
            return None;
        }
        push_char(&mut s, b as char);
        proof {
            assert(h@.take(i + 1 as int) =~= h@.take(i as int).push(h@[i as int]));
            assert(s@ =~= header_chars(h@.take(i + 1 as int)));
        }
        i += 1;
    }
    proof {
        assert(h@.take(n as int) =~= h@);
    }
    Some(s)
}

/// Authenticates a request: requires and validates the signature header
/// against the exact body bytes, then reads the identity token and the
/// optional integration identifier.
pub fn extract_header_and_verify_signature(
    key: &VerificationKey,
    headers: &RequestHeaders,
    body: &str,
) -> (r: Result<AuthenticatedRequest, AuthError>)
    ensures
        match r {
            Result::Ok(auth) => request_outcome(key@, *headers, body.spec_bytes())
                == Result::<(Seq<char>, Option<Seq<char>>), AuthError>::Ok(
                (auth.identity_token@, opt_text(auth.integration_id)),
            ),
            Result::Err(e) => request_outcome(key@, *headers, body.spec_bytes())
                == Result::<(Seq<char>, Option<Seq<char>>), AuthError>::Err(e),
        },
{
    let sig_bytes = match &headers.signature {
        None => {
            return Err(AuthError::MissingSignatureHeader);
        },
        Some(b) => b,
    };
    let sig_text = match header_text(sig_bytes) {
        None => {
            return Err(AuthError::HeaderEncodingError);
        },
        Some(t) => t,
    };
    if key.verify_from_str(sig_text.as_str(), body).is_err() {
        return Err(AuthError::InvalidSignature);
    }
    let token_bytes = match &headers.github_token {
        None => {
            return Err(AuthError::MissingIdentityToken);
        },
        Some(b) => b,
    };
    let token = match header_text(token_bytes) {
        None => {
            return Err(AuthError::HeaderEncodingError);
        },
        Some(t) => t,
    };
    let integration = match &headers.integration_id {
        None => None,
        Some(b) => match header_text(b) {
            None => {
                return Err(AuthError::HeaderEncodingError);
            },
            Some(t) => Some(t),
        },
    };
    Ok(AuthenticatedRequest { identity_token: token, integration_id: integration })
}

/// A request with no signature header is rejected as missing the signature,
/// whatever the other headers hold and whatever the body is.
pub proof fn lemma_missing_signature_rejected(
    key_pem: Seq<char>,
    token_h: Option<Seq<u8>>,
    integration_h: Option<Seq<u8>>,
    body: Seq<u8>,
)
    ensures
        auth_outcome(key_pem, Option::None, token_h, integration_h, body) == Result::<
            (Seq<char>, Option<Seq<char>>),
            AuthError,
        >::Err(AuthError::MissingSignatureHeader),
{
}

/// Until the signature header is present, readable and verified, the
/// outcome does not depend on the identity-token or integration headers:
/// no other header is trusted before the signature is established.
pub proof fn lemma_signature_gates_other_headers(
    key_pem: Seq<char>,
    signature_h: Option<Seq<u8>>,
    token_a: Option<Seq<u8>>,
    integration_a: Option<Seq<u8>>,
    token_b: Option<Seq<u8>>,
    integration_b: Option<Seq<u8>>,
    body: Seq<u8>,
)
    requires
        signature_h is None || !header_text_ok(signature_h->0) || signature_outcome(
            key_pem,
            header_chars(signature_h->0),
            body,
        ) is Err,
    ensures
        auth_outcome(key_pem, signature_h, token_a, integration_a, body) == auth_outcome(
            key_pem,
            signature_h,
            token_b,
            integration_b,
            body,
        ),
{
}

} // verus!
