//! Published verification keys and detached-signature checking.
//!
//! A key endpoint publishes a set of key records, of which at most one is
//! marked current. The current record's PEM material becomes a
//! [`VerificationKey`], which then checks base64-encoded, DER-formatted
//! ECDSA signatures over the exact bytes of a request body.

use vstd::prelude::*;
use vstd::string::*;

verus! {

/// Whether `ecdsa::VerifyingKey::<p256::NistP256>::from_str` accepts `pem`
/// as the textual (PEM) encoding of a P-256 public key.
pub uninterp spec fn key_material_valid(pem: Seq<char>) -> bool;

/// What decoding `text` with base64's standard-alphabet, padded engine
/// yields: the decoded bytes, or `None` when `text` is not valid base64.
pub uninterp spec fn b64_decoding(text: Seq<char>) -> Option<Seq<u8>>;

/// Whether `ecdsa::der::Signature::<p256::NistP256>::from_bytes` accepts
/// `der` as an ASN.1 DER-encoded ECDSA signature.
pub uninterp spec fn der_signature_accepted(der: Seq<u8>) -> bool;

/// Whether ECDSA verification succeeds for the key parsed from `key_pem`,
/// the DER signature bytes `der`, and the message bytes `body`. False
/// whenever `key_pem` itself does not parse as a key.
pub uninterp spec fn sig_check(key_pem: Seq<char>, der: Seq<u8>, body: Seq<u8>) -> bool;

/// A P-256 verification key, held as the PEM text it was checked against.
/// That text determines every verification outcome.
#[derive(Clone, PartialEq, Eq, Debug)]
pub struct VerificationKey {
    material: String,
}

impl View for VerificationKey {
    type V = Seq<char>;

    closed spec fn view(&self) -> Seq<char> {
        self.material@
    }
}

/// One published key record: an identifier, the key material in PEM form,
/// and whether the record is the one currently authoritative for signing.
#[derive(Clone, Debug)]
pub struct CopilotPublicKey {
    pub key_identifier: String,
    pub key: String,
    pub is_current: bool,
}

/// The document served by the key endpoint: a list of key records.
#[derive(Clone, Debug)]
pub struct CopilotPublicKeys {
    pub public_keys: Vec<CopilotPublicKey>,
}

/// Why no verification key could be derived from a key-set document.
#[derive(Clone, Copy, Debug, PartialEq, Eq, Structural)]
pub enum KeyError {
    /// No record in the document is marked current.
    NoCurrentKey,
    /// The current record's key material is not a valid PEM-encoded key.
    KeyParseError,
}

/// Why a detached signature was rejected.
#[derive(Clone, Copy, Debug, PartialEq, Eq, Structural)]
pub enum SignatureError {
    /// The signature text is not valid standard-alphabet base64.
    SignatureEncodingError,
    /// The decoded bytes are not a DER-encoded ECDSA signature.
    SignatureFormatError,
    /// The signature does not verify against the body under the key.
    InvalidSignature,
}

/// The outcome of checking the detached signature `sig_text` over the body
/// bytes `body` under the key parsed from `key_pem`: base64 decoding, DER
/// parsing and ECDSA verification in turn, each failure with its own reason.
pub open spec fn signature_outcome(key_pem: Seq<char>, sig_text: Seq<char>, body: Seq<u8>) -> Result<
    (),
    SignatureError,
> {
    match b64_decoding(sig_text) {
        Option::None => Result::Err(SignatureError::SignatureEncodingError),
        Option::Some(der) => if !der_signature_accepted(der) {
            Result::Err(SignatureError::SignatureFormatError)
        } else if sig_check(key_pem, der, body) {
            Result::Ok(())
        } else {
            Result::Err(SignatureError::InvalidSignature)
        },
    }
}

/// Checking a detached signature, given as base64 text, against the exact
/// bytes of a content string.
pub trait VerifyFromStr {
    /// The PEM text this key stands for.
    spec fn key_view(&self) -> Seq<char>;

    /// Checks `sig` (base64 of a DER-encoded ECDSA signature) against the
    /// exact, unmodified bytes of `content`.
    fn verify_from_str(&self, sig: &str, content: &str) -> (r: Result<(), SignatureError>)
        ensures
            r == signature_outcome(self.key_view(), sig@, content.spec_bytes()),
    ;
}

enum SignatureVerdict {
    Malformed,
    Mismatch,
    Valid,
}

/// Relies on `ecdsa::VerifyingKey::<p256::NistP256>::from_str`: it accepts
/// exactly the PEM (SPKI) encodings of P-256 public keys, and acceptance is
/// determined by the text alone.
#[verifier::external_body]
fn key_material_parses(raw_key: &str) -> (r: bool)
    ensures
        r == key_material_valid(raw_key@),
{
    <ecdsa::VerifyingKey<p256::NistP256> as std::str::FromStr>::from_str(raw_key).is_ok()
}

/// Relies on `base64::Engine::decode` with the `BASE64_STANDARD` engine
/// (standard alphabet, padding required): success and output are determined
/// by the input text alone.
#[verifier::external_body]
fn decode_signature_base64(text: &str) -> (r: Option<Vec<u8>>)
    ensures
        r is Some <==> b64_decoding(text@) is Some,
        r is Some ==> r->0@ == b64_decoding(text@)->0,
{
    base64::Engine::decode(&base64::prelude::BASE64_STANDARD, text).ok()
}

/// Relies on `ecdsa::der::Signature::<p256::NistP256>::from_bytes` (strict
/// ASN.1 DER parsing, determined by the bytes alone) and on
/// `signature::Verifier::verify` for `ecdsa::VerifyingKey<p256::NistP256>`
/// (ECDSA/SHA-256 over the exact message bytes, determined by the key, the
/// signature and the message alone). A key whose PEM text does not parse
/// verifies nothing.
#[verifier::external_body]
fn verify_der_signature(key: &VerificationKey, der: &Vec<u8>, msg: &[u8]) -> (r: SignatureVerdict)
    ensures
        r == (if !der_signature_accepted(der@) {
            SignatureVerdict::Malformed
        } else if sig_check(key@, der@, msg@) {
            SignatureVerdict::Valid
        } else {
            SignatureVerdict::Mismatch
        }),
{
    match ecdsa::der::Signature::<p256::NistP256>::from_bytes(der) {
        Err(_) => SignatureVerdict::Malformed,
        Ok(sig) => match <ecdsa::VerifyingKey<p256::NistP256> as std::str::FromStr>::from_str(
            &key.material,
        ) {
            Err(_) => SignatureVerdict::Mismatch,
            Ok(k) => match signature::Verifier::verify(&k, msg, &sig) {
                Ok(()) => SignatureVerdict::Valid,
                Err(_) => SignatureVerdict::Mismatch,
            },
        },
    }
}

impl VerificationKey {
    /// The PEM text this key was parsed from.
    pub fn as_pem(&self) -> (r: &String)
        ensures
            r@ == self@,
    {
        &self.material
    }

    /// Parses PEM key material, accepting exactly the texts that encode a
    /// P-256 public key.
    pub fn parse(raw_key: &str) -> (r: Option<VerificationKey>)
        ensures
            r is Some <==> key_material_valid(raw_key@),
            r is Some ==> r->0@ == raw_key@,
    {
        if key_material_parses(raw_key) {
            Some(VerificationKey { material: raw_key.to_owned() })
        } else {
            None
        }
    }
}

impl VerifyFromStr for VerificationKey {
    open spec fn key_view(&self) -> Seq<char> {
        self@
    }

    fn verify_from_str(&self, sig: &str, content: &str) -> (r: Result<(), SignatureError>) {
        match decode_signature_base64(sig) {
            None => Err(SignatureError::SignatureEncodingError),
            Some(der) => match verify_der_signature(self, &der, content.as_bytes()) {
                SignatureVerdict::Malformed => Err(SignatureError::SignatureFormatError),
                SignatureVerdict::Valid => Ok(()),
                SignatureVerdict::Mismatch => Err(SignatureError::InvalidSignature),
            },
        }
    }
}

/// The first record marked current in `records`, if any.
pub open spec fn first_current_key(records: Seq<CopilotPublicKey>) -> Option<CopilotPublicKey>
    decreases records.len(),
{
    if records.len() == 0 {
        Option::None
    } else if records[0].is_current {
        Option::Some(records[0])
    } else {
        first_current_key(records.drop_first())
    }
}

proof fn lemma_first_current_at(records: Seq<CopilotPublicKey>, i: int)
    requires
        0 <= i < records.len(),
        records[i].is_current,
        forall|j: int| 0 <= j < i ==> !records[j].is_current,
    ensures
        first_current_key(records) == Option::Some(records[i]),
    decreases i,
{
    if i > 0 {
        lemma_first_current_at(records.drop_first(), i - 1);
    }
}

proof fn lemma_no_current(records: Seq<CopilotPublicKey>)
    requires
        forall|j: int| 0 <= j < records.len() ==> !records[j].is_current,
    ensures
        first_current_key(records) is None,
    decreases records.len(),
{
    if records.len() > 0 {
        lemma_no_current(records.drop_first());
    }
}

/// Derives the process-wide verification key from a key-set document: the
/// first record marked current wins; a document with none fails, and a
/// current record with malformed material fails.
pub fn current_verification_key(keys: &CopilotPublicKeys) -> (r: Result<VerificationKey, KeyError>)
    ensures
        match first_current_key(keys.public_keys@) {
            Option::None => r == Result::<VerificationKey, KeyError>::Err(KeyError::NoCurrentKey),
            Option::Some(rec) => if key_material_valid(rec.key@) {
                r is Ok && r->Ok_0@ == rec.key@
            } else {
                r == Result::<VerificationKey, KeyError>::Err(KeyError::KeyParseError)
            },
        },
{
    let n = keys.public_keys.len();
    let mut i: usize = 0;
    while i < n
        invariant
            n == keys.public_keys@.len(),
            i <= n,
            forall|j: int| 0 <= j < i ==> !keys.public_keys@[j].is_current,
        decreases n - i,
    {
        if keys.public_keys[i].is_current {
            proof {
                lemma_first_current_at(keys.public_keys@, i as int);
            }
            let rec = &keys.public_keys[i];
            return match VerificationKey::parse(rec.key.as_str()) {
                Some(key) => Ok(key),
                None => Err(KeyError::KeyParseError),
            };
        }
        i += 1;
    }
    proof {
        lemma_no_current(keys.public_keys@);
    }
    Err(KeyError::NoCurrentKey)
}

} // verus!
