//! Self-signed certificate bootstrap for the gateway's TLS endpoint.
//!
//! Traffic must never be plaintext, so the gateway serves `wss://` with a
//! certificate for `localhost` generated on first run and kept on disk.

use vstd::prelude::*;

use crate::text::owned;

verus! {

/// Declares `rcgen::Certificate` to the verifier, opaque: a generated
/// certificate is only carried from generation to serialization.
#[verifier::external_type_specification]
#[verifier::external_body]
pub struct ExCertificate(rcgen::Certificate);

/// Declares `rcgen::Error` to the verifier, opaque: it is only told apart
/// from success and mapped to [`TlsError`].
#[verifier::external_type_specification]
#[verifier::external_body]
pub struct ExRcgenError(rcgen::Error);

/// The first line of a PEM block labelled `tag`, ending with `eol`.
pub open spec fn pem_begin(tag: Seq<char>, eol: Seq<char>) -> Seq<char> {
    "-----BEGIN "@ + tag + "-----"@ + eol
}

/// The last line of a PEM block labelled `tag`, ending with `eol`.
pub open spec fn pem_end(tag: Seq<char>, eol: Seq<char>) -> Seq<char> {
    "-----END "@ + tag + "-----"@ + eol
}

/// `text` is a PEM block labelled `tag`: it opens with the `BEGIN` line and
/// closes with the `END` line, all lines ending in LF or in CRLF.
pub open spec fn pem_block(text: Seq<char>, tag: Seq<char>) -> bool {
    ||| pem_begin(tag, "\n"@).is_prefix_of(text) && pem_end(tag, "\n"@).is_suffix_of(text)
    ||| pem_begin(tag, "\r\n"@).is_prefix_of(text) && pem_end(tag, "\r\n"@).is_suffix_of(text)
}

/// The label of a PEM certificate.
pub open spec fn certificate_tag() -> Seq<char> {
    "CERTIFICATE"@
}

/// The label of a PEM (PKCS#8) private key.
pub open spec fn private_key_tag() -> Seq<char> {
    "PRIVATE KEY"@
}

/// The host names the gateway's certificate is issued for.
pub open spec fn certificate_names_spec() -> Seq<Seq<char>> {
    seq!["localhost"@]
}

/// The host names the gateway's certificate is issued for: `localhost`.
pub fn certificate_names() -> (names: Vec<String>)
    ensures
        names@.len() == certificate_names_spec().len(),
        forall|i: int| 0 <= i < names@.len() ==> #[trigger] names@[i]@ == certificate_names_spec()[i],
{
    let mut names: Vec<String> = Vec::new();
    names.push(owned("localhost"));
    names
}

/// Calls `rcgen::generate_simple_self_signed(subject_alt_names)`.
///
/// Nothing is claimed of the result: the key pair is random, and the crate
/// documents no condition under which generation fails. The `requires`
/// claims nothing of rcgen; it pins the names this library asks for to
/// [`certificate_names_spec`].
#[verifier::external_body]
fn generate_simple_self_signed(subject_alt_names: Vec<String>) -> (r: Result<
    rcgen::Certificate,
    rcgen::Error,
>)
    requires
        subject_alt_names@.len() == certificate_names_spec().len(),
        forall|i: int|
            0 <= i < subject_alt_names@.len() ==> #[trigger] subject_alt_names@[i]@
                == certificate_names_spec()[i],
{
    rcgen::generate_simple_self_signed(subject_alt_names)
}

/// Calls `rcgen::Certificate::serialize_pem`.
///
/// Claimed: on success the text is a PEM block labelled `CERTIFICATE` (the
/// crate wraps the certificate's DER form with `pem::encode_config`, LF line
/// endings, CRLF on Windows). Its content (signed with a random key) and
/// when serialization fails are not stated.
#[verifier::external_body]
fn certificate_pem(cert: &rcgen::Certificate) -> (r: Result<String, rcgen::Error>)
    ensures
        r matches Ok(text) ==> pem_block(text@, certificate_tag()),
{
    cert.serialize_pem()
}

/// Calls `rcgen::Certificate::serialize_private_key_pem`.
///
/// Claimed: the text is a PEM block labelled `PRIVATE KEY` (the crate wraps
/// the PKCS#8 DER form of the certificate's key with `pem::encode_config`).
/// The key itself is random and not stated. The crate panics only for a
/// remote key pair, which `generate_simple_self_signed` never makes.
#[verifier::external_body]
fn private_key_pem(cert: &rcgen::Certificate) -> (r: String)
    ensures
        pem_block(r@, private_key_tag()),
{
    cert.serialize_private_key_pem()
}

/// A freshly generated certificate and its private key, both PEM.
#[derive(Debug)]
pub struct SelfSigned {
    pub cert_pem: String,
    pub key_pem: String,
}

/// Generating the certificate failed.
#[derive(Debug, Clone, Copy, PartialEq, Eq, Structural)]
pub enum TlsError {
    /// Generating the key pair and certificate failed.
    Generate,
    /// Serializing the certificate failed.
    Serialize,
}

/// Pack the serialized certificate and key: the pair to write, or
/// [`TlsError::Serialize`] when the certificate could not be serialized.
pub fn package(cert: Result<String, ()>, key: String) -> (r: Result<Option<SelfSigned>, TlsError>)
    ensures
        match cert {
            Ok(c) => r matches Ok(Some(s)) && s.cert_pem@ == c@ && s.key_pem@ == key@,
            Err(_) => r == Err::<Option<SelfSigned>, TlsError>(TlsError::Serialize),
        },
{
    match cert {
        Ok(cert_pem) => Ok(Some(SelfSigned { cert_pem, key_pem: key })),
        Err(()) => Err(TlsError::Serialize),
    }
}

/// The certificate and key to write, if any: nothing when both files
/// already exist, otherwise a fresh self-signed certificate for
/// `localhost` and its private key, each as a PEM block.
pub fn ensure_self_signed(cert_exists: bool, key_exists: bool) -> (r: Result<
    Option<SelfSigned>,
    TlsError,
>)
    ensures
        cert_exists && key_exists ==> r matches Ok(None),
        !(cert_exists && key_exists) ==> !(r matches Ok(None)),
        r matches Ok(Some(s)) ==> {
            &&& pem_block(s.cert_pem@, certificate_tag())
            &&& pem_block(s.key_pem@, private_key_tag())
        },
{
    if cert_exists && key_exists {
        return Ok(None);
    }
    let cert = match generate_simple_self_signed(certificate_names()) {
        Ok(c) => c,
        Err(_) => return Err(TlsError::Generate),
    };
    let cert_text = match certificate_pem(&cert) {
        Ok(p) => Ok(p),
        Err(_) => Err(()),
    };
    let key_text = private_key_pem(&cert);
    package(cert_text, key_text)
}

} // verus!
