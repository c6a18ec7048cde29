//! The calls into outside crates, each with the contract that the library
//! relies on.
use aws_nitro_enclaves_cose::COSESign1;
use openssl::bn::BigNumContext;
use openssl::ec::{EcGroup, EcKey, EcPoint};
use openssl::nid::Nid;
use crate::doc::SignatureAlgorithm;
use serde_bytes::ByteBuf;
use serde_cbor::Value;
use vstd::prelude::*;

verus! {

/// webpki's error for a certificate or chain that it rejects.
#[verifier::external_type_specification]
#[verifier::external_body]
pub struct ExWebpkiError(webpki::Error);

/// The payload of a COSE_Sign1 envelope, or `None` where the bytes are not one.
pub uninterp spec fn cose_payload_of(doc: Seq<u8>) -> Option<Seq<u8>>;

/// The length of the signature that a COSE_Sign1 envelope carries, or `None`
/// where the bytes are not a four-element array ending in a byte string.
pub uninterp spec fn cose_signature_len_of(doc: Seq<u8>) -> Option<nat>;

/// Whether the envelope's ECDSA signature over its protected header and
/// payload verifies under the P-384 public key `point`.
pub uninterp spec fn cose_signed_by(doc: Seq<u8>, point: Seq<u8>) -> bool;

/// aws_nitro_enclaves_cose's error for an envelope it cannot read.
#[verifier::external_type_specification]
#[verifier::external_body]
pub struct ExCOSEError(aws_nitro_enclaves_cose::error::COSEError);

/// serde_cbor's error for bytes it cannot decode.
#[verifier::external_type_specification]
#[verifier::external_body]
pub struct ExCborError(serde_cbor::Error);

/// Whether webpki accepts the DER certificate as a trust anchor.
pub uninterp spec fn webpki_anchor_accepts(root: Seq<u8>) -> bool;

/// Whether webpki accepts the DER certificate as an end-entity certificate.
pub uninterp spec fn webpki_leaf_accepts(leaf: Seq<u8>) -> bool;

/// Whether webpki validates the leaf as a TLS server certificate through the
/// intermediates up to the anchor, at `time_sec` seconds since the Unix epoch,
/// accepting the signature algorithms `algs`.
pub uninterp spec fn tls_server_chain_valid(
    leaf: Seq<u8>,
    intermediates: Seq<Seq<u8>>,
    root: Seq<u8>,
    algs: Seq<SignatureAlgorithm>,
    time_sec: u64,
) -> bool;

/// What x509-parser reads from a DER certificate: the number of input bytes
/// left after it, its version number, and its subject public key bits.
pub uninterp spec fn x509_leaf_fields(der: Seq<u8>) -> Option<(nat, u32, Seq<u8>)>;

/// Whether openssl accepts the bytes as a public key on the P-384 curve.
pub uninterp spec fn p384_public_key_accepts(point: Seq<u8>) -> bool;

/// chrono's display text of the UTC time `secs` seconds and `nanos`
/// nanoseconds after the Unix epoch, or `None` where chrono cannot hold it.
pub uninterp spec fn utc_text_of(secs: i64, nanos: u32) -> Option<Seq<char>>;

/// The standard base64 digit of `v`, for `0 <= v < 64`.
pub open spec fn base64_digit(v: int) -> char {
    "ABCDEFGHIJKLMNOPQRSTUVWXYZabcdefghijklmnopqrstuvwxyz0123456789+/"@[v]
}

/// Byte `i` of `b`, or 0 past its end.
pub open spec fn byte_or_zero(b: Seq<u8>, i: int) -> int {
    if i < b.len() {
        b[i] as int
    } else {
        0
    }
}

/// Standard base64 of the bytes: each group of three bytes, zero-filled at the
/// end, gives four digits of six bits, high first; a digit that covers no
/// input byte is `=`.
pub open spec fn base64_of(b: Seq<u8>) -> Seq<char> {
    Seq::new(
        4 * ((b.len() + 2) / 3),
        |k: int|
            {
                let g = k / 4;
                let p = k % 4;
                let n = byte_or_zero(b, 3 * g) * 65536 + byte_or_zero(b, 3 * g + 1) * 256
                    + byte_or_zero(b, 3 * g + 2);
                if 3 * g + p - 1 >= b.len() && p >= 2 {
                    '='
                } else if p == 0 {
                    base64_digit(n / 262144)
                } else if p == 1 {
                    base64_digit(n / 4096 % 64)
                } else if p == 2 {
                    base64_digit(n / 64 % 64)
                } else {
                    base64_digit(n % 64)
                }
            },
    )
}

/// What x509-parser reads from a DER certificate for display: issuer and
/// subject as text, and the two ends of its validity window in seconds since
/// the Unix epoch; or the text of its error where it cannot read one.
pub uninterp spec fn x509_summary_of(der: Seq<u8>) -> Result<(Seq<char>, Seq<char>, i64, i64), Seq<char>>;

/// The lowercase hexadecimal digit of `v`, for `0 <= v < 16`.
pub open spec fn hex_digit(v: int) -> char {
    "0123456789abcdef"@[v]
}

/// Lowercase hexadecimal of the bytes, two digits per byte, high nibble first.
pub open spec fn hex_of(b: Seq<u8>) -> Seq<char> {
    Seq::new(
        2 * b.len(),
        |k: int|
            if k % 2 == 0 {
                hex_digit(b[k / 2] as int / 16)
            } else {
                hex_digit(b[k / 2] as int % 16)
            },
    )
}

/// Relies on aws_nitro_enclaves_cose's COSESign1::from_bytes and
/// COSESign1::get_payload with no key: the envelope's payload, unverified.
#[verifier::external_body]
pub(crate) fn cose_payload(doc: &[u8]) -> (r: Result<Vec<u8>, aws_nitro_enclaves_cose::error::COSEError>)
    ensures
        match r {
            Ok(p) => cose_payload_of(doc@) == Some(p@),
            Err(_) => cose_payload_of(doc@) is None,
        },
{
    COSESign1::from_bytes(doc)?.get_payload(None)
}

/// Relies on serde_cbor::from_slice: reads the envelope as the four-element
/// array that COSESign1::from_bytes reads, and gives the length of its last
/// element, the signature.
#[verifier::external_body]
pub(crate) fn cose_signature_len(doc: &[u8]) -> (r: Option<usize>)
    ensures
        match r {
            Some(n) => cose_signature_len_of(doc@) == Some(n as nat),
            None => cose_signature_len_of(doc@) is None,
        },
{
    match serde_cbor::from_slice::<(Value, Value, Value, ByteBuf)>(doc) {
        Ok(t) => Some(t.3.len()),
        Err(_) => None,
    }
}

/// Relies on aws_nitro_enclaves_cose's COSESign1::verify_signature, with the
/// key that openssl builds from the P-384 point: `true` where the signature
/// verifies, `false` where it does not or cannot be evaluated. That function
/// splits the signature at the curve's key length, 48 bytes for P-384, and
/// panics on a shorter one: `requires` leaves those out.
#[verifier::external_body]
pub(crate) fn cose_signature_check(doc: &[u8], point: &[u8]) -> (r: bool)
    requires
        cose_signature_len_of(doc@) matches Some(n) && n >= 48,
    ensures
        r == cose_signed_by(doc@, point@),
{
    let envelope = match COSESign1::from_bytes(doc) { Ok(e) => e, Err(_) => return false };
    let group = match EcGroup::from_curve_name(Nid::SECP384R1) { Ok(g) => g, Err(_) => return false };
    let mut ctx = match BigNumContext::new() { Ok(c) => c, Err(_) => return false };
    let key = match EcPoint::from_bytes(&group, point, &mut ctx)
        .and_then(|p| EcKey::from_public_key(&group, &p)) { Ok(k) => k, Err(_) => return false };
    match envelope.verify_signature(&key) { Ok(v) => v, Err(_) => false }
}

/// Relies on webpki::trust_anchor_util::cert_der_as_trust_anchor: whether the
/// root certificate is usable as a trust anchor.
#[verifier::external_body]
pub(crate) fn anchor_check(root: &[u8]) -> (r: Result<(), webpki::Error>)
    ensures
        r is Ok <==> webpki_anchor_accepts(root@),
{
    webpki::trust_anchor_util::cert_der_as_trust_anchor(root).map(|_| ())
}

/// Relies on webpki::EndEntityCert::from: whether the leaf certificate is
/// usable as an end-entity certificate.
#[verifier::external_body]
pub(crate) fn leaf_check(leaf: &[u8]) -> (r: Result<(), webpki::Error>)
    ensures
        r is Ok <==> webpki_leaf_accepts(leaf@),
{
    webpki::EndEntityCert::from(leaf).map(|_| ())
}

/// Relies on webpki::EndEntityCert::verify_is_valid_tls_server_cert: path
/// validation of the leaf through the intermediates to the single anchor, at
/// the given time, accepting the listed signature algorithms.
#[verifier::external_body]
pub(crate) fn tls_server_chain_check(
    leaf: &[u8],
    intermediates: &Vec<Vec<u8>>,
    root: &[u8],
    algs: &Vec<SignatureAlgorithm>,
    time_sec: u64,
) -> (r: Result<(), webpki::Error>)
    requires
        webpki_leaf_accepts(leaf@),
        webpki_anchor_accepts(root@),
    ensures
        r is Ok <==> tls_server_chain_valid(leaf@, intermediates.deep_view(), root@, algs@, time_sec),
{
    let algs: Vec<&webpki::SignatureAlgorithm> = algs.iter().map(|a| match a {
        SignatureAlgorithm::EcdsaP256Sha256 => &webpki::ECDSA_P256_SHA256,
        SignatureAlgorithm::EcdsaP256Sha384 => &webpki::ECDSA_P256_SHA384,
        SignatureAlgorithm::EcdsaP384Sha256 => &webpki::ECDSA_P384_SHA256,
        SignatureAlgorithm::EcdsaP384Sha384 => &webpki::ECDSA_P384_SHA384,
        SignatureAlgorithm::Ed25519 => &webpki::ED25519,
    }).collect();
    let anchors = vec![webpki::trust_anchor_util::cert_der_as_trust_anchor(root)?];
    let cert = webpki::EndEntityCert::from(leaf)?;
    let interm: Vec<&[u8]> = intermediates.iter().map(|c| c.as_slice()).collect();
    let time = webpki::Time::from_seconds_since_unix_epoch(time_sec);
    cert.verify_is_valid_tls_server_cert(&algs, &webpki::TLSServerTrustAnchors(&anchors), &interm, time)
}

/// Relies on x509_parser::parse_x509_certificate: the bytes left after the
/// certificate, its version number and its subject public key bits.
#[verifier::external_body]
pub(crate) fn x509_leaf(der: &[u8]) -> (r: Option<(usize, u32, Vec<u8>)>)
    ensures
        match r {
            Some(v) => x509_leaf_fields(der@) == Some((v.0 as nat, v.1, v.2@)),
            None => x509_leaf_fields(der@) is None,
        },
{
    match x509_parser::parse_x509_certificate(der) {
        Ok((rem, cert)) => Some((rem.len(), cert.tbs_certificate.version.0,
            cert.tbs_certificate.subject_pki.subject_public_key.data.to_vec())),
        Err(_) => None,
    }
}

/// Relies on x509_parser::certificate::X509Certificate::from_der: the issuer
/// and subject of a DER certificate as text (X509Name's Display), and its
/// validity window as ASN1Time::timestamp seconds; or its error's Display.
#[verifier::external_body]
pub(crate) fn x509_summary(der: &[u8]) -> (r: Result<(String, String, i64, i64), String>)
    ensures
        match r {
            Ok(v) => x509_summary_of(der@) == Ok::<_, Seq<char>>((v.0@, v.1@, v.2, v.3)),
            Err(m) => x509_summary_of(der@) == Err::<(Seq<char>, Seq<char>, i64, i64), _>(m@),
        },
{
    let (_, cert) = x509_parser::certificate::X509Certificate::from_der(der)
        .map_err(|e| e.to_string())?;
    Ok((cert.issuer().to_string(), cert.subject().to_string(),
        cert.validity().not_before.timestamp(), cert.validity().not_after.timestamp()))
}

/// Relies on openssl's EcPoint::from_bytes and EcKey::from_public_key on the
/// P-384 group: whether the bytes encode a point usable as a public key.
#[verifier::external_body]
pub(crate) fn p384_key_check(point: &[u8]) -> (r: bool)
    ensures
        r == p384_public_key_accepts(point@),
{
    let group = match EcGroup::from_curve_name(Nid::SECP384R1) { Ok(g) => g, Err(_) => return false };
    let mut ctx = match BigNumContext::new() { Ok(c) => c, Err(_) => return false };
    match EcPoint::from_bytes(&group, point, &mut ctx) {
        Ok(p) => EcKey::from_public_key(&group, &p).is_ok(),
        Err(_) => false,
    }
}

/// Relies on chrono's DateTime::<Utc>::from_timestamp and its Display: the
/// UTC time as text, or `None` out of chrono's range.
#[verifier::external_body]
pub(crate) fn utc_text(secs: i64, nanos: u32) -> (r: Option<String>)
    ensures
        match r {
            Some(t) => utc_text_of(secs, nanos) == Some(t@),
            None => utc_text_of(secs, nanos) is None,
        },
{
    chrono::DateTime::<chrono::Utc>::from_timestamp(secs, nanos).map(|t| t.to_string())
}

/// Relies on hex::encode: lowercase hexadecimal, two digits per byte.
#[verifier::external_body]
pub(crate) fn to_hex(b: &[u8]) -> (r: String)
    ensures
        r@ == hex_of(b@),
{
    hex::encode(b)
}

/// Relies on base64::encode: standard base64 with padding.
#[verifier::external_body]
pub(crate) fn to_base64(b: &[u8]) -> (r: String)
    ensures
        r@ == base64_of(b@),
{
    base64::encode(b)
}

} // verus!
