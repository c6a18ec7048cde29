use nitro_attest::doc::{allowed_signature_algorithms, leaf_public_key, NitroAdDoc, NitroAdError, SignatureAlgorithm};
use nitro_attest::record::{AttestationRecord, FieldError};
use nitro_attest::report::{base64_option, pcrs_to_json, x509_to_json, x509s_to_json};

use aws_nitro_enclaves_cose::sign::HeaderMap;
use aws_nitro_enclaves_cose::COSESign1;
use openssl::asn1::Asn1Time;
use openssl::bn::BigNum;
use openssl::ec::{EcGroup, EcKey};
use openssl::hash::MessageDigest;
use openssl::nid::Nid;
use openssl::pkey::{PKey, Private};
use openssl::x509::extension::BasicConstraints;
use openssl::x509::{X509Builder, X509Name, X509NameBuilder};

const REF_TIME: u64 = 1614967200;
const LEAF_NOT_BEFORE: i64 = 1614963709;
const LEAF_NOT_AFTER: i64 = 1614974509;

fn p384_key() -> EcKey<Private> {
    let group = EcGroup::from_curve_name(Nid::SECP384R1).unwrap();
    EcKey::generate(&group).unwrap()
}

fn name(cn: &str) -> X509Name {
    let mut b = X509NameBuilder::new().unwrap();
    b.append_entry_by_text("CN", cn).unwrap();
    b.build()
}

fn build_cert(
    subject: &str,
    issuer: &str,
    subject_key: &EcKey<Private>,
    issuer_key: &EcKey<Private>,
    ca: bool,
    window: (i64, i64),
) -> Vec<u8> {
    let subject_pkey = PKey::from_ec_key(subject_key.clone()).unwrap();
    let issuer_pkey = PKey::from_ec_key(issuer_key.clone()).unwrap();
    let mut b = X509Builder::new().unwrap();
    b.set_version(2).unwrap();
    let serial = BigNum::from_u32(7).unwrap().to_asn1_integer().unwrap();
    b.set_serial_number(&serial).unwrap();
    b.set_subject_name(&name(subject)).unwrap();
    b.set_issuer_name(&name(issuer)).unwrap();
    b.set_pubkey(&subject_pkey).unwrap();
    b.set_not_before(&Asn1Time::from_unix(window.0).unwrap()).unwrap();
    b.set_not_after(&Asn1Time::from_unix(window.1).unwrap()).unwrap();
    let constraints = if ca {
        BasicConstraints::new().critical().ca().build().unwrap()
    } else {
        BasicConstraints::new().critical().build().unwrap()
    };
    b.append_extension(constraints).unwrap();
    b.sign(&issuer_pkey, MessageDigest::sha384()).unwrap();
    b.build().to_der().unwrap()
}

/// A root CA, and a leaf certificate signed by it together with the leaf's key.
struct Pki {
    root: Vec<u8>,
    leaf: Vec<u8>,
    leaf_key: EcKey<Private>,
}

fn pki() -> Pki {
    let root_key = p384_key();
    let leaf_key = p384_key();
    let root = build_cert("root.test", "root.test", &root_key, &root_key, true, (1577836800, 1893456000));
    let leaf = build_cert(
        "enclave.test",
        "root.test",
        &leaf_key,
        &root_key,
        false,
        (LEAF_NOT_BEFORE, LEAF_NOT_AFTER),
    );
    Pki { root, leaf, leaf_key }
}

fn cert() -> Vec<u8> {
    pki().leaf
}

fn envelope(payload: &[u8], key: &EcKey<Private>) -> Vec<u8> {
    COSESign1::new(payload, &HeaderMap::new(), key).unwrap().as_bytes(false).unwrap()
}

fn record_of(p: &Pki) -> AttestationRecord {
    let mut r = record_with(p.leaf.clone());
    r.cabundle = vec![p.root.clone()];
    r
}

fn record_with(cert: Vec<u8>) -> AttestationRecord {
    AttestationRecord {
        module_id: String::from("i-0123-enc0123"),
        digest: String::from("SHA384"),
        timestamp_ms: 1614967000000,
        pcrs: vec![(2, vec![0x22; 48]), (0, vec![0xab; 48]), (1, vec![0; 48])],
        certificate: cert.clone(),
        cabundle: vec![cert],
        public_key: None,
        user_data: Some(vec![1, 2, 3]),
        nonce: None,
    }
}

fn record() -> AttestationRecord {
    record_with(Vec::new())
}

#[test]
fn valid_record_passes_field_rules() {
    assert_eq!(record().validate_fields(REF_TIME), Ok(()));
}

#[test]
fn empty_module_id_rejected() {
    let mut r = record();
    r.module_id = String::new();
    assert_eq!(r.validate_fields(REF_TIME), Err(FieldError::ModuleIdEmpty));
}

#[test]
fn unsupported_digest_rejected() {
    let mut r = record();
    r.digest = String::from("SHA256");
    assert_eq!(r.validate_fields(REF_TIME), Err(FieldError::UnknownDigest));
}

#[test]
fn reference_time_before_launch_rejected() {
    let r = record();
    assert_eq!(r.validate_fields(1500000000), Err(FieldError::TimestampOutOfRange));
}

#[test]
fn timestamp_bounds_are_exclusive() {
    let mut r = record();
    r.timestamp_ms = 1577836800000;
    assert_eq!(r.validate_fields(REF_TIME), Err(FieldError::TimestampOutOfRange));
    r.timestamp_ms = 1577836800001;
    assert_eq!(r.validate_fields(REF_TIME), Ok(()));
    r.timestamp_ms = (REF_TIME as i64) * 1000 + 86400000;
    assert_eq!(r.validate_fields(REF_TIME), Err(FieldError::TimestampOutOfRange));
    r.timestamp_ms -= 1;
    assert_eq!(r.validate_fields(REF_TIME), Ok(()));
}

#[test]
fn largest_reference_time_does_not_overflow() {
    assert_eq!(record().validate_fields(u64::MAX), Ok(()));
}

#[test]
fn no_registers_rejected() {
    let mut r = record();
    r.pcrs = Vec::new();
    assert_eq!(r.validate_fields(REF_TIME), Err(FieldError::WrongPcrCount));
}

#[test]
fn thirty_two_registers_rejected() {
    let mut r = record();
    r.pcrs = (0..32u8).map(|i| (i, vec![0; 32])).collect();
    assert_eq!(r.validate_fields(REF_TIME), Err(FieldError::WrongPcrCount));
    r.pcrs.pop();
    assert_eq!(r.validate_fields(REF_TIME), Ok(()));
}

#[test]
fn register_gap_rejected() {
    let mut r = record();
    r.pcrs = vec![(0, vec![0; 32]), (2, vec![0; 32])];
    assert_eq!(r.validate_fields(REF_TIME), Err(FieldError::PcrMissing(1)));
}

#[test]
fn duplicate_register_index_leaves_a_gap() {
    let mut r = record();
    r.pcrs = vec![(0, vec![0; 32]), (0, vec![0; 32])];
    assert_eq!(r.validate_fields(REF_TIME), Err(FieldError::PcrMissing(1)));
}

#[test]
fn register_digest_length_rejected() {
    let mut r = record();
    r.pcrs = vec![(0, vec![0; 64]), (1, vec![0; 33])];
    assert_eq!(r.validate_fields(REF_TIME), Err(FieldError::PcrWrongLength(1)));
}

#[test]
fn first_failing_rule_wins() {
    let mut r = record();
    r.module_id = String::new();
    r.digest = String::from("MD5");
    r.pcrs = Vec::new();
    assert_eq!(r.validate_fields(REF_TIME), Err(FieldError::ModuleIdEmpty));
}

#[test]
fn registers_rendered_in_index_order() {
    let pcrs = vec![(1u8, vec![0x01, 0xff]), (0u8, vec![0xab, 0x10])];
    let out = pcrs_to_json(&pcrs);
    assert_eq!(out, vec![(0u8, String::from("ab10")), (1u8, String::from("01ff"))]);
}

#[test]
fn optional_bytes_in_base64() {
    assert_eq!(base64_option(&Some(vec![1, 2, 3])), Some(String::from("AQID")));
    assert_eq!(base64_option(&Some(b"hello".to_vec())), Some(String::from("aGVsbG8=")));
    assert_eq!(base64_option(&None), None);
}

#[test]
fn unreadable_certificate_is_an_x509_error() {
    assert!(matches!(x509_to_json(&vec![0x30, 0x03, 0x01]), Err(NitroAdError::X509Error(_))));
    assert!(matches!(leaf_public_key(&vec![1, 2, 3]), Err(NitroAdError::X509Error(_))));
    let c = cert();
    let entries = x509s_to_json(&c, &vec![c.clone(), vec![9]]);
    assert_eq!(entries.len(), 3);
    assert!(entries[0].is_some());
    assert!(entries[1].is_none());
    assert!(entries[2].is_some());
}

#[test]
fn certificate_summary_reads_names_and_validity() {
    let s = x509_to_json(&cert()).unwrap();
    assert!(s.subject.contains("enclave.test"));
    assert!(s.issuer.contains("root.test"));
    assert_eq!(s.not_before, LEAF_NOT_BEFORE);
    assert_eq!(s.not_after, LEAF_NOT_AFTER);
    assert_eq!(s.not_before_text, Some(String::from("2021-03-05 17:01:49 UTC")));
    assert_eq!(s.not_after_text, Some(String::from("2021-03-05 20:01:49 UTC")));
    let all = x509s_to_json(&cert(), &vec![cert(), cert()]);
    assert_eq!(all.len(), 3);
}

#[test]
fn leaf_key_is_a_p384_point() {
    let key = leaf_public_key(&cert()).unwrap();
    assert_eq!(key.len(), 97);
    assert_eq!(key[0], 0x04);
}

#[test]
fn field_errors_come_first() {
    let p = pki();
    let mut r = record_of(&p);
    r.module_id = String::new();
    assert!(matches!(
        NitroAdDoc::check_record(r, &p.root, REF_TIME),
        Err(NitroAdError::Error(FieldError::ModuleIdEmpty))
    ));
}

#[test]
fn unreadable_anchor_is_a_chain_error() {
    let p = pki();
    let checked = NitroAdDoc::check_record(record_of(&p), &[1, 2, 3], REF_TIME).unwrap();
    assert!(checked.chain_error.is_some());
    let doc = envelope(b"attested payload", &p.leaf_key);
    let verified = NitroAdDoc::from_record(&doc, record_of(&p), &[1, 2, 3], REF_TIME).unwrap();
    assert!(verified.verification_error().is_some());
}

#[test]
fn trusted_chain_has_no_chain_error() {
    let p = pki();
    let checked = NitroAdDoc::check_record(record_of(&p), &p.root, REF_TIME).unwrap();
    assert_eq!(checked.chain_error, None);
    assert_eq!(checked.leaf_key, leaf_public_key(&p.leaf).unwrap());
}

#[test]
fn untrusted_chain_is_kept_not_fatal() {
    let p = pki();
    let other = pki();
    let checked = NitroAdDoc::check_record(record_of(&p), &other.root, REF_TIME).unwrap();
    assert!(checked.chain_error.is_some());
    let doc = envelope(b"attested payload", &p.leaf_key);
    let verified = NitroAdDoc::from_record(&doc, record_of(&p), &other.root, REF_TIME).unwrap();
    assert!(verified.verification_error().is_some());
}

#[test]
fn expired_leaf_is_a_chain_error() {
    let p = pki();
    let checked = NitroAdDoc::check_record(record_of(&p), &p.root, 1618407754).unwrap();
    assert_eq!(checked.chain_error, Some(webpki::Error::CertExpired));
}

#[test]
fn not_yet_valid_leaf_is_a_chain_error() {
    let p = pki();
    let checked = NitroAdDoc::check_record(record_of(&p), &p.root, 1614947200).unwrap();
    assert_eq!(checked.chain_error, Some(webpki::Error::CertNotValidYet));
}

#[test]
fn root_cert_used_as_end_entity_cert() {
    let p = pki();
    let mut r = record_of(&p);
    r.certificate = p.root.clone();
    let checked = NitroAdDoc::check_record(r, &p.root, 1616094379).unwrap();
    assert_eq!(checked.chain_error, Some(webpki::Error::CAUsedAsEndEntity));
}

#[test]
fn mutated_anchor_still_checked_with_chain_error() {
    let p = pki();
    let mut root = p.root.clone();
    let point = leaf_public_key(&p.root).unwrap();
    let at = root.windows(point.len()).position(|w| w == point.as_slice()).unwrap() + 40;
    root[at] ^= 0xff;
    let checked = NitroAdDoc::check_record(record_of(&p), &root, REF_TIME).unwrap();
    assert!(checked.chain_error.is_some());
}

#[test]
fn short_signature_is_a_signature_error() {
    let p = pki();
    let doc = envelope(b"attested payload", &p.leaf_key);
    let (a, b, c, mut sig): (serde_cbor::Value, serde_cbor::Value, serde_cbor::Value, serde_bytes::ByteBuf) =
        serde_cbor::from_slice(&doc).unwrap();
    sig.truncate(10);
    let short = serde_cbor::to_vec(&(a, b, c, sig)).unwrap();
    assert_eq!(NitroAdDoc::envelope_payload(&short).unwrap(), b"attested payload".to_vec());
    assert!(matches!(
        NitroAdDoc::from_record(&short, record_of(&p), &p.root, REF_TIME),
        Err(NitroAdError::SignatureVerificationError)
    ));
}

#[test]
fn envelope_payload_is_returned() {
    let p = pki();
    let doc = envelope(b"attested payload", &p.leaf_key);
    assert_eq!(NitroAdDoc::envelope_payload(&doc).unwrap(), b"attested payload".to_vec());
    assert!(matches!(NitroAdDoc::envelope_payload(&[0x01, 0x02]), Err(NitroAdError::COSEError(_))));
}

#[test]
fn signed_document_verifies() {
    let p = pki();
    let doc = envelope(b"attested payload", &p.leaf_key);
    let verified = NitroAdDoc::from_record(&doc, record_of(&p), &p.root, REF_TIME).unwrap();
    assert_eq!(verified.verification_error(), None);
    assert_eq!(verified.record().module_id, "i-0123-enc0123");
}

#[test]
fn document_signed_by_another_key_is_rejected() {
    let p = pki();
    let doc = envelope(b"attested payload", &p384_key());
    assert!(matches!(
        NitroAdDoc::from_record(&doc, record_of(&p), &p.root, REF_TIME),
        Err(NitroAdError::SignatureVerificationError)
    ));
    let other = pki();
    assert!(matches!(
        NitroAdDoc::from_record(&doc, record_of(&p), &other.root, REF_TIME),
        Err(NitroAdError::SignatureVerificationError)
    ));
}

#[test]
fn flipped_payload_byte_breaks_signature() {
    let p = pki();
    let payload = b"attested payload";
    let mut doc = envelope(payload, &p.leaf_key);
    let at = doc.windows(payload.len()).position(|w| w == payload).unwrap() + 3;
    doc[at] ^= 0x01;
    assert!(matches!(
        NitroAdDoc::from_record(&doc, record_of(&p), &p.root, REF_TIME),
        Err(NitroAdError::SignatureVerificationError)
    ));
}

#[test]
fn report_projects_the_record() {
    let p = pki();
    let doc = envelope(b"attested payload", &p.leaf_key);
    let verified = NitroAdDoc::from_record(&doc, record_of(&p), &p.root, REF_TIME).unwrap();
    let rep = verified.report();
    assert_eq!(rep.module_id, "i-0123-enc0123");
    assert_eq!(rep.digest, "SHA384");
    assert_eq!(rep.timestamp_ms, 1614967000000);
    assert_eq!(rep.timestamp_text, Some(String::from("2021-03-05 17:56:40 UTC")));
    assert_eq!(rep.pcrs.len(), 3);
    assert_eq!(rep.pcrs[0], (0u8, "ab".repeat(48)));
    assert_eq!(rep.pcrs[1], (1u8, "00".repeat(48)));
    assert_eq!(rep.pcrs[2], (2u8, "22".repeat(48)));
    assert_eq!(rep.user_data, Some(String::from("AQID")));
    assert_eq!(rep.public_key, None);
    assert_eq!(rep.certs.len(), 2);
    assert!(rep.certs[0].as_ref().unwrap().subject.contains("root.test"));
    assert!(rep.certs[1].as_ref().unwrap().subject.contains("enclave.test"));
    assert_eq!(rep.verification_error, None);
    let back = hex::decode(&rep.pcrs[0].1).unwrap();
    assert_eq!(back, vec![0xab; 48]);
}

#[test]
fn leaf_key_off_p384_is_an_x509_error() {
    let group = EcGroup::from_curve_name(Nid::X9_62_PRIME256V1).unwrap();
    let key = EcKey::generate(&group).unwrap();
    let leaf = build_cert("p256.test", "p256.test", &key, &key, false, (LEAF_NOT_BEFORE, LEAF_NOT_AFTER));
    assert!(matches!(leaf_public_key(&leaf), Err(NitroAdError::X509Error(_))));
}

#[test]
fn report_survives_unreadable_claimed_root() {
    let p = pki();
    let doc = envelope(b"attested payload", &p.leaf_key);
    let mut r = record_of(&p);
    r.cabundle = vec![vec![0xde, 0xad]];
    let verified = NitroAdDoc::from_record(&doc, r, &p.root, REF_TIME).unwrap();
    let rep = verified.report();
    assert_eq!(rep.certs.len(), 2);
    assert!(rep.certs[0].is_none());
    assert!(rep.certs[1].is_some());
}

#[test]
fn allowed_algorithms_listed() {
    assert_eq!(allowed_signature_algorithms().len(), 5);
    assert!(allowed_signature_algorithms().contains(&SignatureAlgorithm::EcdsaP384Sha384));
}

#[test]
fn registers_with_gaps_rendered_sorted() {
    let pcrs = vec![(7u8, vec![0x07]), (3u8, vec![0x03, 0xa0]), (200u8, vec![])];
    let out = pcrs_to_json(&pcrs);
    assert_eq!(
        out,
        vec![
            (3u8, String::from("03a0")),
            (7u8, String::from("07")),
            (200u8, String::new())
        ]
    );
}

#[test]
fn duplicate_register_indices_kept_in_order() {
    let pcrs = vec![(5u8, vec![0x02]), (1u8, vec![0xff]), (5u8, vec![0x01])];
    let out = pcrs_to_json(&pcrs);
    assert_eq!(
        out,
        vec![(1u8, String::from("ff")), (5u8, String::from("02")), (5u8, String::from("01"))]
    );
    assert!(pcrs_to_json(&Vec::new()).is_empty());
}

#[test]
fn field_error_messages() {
    assert_eq!(FieldError::ModuleIdEmpty.message(), "module_id is empty");
    assert_eq!(FieldError::UnknownDigest.message(), "digest signature is unknown");
    assert_eq!(FieldError::TimestampOutOfRange.message(), "timestamp field has wrong value");
    assert_eq!(FieldError::WrongPcrCount.message(), "wrong number of PCRs in the map");
    assert_eq!(FieldError::PcrMissing(1).message(), "PCR1 is missing");
    assert_eq!(FieldError::PcrMissing(30).message(), "PCR30 is missing");
    assert_eq!(FieldError::PcrMissing(255).message(), "PCR255 is missing");
    assert_eq!(FieldError::PcrWrongLength(0).message(), "PCR0 len is other than 32/48/64 bytes");
    assert_eq!(FieldError::PcrWrongLength(105).message(), "PCR105 len is other than 32/48/64 bytes");
}

#[test]
fn unreadable_certificate_error_carries_parser_text() {
    match x509_to_json(&vec![0x30, 0x03, 0x01]) {
        Err(NitroAdError::X509Error(m)) => assert!(!m.is_empty()),
        _ => panic!("expected an X509Error"),
    }
}
