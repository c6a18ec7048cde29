//! The verification pipeline and the verified document.
use crate::outside::{
    anchor_check, cose_payload, cose_payload_of, cose_signature_check, cose_signature_len,
    cose_signature_len_of, cose_signed_by, hex_of,
    leaf_check, p384_key_check, p384_public_key_accepts, tls_server_chain_check,
    tls_server_chain_valid, webpki_anchor_accepts, webpki_leaf_accepts, x509_leaf,
    utc_text, utc_text_of, x509_leaf_fields,
};
use crate::record::{AttestationRecord, FieldError};
use crate::report::{
    base64_opt, base64_option, certs_rendered, hex_decode, lemma_hex_round_trip,
    lemma_rendered_len, pcrs_rendered, rendered_from, pcrs_to_json, string_opt, x509s_to_json, Report,
};
use vstd::prelude::*;

verus! {

/// X.509 version number of a version 3 certificate.
pub const X509_V3: u32 = 2;

/// Why a document was rejected.
#[derive(Debug)]
pub enum NitroAdError {
    /// The signed envelope is malformed.
    COSEError(aws_nitro_enclaves_cose::error::COSEError),
    /// The payload is not a well-formed attestation record.
    CBORError(serde_cbor::Error),
    /// The leaf certificate is malformed or its key is not a P-384 point.
    X509Error(String),
    /// A field of the record breaks a rule.
    Error(FieldError),
    /// The envelope's signature does not match the leaf certificate's key.
    SignatureVerificationError,
}

/// A signature algorithm that chain validation may accept.
#[derive(Clone, Copy, Debug, PartialEq, Eq)]
pub enum SignatureAlgorithm {
    EcdsaP256Sha256,
    EcdsaP256Sha384,
    EcdsaP384Sha256,
    EcdsaP384Sha384,
    Ed25519,
}

/// The signature algorithms that chain validation accepts.
pub open spec fn allowed_algorithms() -> Seq<SignatureAlgorithm> {
    seq![
        SignatureAlgorithm::EcdsaP256Sha256,
        SignatureAlgorithm::EcdsaP256Sha384,
        SignatureAlgorithm::EcdsaP384Sha256,
        SignatureAlgorithm::EcdsaP384Sha384,
        SignatureAlgorithm::Ed25519,
    ]
}

/// The signature algorithms that chain validation accepts.
pub fn allowed_signature_algorithms() -> (r: Vec<SignatureAlgorithm>)
    ensures
        r@ == allowed_algorithms(),
{
    let mut r: Vec<SignatureAlgorithm> = Vec::new();
    r.push(SignatureAlgorithm::EcdsaP256Sha256);
    r.push(SignatureAlgorithm::EcdsaP256Sha384);
    r.push(SignatureAlgorithm::EcdsaP384Sha256);
    r.push(SignatureAlgorithm::EcdsaP384Sha384);
    r.push(SignatureAlgorithm::Ed25519);
    assert(r@ =~= allowed_algorithms());
    r
}

/// Length in bytes of a P-384 ECDSA signature's two halves, each.
pub const P384_HALF_LEN: usize = 48;

/// A record that passed every check but the envelope signature.
pub struct CheckedRecord {
    pub record: AttestationRecord,
    /// Why the chain did not validate, if it did not.
    pub chain_error: Option<webpki::Error>,
    /// The leaf certificate's subject public key, a P-384 point.
    pub leaf_key: Vec<u8>,
    /// The reference time the record was checked at, in seconds.
    pub reference_time: u64,
}

/// The intermediates handed to chain validation: the bundle without its
/// first element, the claimed root.
pub open spec fn intermediates_of(cabundle: Seq<Seq<u8>>) -> Seq<Seq<u8>> {
    if cabundle.len() == 0 {
        cabundle
    } else {
        cabundle.subrange(1, cabundle.len() as int)
    }
}

/// The leaf certificate cannot be read, leaves bytes after it, is not version
/// 3, or holds a key that is not a P-384 point.
pub open spec fn leaf_key_fault(leaf: Seq<u8>) -> bool {
    match x509_leaf_fields(leaf) {
        None => true,
        Some(f) => f.0 != 0 || f.1 != X509_V3 || !p384_public_key_accepts(f.2),
    }
}

/// The leaf chains through the intermediates to the anchor at `now_sec`:
/// webpki takes the anchor and the leaf, and validates the path with the
/// allowed algorithms.
pub open spec fn chain_trusted(record: AttestationRecord, root: Seq<u8>, now_sec: u64) -> bool {
    webpki_anchor_accepts(root) && webpki_leaf_accepts(record.certificate@) && tls_server_chain_valid(
        record.certificate@,
        intermediates_of(record.cabundle.deep_view()),
        root,
        allowed_algorithms(),
        now_sec,
    )
}

/// The message of the leaf certificate's first fault.
pub open spec fn leaf_fault_message(leaf: Seq<u8>) -> Seq<char> {
    match x509_leaf_fields(leaf) {
        None => "x509 parsing failed"@,
        Some(f) => if f.0 != 0 {
            "rem isnot empty"@
        } else if f.1 != X509_V3 {
            "wrong cert version"@
        } else {
            "public key is not a P-384 point"@
        },
    }
}

/// The outcome of `check_record` on a record, an anchor and a reference time.
/// Chain distrust, a refused anchor included, is kept, never returned.
pub open spec fn check_outcome(
    record: AttestationRecord,
    root: Seq<u8>,
    now_sec: u64,
    r: Result<CheckedRecord, NitroAdError>,
) -> bool {
    match record.field_outcome(now_sec) {
        Err(e) => r == Err::<CheckedRecord, NitroAdError>(NitroAdError::Error(e)),
        Ok(_) => if leaf_key_fault(record.certificate@) {
            r is Err && r->Err_0 is X509Error && r->Err_0->X509Error_0@ == leaf_fault_message(
                record.certificate@,
            )
        } else {
            match r {
                Ok(c) => c.record == record && c.reference_time == now_sec && (c.chain_error is None
                    <==> chain_trusted(record, root, now_sec)) && c.leaf_key@ == leaf_key_of(
                    record.certificate@,
                ),
                Err(_) => false,
            }
        },
    }
}

/// The certificates a report renders: the bundle's, then the leaf.
pub open spec fn all_certs(record: AttestationRecord) -> Seq<Seq<u8>> {
    record.cabundle.deep_view().push(record.certificate@)
}

/// `rep` is the report of `record` with the chain verdict `chain_error`.
pub open spec fn report_of(
    record: AttestationRecord,
    chain_error: Option<webpki::Error>,
    rep: Report,
) -> bool {
    &&& rep.module_id@ == record.module_id@
    &&& rep.digest@ == record.digest@
    &&& rep.timestamp_ms == record.timestamp_ms
    &&& string_opt(rep.timestamp_text) == utc_text_of(
        (record.timestamp_ms / 1000) as i64,
        (record.timestamp_ms % 1000 * 1000000) as u32,
    )
    &&& pcrs_rendered(record.pcr_view(), rep.pcrs@)
    &&& certs_rendered(all_certs(record), rep.certs@)
    &&& string_opt(rep.public_key) == base64_opt(record.public_key)
    &&& string_opt(rep.user_data) == base64_opt(record.user_data)
    &&& string_opt(rep.nonce) == base64_opt(record.nonce)
    &&& rep.verification_error == chain_error
}

/// The hex text `h` decodes to a digest that `record` holds at index `i`.
pub open spec fn decodes_to_pcr(record: AttestationRecord, i: int, h: Seq<char>) -> bool {
    exists|j: int|
        0 <= j < record.pcrs.len() && record.pcrs[j].0 == i && hex_decode(h) == record.pcrs[j].1@
}

/// A report reads back into its record's values: the module id, digest name
/// and timestamp are the record's, it lists as many registers as the record
/// holds, by increasing index, and each register's hex text decodes to a
/// digest that the record holds at that index.
pub proof fn lemma_report_round_trip(record: AttestationRecord, chain_error: Option<webpki::Error>, rep: Report)
    requires
        report_of(record, chain_error, rep),
    ensures
        rep.module_id@ == record.module_id@,
        rep.digest@ == record.digest@,
        rep.timestamp_ms == record.timestamp_ms,
        rep.pcrs.len() == record.pcrs.len(),
        forall|i: int|
            0 <= i < rep.pcrs.len() ==> decodes_to_pcr(record, (#[trigger] rep.pcrs[i]).0 as int, rep.pcrs[i].1@),
        forall|i1: int, i2: int|
            0 <= i1 < i2 < rep.pcrs.len() ==> (#[trigger] rep.pcrs[i1]).0 <= (#[trigger] rep.pcrs[i2]).0,
{
    let pv = record.pcr_view();
    let src = choose|src: Seq<int>| rendered_from(pv, rep.pcrs@, src);
    assert forall|i: int| 0 <= i < rep.pcrs.len() implies decodes_to_pcr(record, (#[trigger] rep.pcrs[i]).0 as int, rep.pcrs[i].1@) by {
        let j = src[i];
        lemma_hex_round_trip(pv[j].1);
        assert(record.pcrs[j].0 == rep.pcrs[i].0 && hex_decode(rep.pcrs[i].1@) == record.pcrs[j].1@);
    }
    assert forall|i1: int, i2: int| 0 <= i1 < i2 < rep.pcrs.len() implies (#[trigger] rep.pcrs[i1]).0 <= (#[trigger] rep.pcrs[i2]).0 by {
        assert(rep.pcrs@[i1] == rep.pcrs[i1]);
    }
    lemma_rendered_len(pv, rep.pcrs@, src);
}

/// Some check before the envelope signature rejects the record.
pub open spec fn check_fault(record: AttestationRecord, now_sec: u64) -> bool {
    record.field_outcome(now_sec) is Err || leaf_key_fault(record.certificate@)
}

/// The envelope carries a signature of a P-384 length at least, and it
/// verifies under `point`.
pub open spec fn signature_ok(document: Seq<u8>, point: Seq<u8>) -> bool {
    &&& cose_signature_len_of(document) matches Some(n) && n >= P384_HALF_LEN
    &&& cose_signed_by(document, point)
}

/// The P-384 key of a sound leaf certificate.
pub open spec fn leaf_key_of(leaf: Seq<u8>) -> Seq<u8> {
    x509_leaf_fields(leaf).unwrap().2
}

/// `r` is the outcome of verifying the envelope `document`, whose payload
/// decodes to `record`, against the anchor `root` at `now_sec`.
pub open spec fn verify_outcome(
    document: Seq<u8>,
    record: AttestationRecord,
    root: Seq<u8>,
    now_sec: u64,
    r: Result<NitroAdDoc, NitroAdError>,
) -> bool {
    if check_fault(record, now_sec) {
        r matches Err(e) && check_outcome(record, root, now_sec, Err(e))
    } else if !signature_ok(document, leaf_key_of(record.certificate@)) {
        r matches Err(NitroAdError::SignatureVerificationError)
    } else {
        r matches Ok(d) && d.wf() && d.spec_record() == record && d.spec_reference_time() == now_sec
            && (d.spec_chain_error() is None <==> chain_trusted(record, root, now_sec))
    }
}

/// A document that passes every check, whose signature verifies under its leaf
/// key, and whose leaf chains to the anchor at the reference time, is verified
/// with no chain error.
pub proof fn lemma_trusted_document_verified(
    document: Seq<u8>,
    record: AttestationRecord,
    root: Seq<u8>,
    now_sec: u64,
    r: Result<NitroAdDoc, NitroAdError>,
)
    requires
        verify_outcome(document, record, root, now_sec, r),
        !check_fault(record, now_sec),
        signature_ok(document, leaf_key_of(record.certificate@)),
        chain_trusted(record, root, now_sec),
    ensures
        r matches Ok(d) && d.spec_chain_error() is None,
{
}

/// A document whose signature is too short or does not verify under its leaf
/// key is rejected
/// with a signature error, whether or not its chain is trusted.
pub proof fn lemma_bad_signature_fatal(
    document: Seq<u8>,
    record: AttestationRecord,
    root: Seq<u8>,
    now_sec: u64,
    r: Result<NitroAdDoc, NitroAdError>,
)
    requires
        verify_outcome(document, record, root, now_sec, r),
        !check_fault(record, now_sec),
        !signature_ok(document, leaf_key_of(record.certificate@)),
    ensures
        r matches Err(NitroAdError::SignatureVerificationError),
{
}

/// A document with a verifying signature whose leaf does not chain to the
/// anchor, or whose anchor webpki refuses, is still verified, with the chain
/// error kept.
pub proof fn lemma_untrusted_document_kept(
    document: Seq<u8>,
    record: AttestationRecord,
    root: Seq<u8>,
    now_sec: u64,
    r: Result<NitroAdDoc, NitroAdError>,
)
    requires
        verify_outcome(document, record, root, now_sec, r),
        !check_fault(record, now_sec),
        signature_ok(document, leaf_key_of(record.certificate@)),
        !chain_trusted(record, root, now_sec),
    ensures
        r matches Ok(d) && d.spec_chain_error() is Some,
{
}

/// Verification is a function of its inputs: two runs on the same document,
/// record, anchor and time agree on success, on the verified record and on
/// whether the chain was trusted, and fail with the same field error or the
/// same certificate message.
pub proof fn lemma_outcome_determined(
    document: Seq<u8>,
    record: AttestationRecord,
    root: Seq<u8>,
    now_sec: u64,
    r1: Result<NitroAdDoc, NitroAdError>,
    r2: Result<NitroAdDoc, NitroAdError>,
)
    requires
        verify_outcome(document, record, root, now_sec, r1),
        verify_outcome(document, record, root, now_sec, r2),
    ensures
        r1 is Ok <==> r2 is Ok,
        r1 is Ok && r2 is Ok ==> r1->Ok_0.spec_record() == r2->Ok_0.spec_record() && (
        r1->Ok_0.spec_chain_error() is None <==> r2->Ok_0.spec_chain_error() is None),
        r1 is Err && r1->Err_0 is Error ==> r2 is Err && r2->Err_0 is Error && r2->Err_0->Error_0
            == r1->Err_0->Error_0,
        r1 is Err && r1->Err_0 is X509Error ==> r2 is Err && r2->Err_0 is X509Error
            && r2->Err_0->X509Error_0@ == r1->Err_0->X509Error_0@,
        r1 is Err && r1->Err_0 is SignatureVerificationError ==> r2 is Err
            && r2->Err_0 is SignatureVerificationError,
{
}

fn copy_bytes(v: &Vec<u8>) -> (r: Vec<u8>)
    ensures
        r@ == v@,
{
    let r = v.clone();
    assert(r@ =~= v@);
    r
}

/// The bundle without its first certificate.
fn intermediates(cabundle: &Vec<Vec<u8>>) -> (r: Vec<Vec<u8>>)
    ensures
        r.deep_view() == intermediates_of(cabundle.deep_view()),
{
    let mut r: Vec<Vec<u8>> = Vec::new();
    let mut i: usize = 1;
    while i < cabundle.len()
        invariant
            1 <= i,
            cabundle.len() > 0 ==> i <= cabundle.len(),
            cabundle.len() > 0 ==> r.len() == i - 1,
            cabundle.len() == 0 ==> r.len() == 0,
            forall|k: int| 0 <= k < r.len() ==> r[k]@ == cabundle[k + 1]@,
        decreases cabundle.len() - i,
    {
        r.push(copy_bytes(&cabundle[i]));
        i += 1;
    }
    assert(r.deep_view() =~= intermediates_of(cabundle.deep_view()));
    r
}

/// Checks the leaf certificate's structure and extracts its P-384 key.
pub fn leaf_public_key(leaf: &Vec<u8>) -> (r: Result<Vec<u8>, NitroAdError>)
    ensures
        leaf_key_fault(leaf@) <==> r is Err,
        r is Err ==> r->Err_0 is X509Error && r->Err_0->X509Error_0@ == leaf_fault_message(leaf@),
        r is Ok ==> r->Ok_0@ == x509_leaf_fields(leaf@).unwrap().2,
{
    let (rem, version, key) = match x509_leaf(leaf.as_slice()) {
        Some(f) => f,
        None => return Err(NitroAdError::X509Error("x509 parsing failed".to_owned())),
    };
    if rem != 0 {
        return Err(NitroAdError::X509Error("rem isnot empty".to_owned()));
    }
    if version != X509_V3 {
        return Err(NitroAdError::X509Error("wrong cert version".to_owned()));
    }
    if !p384_key_check(key.as_slice()) {
        return Err(NitroAdError::X509Error("public key is not a P-384 point".to_owned()));
    }
    Ok(key)
}

/// A verified attestation document: its record passed field validation at the
/// reference time, and the envelope signature matched the leaf key. The
/// signature covers the envelope's payload; that the record is the decoding
/// of that payload is the caller's part (see `from_record`).
pub struct NitroAdDoc {
    payload_ref: AttestationRecord,
    verify_err: Option<webpki::Error>,
    reference_time: u64,
}

impl NitroAdDoc {
    pub closed spec fn spec_record(&self) -> AttestationRecord {
        self.payload_ref
    }

    pub closed spec fn spec_chain_error(&self) -> Option<webpki::Error> {
        self.verify_err
    }

    pub closed spec fn spec_reference_time(&self) -> u64 {
        self.reference_time
    }

    /// The document's record passes the field rules at its reference time.
    pub open spec fn wf(&self) -> bool {
        self.spec_record().fields_valid(self.spec_reference_time())
    }

    /// Runs every check that comes before the envelope signature: the field
    /// rules, chain validation against the anchor (whose failure, a refused
    /// anchor or leaf included, is kept, not returned), and the leaf key's
    /// structure.
    pub fn check_record(record: AttestationRecord, root_cert: &[u8], unix_ts_sec: u64) -> (r: Result<
        CheckedRecord,
        NitroAdError,
    >)
        ensures
            check_outcome(record, root_cert@, unix_ts_sec, r),
            r is Ok ==> r->Ok_0.record.fields_valid(r->Ok_0.reference_time),
    {
        match record.validate_fields(unix_ts_sec) {
            Ok(_) => {},
            Err(e) => return Err(NitroAdError::Error(e)),
        }
        let chain_error = match anchor_check(root_cert) {
            Err(e) => Some(e),
            Ok(_) => match leaf_check(record.certificate.as_slice()) {
                Err(e) => Some(e),
                Ok(_) => {
                    let interm = intermediates(&record.cabundle);
                    let algs = allowed_signature_algorithms();
                    match tls_server_chain_check(
                        record.certificate.as_slice(),
                        &interm,
                        root_cert,
                        &algs,
                        unix_ts_sec,
                    ) {
                        Ok(_) => None,
                        Err(e) => Some(e),
                    }
                },
            },
        };
        let leaf_key = match leaf_public_key(&record.certificate) {
            Ok(k) => k,
            Err(e) => return Err(e),
        };
        Ok(CheckedRecord { record, chain_error, leaf_key, reference_time: unix_ts_sec })
    }

    /// Completes verification with the outcome of the envelope signature check
    /// against the checked leaf key: a mismatch is fatal whatever the chain
    /// said; otherwise the chain's verdict is kept in the document.
    pub(crate) fn from_checked(checked: CheckedRecord, signature_valid: bool) -> (r: Result<
        NitroAdDoc,
        NitroAdError,
    >)
        requires
            checked.record.fields_valid(checked.reference_time),
        ensures
            !signature_valid ==> r matches Err(NitroAdError::SignatureVerificationError),
            signature_valid ==> (r matches Ok(d) && d.wf() && d.spec_record() == checked.record
                && d.spec_chain_error() == checked.chain_error
                && d.spec_reference_time() == checked.reference_time),
    {
        if !signature_valid {
            return Err(NitroAdError::SignatureVerificationError);
        }
        Ok(NitroAdDoc {
            payload_ref: checked.record,
            verify_err: checked.chain_error,
            reference_time: checked.reference_time,
        })
    }

    /// The payload of the signed envelope, not yet trusted.
    pub fn envelope_payload(document: &[u8]) -> (r: Result<Vec<u8>, NitroAdError>)
        ensures
            match r {
                Ok(p) => cose_payload_of(document@) == Some(p@),
                Err(e) => cose_payload_of(document@) is None && e is COSEError,
            },
    {
        match cose_payload(document) {
            Ok(p) => Ok(p),
            Err(e) => Err(NitroAdError::COSEError(e)),
        }
    }

    /// Verifies the envelope `document`, whose payload decoded to `record`:
    /// the checks of `check_record`, then the envelope signature under the
    /// leaf certificate's key, which is fatal when it fails whatever the chain
    /// said. The signature covers `document`, not `record`: the caller must
    /// pass the record decoded from this document's own payload (as given by
    /// `envelope_payload`), or the result vouches for nothing.
    pub fn from_record(
        document: &[u8],
        record: AttestationRecord,
        root_cert: &[u8],
        unix_ts_sec: u64,
    ) -> (r: Result<NitroAdDoc, NitroAdError>)
        ensures
            verify_outcome(document@, record, root_cert@, unix_ts_sec, r),
    {
        let checked = match NitroAdDoc::check_record(record, root_cert, unix_ts_sec) {
            Ok(c) => c,
            Err(e) => return Err(e),
        };
        let signature_valid = match cose_signature_len(document) {
            Some(n) => n >= P384_HALF_LEN && cose_signature_check(document, checked.leaf_key.as_slice()),
            None => false,
        };
        NitroAdDoc::from_checked(checked, signature_valid)
    }

    /// Why the certificate chain did not validate, if it did not.
    pub fn verification_error(&self) -> (r: Option<webpki::Error>)
        ensures
            r == self.spec_chain_error(),
    {
        self.verify_err
    }

    /// The report of the document: the record's values, its registers in hex
    /// by index, its optional fields in base64, a summary of each certificate,
    /// (`None` for one that cannot be read), and the chain's verdict.
    pub fn report(&self) -> (r: Report)
        requires
            self.wf(),
        ensures
            report_of(self.spec_record(), self.spec_chain_error(), r),
    {
        let rec = &self.payload_ref;
        let pcrs = pcrs_to_json(&rec.pcrs);
        let certs = x509s_to_json(&rec.certificate, &rec.cabundle);
        let ms: u64 = rec.timestamp_ms as u64;
        let timestamp_text = utc_text((ms / 1000) as i64, ((ms % 1000) * 1000000) as u32);
        Report {
            module_id: rec.module_id.clone(),
            digest: rec.digest.clone(),
            timestamp_ms: rec.timestamp_ms,
            timestamp_text,
            pcrs,
            certs,
            public_key: base64_option(&rec.public_key),
            user_data: base64_option(&rec.user_data),
            nonce: base64_option(&rec.nonce),
            verification_error: self.verify_err,
        }
    }

    /// The verified record.
    pub fn record(&self) -> (r: &AttestationRecord)
        ensures
            *r == self.spec_record(),
    {
        &self.payload_ref
    }
}

} // verus!
