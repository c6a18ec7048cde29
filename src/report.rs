//! The report of a verified document: a projection of its record, with bytes
//! rendered as hex or base64 and certificates as text.
use crate::doc::NitroAdError;
use crate::outside::{
    base64_of, hex_digit, hex_of, to_base64, to_hex, utc_text, utc_text_of, x509_summary,
    x509_summary_of,
};
use crate::record::pcr_entries;
use vstd::prelude::*;
use vstd::set_lib::{lemma_int_range, set_int_range};

verus! {

/// A certificate as text.
pub struct CertSummary {
    pub issuer: String,
    pub subject: String,
    /// Seconds since the Unix epoch.
    pub not_before: i64,
    /// Seconds since the Unix epoch.
    pub not_after: i64,
    /// `not_before` as UTC text, where it can be rendered.
    pub not_before_text: Option<String>,
    /// `not_after` as UTC text, where it can be rendered.
    pub not_after_text: Option<String>,
}

/// The report of a verified document.
pub struct Report {
    pub module_id: String,
    pub digest: String,
    /// Milliseconds since the Unix epoch.
    pub timestamp_ms: i64,
    /// The timestamp as UTC text, where it can be rendered.
    pub timestamp_text: Option<String>,
    /// (index, lowercase hex digest) by increasing index.
    pub pcrs: Vec<(u8, String)>,
    /// The bundle's certificates in order, then the leaf certificate; `None`
    /// for one that cannot be read.
    pub certs: Vec<Option<CertSummary>>,
    pub public_key: Option<String>,
    pub user_data: Option<String>,
    pub nonce: Option<String>,
    pub verification_error: Option<webpki::Error>,
}

/// The value of a lowercase hexadecimal digit.
pub open spec fn hex_value(c: char) -> int {
    if '0' <= c && c <= '9' {
        c as int - '0' as int
    } else {
        c as int - 'a' as int + 10
    }
}

/// The bytes that a lowercase hexadecimal text spells, two digits per byte.
pub open spec fn hex_decode(s: Seq<char>) -> Seq<u8> {
    Seq::new(s.len() / 2, |k: int| (hex_value(s[2 * k]) * 16 + hex_value(s[2 * k + 1])) as u8)
}

/// `r` renders the entries of `pcrs` in the order given by `src`: output `m`
/// is entry `src[m]` with its digest in hex, outputs go by increasing index
/// (entries with equal index in their original order), and every entry is
/// rendered once.
pub open spec fn rendered_from(pcrs: Seq<(u8, Seq<u8>)>, r: Seq<(u8, String)>, src: Seq<int>) -> bool {
    &&& src.len() == r.len()
    &&& forall|m: int|
        0 <= m < r.len() ==> 0 <= #[trigger] src[m] < pcrs.len() && r[m].0 == pcrs[src[m]].0
            && r[m].1@ == hex_of(pcrs[src[m]].1)
    &&& forall|m1: int, m2: int|
        0 <= m1 < m2 < r.len() ==> (#[trigger] r[m1]).0 < (#[trigger] r[m2]).0 || (r[m1].0
            == r[m2].0 && src[m1] < src[m2])
    &&& forall|j: int| 0 <= j < pcrs.len() ==> #[trigger] src.contains(j)
}

/// A rendering holds exactly as many outputs as there are entries.
pub proof fn lemma_rendered_len(pcrs: Seq<(u8, Seq<u8>)>, r: Seq<(u8, String)>, src: Seq<int>)
    requires
        rendered_from(pcrs, r, src),
    ensures
        r.len() == pcrs.len(),
{
    assert forall|m1: int, m2: int| 0 <= m1 < src.len() && 0 <= m2 < src.len() && m1 != m2 implies src[m1]
        != src[m2] by {
        if m1 < m2 {
            assert(r[m1].0 < r[m2].0 || src[m1] < src[m2]);
        } else {
            assert(r[m2].0 < r[m1].0 || src[m2] < src[m1]);
        }
    }
    assert(src.no_duplicates());
    src.unique_seq_to_set();
    let n = pcrs.len() as int;
    assert(src.to_set() =~= set_int_range(0, n)) by {
        assert forall|j: int| src.to_set().contains(j) implies set_int_range(0, n).contains(j) by {
            let m = choose|m: int| 0 <= m < src.len() && src[m] == j;
            assert(0 <= src[m] < n);
        }
        assert forall|j: int| set_int_range(0, n).contains(j) implies src.to_set().contains(j) by {
            assert(src.contains(j));
        }
    }
    lemma_int_range(0, n);
}

/// `r` is the entries of `pcrs`, each with its digest in hex, sorted by index
/// (stably).
pub open spec fn pcrs_rendered(pcrs: Seq<(u8, Seq<u8>)>, r: Seq<(u8, String)>) -> bool {
    exists|src: Seq<int>| rendered_from(pcrs, r, src)
}

/// What a rendered entry says of a certificate.
pub open spec fn summary_view(c: Option<CertSummary>) -> Option<(Seq<char>, Seq<char>, i64, i64)> {
    match c {
        Some(c) => Some((c.issuer@, c.subject@, c.not_before, c.not_after)),
        None => None,
    }
}

/// The UTC text of `secs` seconds after the Unix epoch, where it has one.
pub open spec fn seconds_text(secs: i64) -> Option<Seq<char>> {
    utc_text_of(secs, 0)
}

/// A summary's texts render its validity bounds.
pub open spec fn texts_ok(c: Option<CertSummary>) -> bool {
    match c {
        Some(c) => string_opt(c.not_before_text) == seconds_text(c.not_before) && string_opt(
            c.not_after_text,
        ) == seconds_text(c.not_after),
        None => true,
    }
}

/// What x509-parser reads from a certificate for display, if it can read it.
pub open spec fn summary_opt(der: Seq<u8>) -> Option<(Seq<char>, Seq<char>, i64, i64)> {
    match x509_summary_of(der) {
        Ok(v) => Some(v),
        Err(_) => None,
    }
}

/// The entry of each certificate of `ders`, in order: its summary, or `None`
/// where it cannot be read.
pub open spec fn certs_rendered(ders: Seq<Seq<u8>>, r: Seq<Option<CertSummary>>) -> bool {
    r.len() == ders.len() && forall|i: int|
        0 <= i < r.len() ==> summary_view(#[trigger] r[i]) == summary_opt(ders[i]) && texts_ok(r[i])
}

pub open spec fn base64_opt(b: Option<Vec<u8>>) -> Option<Seq<char>> {
    match b {
        Some(v) => Some(base64_of(v@)),
        None => None,
    }
}

pub open spec fn string_opt(s: Option<String>) -> Option<Seq<char>> {
    match s {
        Some(v) => Some(v@),
        None => None,
    }
}

proof fn lemma_hex_digit_value(v: int)
    requires
        0 <= v < 16,
    ensures
        hex_value(hex_digit(v)) == v,
{
    reveal_strlit("0123456789abcdef");
}

/// Hex text decodes back to the bytes it was made from.
pub proof fn lemma_hex_round_trip(b: Seq<u8>)
    ensures
        hex_decode(hex_of(b)) == b,
{
    let h = hex_of(b);
    assert forall|k: int| 0 <= k < b.len() implies #[trigger] hex_decode(h)[k] == b[k] by {
        assert(h[2 * k] == hex_digit(b[k] as int / 16));
        assert(h[2 * k + 1] == hex_digit(b[k] as int % 16));
        lemma_hex_digit_value(b[k] as int / 16);
        lemma_hex_digit_value(b[k] as int % 16);
    }
    assert(hex_decode(h) =~= b);
}

/// Each register by increasing index, with its digest in lowercase hex.
pub fn pcrs_to_json(pcrs: &Vec<(u8, Vec<u8>)>) -> (r: Vec<(u8, String)>)
    ensures
        pcrs_rendered(pcr_entries(pcrs@), r@),
{
    let ghost pv = pcr_entries(pcrs@);
    let n: usize = pcrs.len();
    let mut r: Vec<(u8, String)> = Vec::new();
    let ghost mut src: Seq<int> = Seq::empty();
    let mut k: u16 = 0;
    while k < 256
        invariant
            n == pcrs.len(),
            pv == pcr_entries(pcrs@),
            k <= 256,
            src.len() == r.len(),
            forall|m: int|
                0 <= m < r.len() ==> 0 <= #[trigger] src[m] < n && r[m].0 == pv[src[m]].0 && r[m].1@
                    == hex_of(pv[src[m]].1) && r[m].0 < k,
            forall|m1: int, m2: int|
                0 <= m1 < m2 < r.len() ==> (#[trigger] r[m1]).0 < (#[trigger] r[m2]).0 || (r[m1].0
                    == r[m2].0 && src[m1] < src[m2]),
            forall|j: int| 0 <= j < n && pv[j].0 < k ==> #[trigger] src.contains(j),
        decreases 256 - k,
    {
        let mut j: usize = 0;
        while j < n
            invariant
                n == pcrs.len(),
                pv == pcr_entries(pcrs@),
                k < 256,
                j <= n,
                src.len() == r.len(),
                forall|m: int|
                    0 <= m < r.len() ==> 0 <= #[trigger] src[m] < n && r[m].0 == pv[src[m]].0
                        && r[m].1@ == hex_of(pv[src[m]].1) && (r[m].0 < k || (r[m].0 == k && src[m]
                        < j)),
                forall|m1: int, m2: int|
                    0 <= m1 < m2 < r.len() ==> (#[trigger] r[m1]).0 < (#[trigger] r[m2]).0 || (
                    r[m1].0 == r[m2].0 && src[m1] < src[m2]),
                forall|i: int|
                    0 <= i < n && (pv[i].0 < k || (pv[i].0 == k && i < j)) ==> #[trigger] src.contains(i),
            decreases n - j,
        {
            let entry = &pcrs[j];
            assert(pv[j as int] == (entry.0, entry.1@));
            if entry.0 as u16 == k {
                let h = to_hex(entry.1.as_slice());
                let ghost old_src = src;
                let ghost old_r = r@;
                r.push((entry.0, h));
                proof {
                    src = src.push(j as int);
                    assert forall|i: int|
                        0 <= i < n && (pv[i].0 < k || (pv[i].0 == k && i < j + 1)) implies #[trigger] src.contains(i) by {
                        if i == j {
                            assert(src[src.len() - 1] == i);
                        } else {
                            assert(old_src.contains(i));
                            let m = choose|m: int| 0 <= m < old_src.len() && old_src[m] == i;
                            assert(src[m] == i);
                        }
                    }
                    assert forall|m: int| 0 <= m < r.len() implies 0 <= #[trigger] src[m] < n && r[m].0
                        == pv[src[m]].0 && r[m].1@ == hex_of(pv[src[m]].1) && (r[m].0 < k || (r[m].0 == k
                        && src[m] < j + 1)) by {
                        if m < old_r.len() {
                            assert(r[m] == old_r[m]);
                            assert(src[m] == old_src[m]);
                        }
                    }
                    assert forall|m1: int, m2: int| 0 <= m1 < m2 < r.len() implies (#[trigger] r[m1]).0
                        < (#[trigger] r[m2]).0 || (r[m1].0 == r[m2].0 && src[m1] < src[m2]) by {
                        assert(r[m1] == old_r[m1]);
                        assert(src[m1] == old_src[m1]);
                        if m2 < old_r.len() {
                            assert(r[m2] == old_r[m2]);
                            assert(src[m2] == old_src[m2]);
                        }
                    }
                }
            }
            j += 1;
        }
        k += 1;
    }
    proof {
        assert forall|j: int| 0 <= j < n implies #[trigger] src.contains(j) by {
            assert(pv[j].0 < 256);
        }
        assert(rendered_from(pv, r@, src));
    }
    r
}

/// The summary of one certificate.
pub fn x509_to_json(der: &Vec<u8>) -> (r: Result<CertSummary, NitroAdError>)
    ensures
        match r {
            Ok(c) => summary_opt(der@) == summary_view(Some(c)) && texts_ok(Some(c)),
            Err(e) => e is X509Error && x509_summary_of(der@) == Err::<
                (Seq<char>, Seq<char>, i64, i64),
                Seq<char>,
            >(e->X509Error_0@),
        },
{
    match x509_summary(der.as_slice()) {
        Ok(t) => {
            let not_before_text = utc_text(t.2, 0);
            let not_after_text = utc_text(t.3, 0);
            Ok(CertSummary { issuer: t.0, subject: t.1, not_before: t.2, not_after: t.3, not_before_text, not_after_text })
        },
        Err(msg) => Err(NitroAdError::X509Error(msg)),
    }
}

fn cert_entry(der: &Vec<u8>) -> (r: Option<CertSummary>)
    ensures
        summary_view(r) == summary_opt(der@),
        texts_ok(r),
{
    match x509_to_json(der) {
        Ok(c) => Some(c),
        Err(_) => None,
    }
}

/// The entries of the bundle's certificates in order, then of the leaf.
pub fn x509s_to_json(cert: &Vec<u8>, cabundle: &Vec<Vec<u8>>) -> (r: Vec<Option<CertSummary>>)
    ensures
        certs_rendered(cabundle.deep_view().push(cert@), r@),
{
    let ghost all = cabundle.deep_view().push(cert@);
    let mut result: Vec<Option<CertSummary>> = Vec::new();
    let mut i: usize = 0;
    while i < cabundle.len()
        invariant
            all == cabundle.deep_view().push(cert@),
            i <= cabundle.len(),
            result.len() == i,
            forall|k: int| 0 <= k < i ==> summary_view(#[trigger] result[k]) == summary_opt(all[k]) && texts_ok(result[k]),
        decreases cabundle.len() - i,
    {
        assert(all[i as int] == cabundle[i as int]@);
        result.push(cert_entry(&cabundle[i]));
        i += 1;
    }
    assert(all[i as int] == cert@);
    result.push(cert_entry(cert));
    assert(certs_rendered(all, result@));
    result
}

/// Base64 of optional bytes.
pub fn base64_option(b: &Option<Vec<u8>>) -> (r: Option<String>)
    ensures
        string_opt(r) == base64_opt(*b),
{
    match b {
        Some(v) => Some(to_base64(v.as_slice())),
        None => None,
    }
}

} // verus!
