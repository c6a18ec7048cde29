use vstd::prelude::*;
use vstd::string::StringExecFns;
use vstd::set_lib::{lemma_int_range, lemma_map_size, lemma_subset_equality, set_int_range};

verus! {

/// Lower bound (exclusive) of a document timestamp: 2020-01-01T00:00:00Z, in
/// milliseconds since the Unix epoch.
pub const TIMESTAMP_FLOOR_MS: i64 = 1577836800000;

/// Clock-skew tolerance above the reference time: one day, in milliseconds.
pub const SKEW_MS: i64 = 86400000;

/// Exclusive upper bound of the number of measurement registers.
pub const MAX_PCRS: usize = 32;

/// The decoded payload of an attestation document.
pub struct AttestationRecord {
    pub module_id: String,
    pub digest: String,
    /// Milliseconds since the Unix epoch.
    pub timestamp_ms: i64,
    /// Measurement registers as (index, digest) entries of the payload's map.
    pub pcrs: Vec<(u8, Vec<u8>)>,
    /// DER of the leaf certificate.
    pub certificate: Vec<u8>,
    /// DER certificates: the claimed root first, then the intermediates.
    pub cabundle: Vec<Vec<u8>>,
    pub public_key: Option<Vec<u8>>,
    pub user_data: Option<Vec<u8>>,
    pub nonce: Option<Vec<u8>>,
}

/// The first field-level rule that a record breaks.
#[derive(Clone, Copy, Debug, PartialEq, Eq)]
pub enum FieldError {
    ModuleIdEmpty,
    UnknownDigest,
    TimestampOutOfRange,
    WrongPcrCount,
    PcrMissing(u8),
    PcrWrongLength(u8),
}

/// Register entries with their digests as sequences.
pub open spec fn pcr_entries(pcrs: Seq<(u8, Vec<u8>)>) -> Seq<(u8, Seq<u8>)> {
    pcrs.map_values(|e: (u8, Vec<u8>)| (e.0, e.1@))
}

/// The decimal digit of `d`, for `0 <= d < 10`.
pub open spec fn decimal_digit(d: int) -> char {
    seq!['0', '1', '2', '3', '4', '5', '6', '7', '8', '9'][d]
}

/// `n` in decimal, without leading zeros, for `0 <= n < 1000`.
pub open spec fn decimal(n: int) -> Seq<char> {
    if n < 10 {
        seq![decimal_digit(n)]
    } else if n < 100 {
        seq![decimal_digit(n / 10), decimal_digit(n % 10)]
    } else {
        seq![decimal_digit(n / 100), decimal_digit(n / 10 % 10), decimal_digit(n % 10)]
    }
}

/// The message of a broken field rule.
pub open spec fn field_error_text(e: FieldError) -> Seq<char> {
    match e {
        FieldError::ModuleIdEmpty => "module_id is empty"@,
        FieldError::UnknownDigest => "digest signature is unknown"@,
        FieldError::TimestampOutOfRange => "timestamp field has wrong value"@,
        FieldError::WrongPcrCount => "wrong number of PCRs in the map"@,
        FieldError::PcrMissing(i) => "PCR"@ + decimal(i as int) + " is missing"@,
        FieldError::PcrWrongLength(i) => "PCR"@ + decimal(i as int) + " len is other than 32/48/64 bytes"@,
    }
}

fn digit_text(d: u8) -> (r: &'static str)
    requires
        d < 10,
    ensures
        r@ == seq![decimal_digit(d as int)],
{
    proof {
        reveal_strlit("0");
        reveal_strlit("1");
        reveal_strlit("2");
        reveal_strlit("3");
        reveal_strlit("4");
        reveal_strlit("5");
        reveal_strlit("6");
        reveal_strlit("7");
        reveal_strlit("8");
        reveal_strlit("9");
    }
    match d {
        0 => "0",
        1 => "1",
        2 => "2",
        3 => "3",
        4 => "4",
        5 => "5",
        6 => "6",
        7 => "7",
        8 => "8",
        _ => "9",
    }
}

fn append_decimal(s: &mut String, n: u8)
    ensures
        final(s)@ == old(s)@ + decimal(n as int),
{
    if n >= 100 {
        s.append(digit_text(n / 100));
    }
    if n >= 10 {
        s.append(digit_text(n / 10 % 10));
    }
    s.append(digit_text(n % 10));
    assert(final(s)@ =~= old(s)@ + decimal(n as int));
}

impl FieldError {
    /// The message of the broken rule.
    pub fn message(&self) -> (r: String)
        ensures
            r@ == field_error_text(*self),
    {
        match self {
            FieldError::ModuleIdEmpty => String::from_str("module_id is empty"),
            FieldError::UnknownDigest => String::from_str("digest signature is unknown"),
            FieldError::TimestampOutOfRange => String::from_str("timestamp field has wrong value"),
            FieldError::WrongPcrCount => String::from_str("wrong number of PCRs in the map"),
            FieldError::PcrMissing(i) => {
                let mut s = String::from_str("PCR");
                append_decimal(&mut s, *i);
                s.append(" is missing");
                s
            },
            FieldError::PcrWrongLength(i) => {
                let mut s = String::from_str("PCR");
                append_decimal(&mut s, *i);
                s.append(" len is other than 32/48/64 bytes");
                s
            },
        }
    }
}

impl AttestationRecord {
    pub open spec fn pcr_view(&self) -> Seq<(u8, Seq<u8>)> {
        pcr_entries(self.pcrs@)
    }
}

pub open spec fn digest_len_ok(n: nat) -> bool {
    n == 32 || n == 48 || n == 64
}

/// Some entry of `pcrs` has index `i`.
pub open spec fn has_pcr(pcrs: Seq<(u8, Seq<u8>)>, i: int) -> bool {
    exists|j: int| 0 <= j < pcrs.len() && pcrs[j].0 == i
}

/// Every entry of `pcrs` with index `i` holds a digest of an accepted length.
pub open spec fn pcr_len_ok(pcrs: Seq<(u8, Seq<u8>)>, i: int) -> bool {
    forall|j: int| 0 <= j < pcrs.len() && pcrs[j].0 == i ==> digest_len_ok(pcrs[j].1.len())
}

/// The first rule broken by the registers `i..n`, in index order.
pub open spec fn first_pcr_fault(pcrs: Seq<(u8, Seq<u8>)>, i: int, n: int) -> Option<FieldError>
    decreases n - i,
{
    if i >= n {
        None
    } else if !has_pcr(pcrs, i) {
        Some(FieldError::PcrMissing(i as u8))
    } else if !pcr_len_ok(pcrs, i) {
        Some(FieldError::PcrWrongLength(i as u8))
    } else {
        first_pcr_fault(pcrs, i + 1, n)
    }
}

/// The outcome of field validation at reference time `now_sec` (seconds):
/// the first broken rule, checked in a fixed order.
pub open spec fn field_check(
    module_id: Seq<char>,
    digest: Seq<char>,
    timestamp_ms: int,
    pcrs: Seq<(u8, Seq<u8>)>,
    now_sec: int,
) -> Result<(), FieldError> {
    if module_id.len() == 0 {
        Err(FieldError::ModuleIdEmpty)
    } else if digest != "SHA384"@ {
        Err(FieldError::UnknownDigest)
    } else if !(TIMESTAMP_FLOOR_MS < timestamp_ms < now_sec * 1000 + SKEW_MS) {
        Err(FieldError::TimestampOutOfRange)
    } else if !(1 <= pcrs.len() < MAX_PCRS) {
        Err(FieldError::WrongPcrCount)
    } else {
        match first_pcr_fault(pcrs, 0, pcrs.len() as int) {
            Some(e) => Err(e),
            None => Ok(()),
        }
    }
}

/// Once registers `i..n` have a fault, the first fault of `i..n` is some fault.
proof fn lemma_fault_found(pcrs: Seq<(u8, Seq<u8>)>, i: int, n: int, k: int)
    requires
        i <= k < n,
        !has_pcr(pcrs, k) || !pcr_len_ok(pcrs, k),
    ensures
        first_pcr_fault(pcrs, i, n) is Some,
    decreases k - i,
{
    if i < k && has_pcr(pcrs, i) && pcr_len_ok(pcrs, i) {
        lemma_fault_found(pcrs, i + 1, n, k);
    }
}

/// When every index below the number of entries is present, every entry's
/// index is below it.
proof fn lemma_indices_cover(pcrs: Seq<(u8, Seq<u8>)>)
    requires
        forall|i: int| 0 <= i < pcrs.len() ==> #[trigger] has_pcr(pcrs, i),
    ensures
        forall|j: int| 0 <= j < pcrs.len() ==> (#[trigger] pcrs[j]).0 < pcrs.len(),
        forall|j1: int, j2: int|
            0 <= j1 < pcrs.len() && 0 <= j2 < pcrs.len() && (#[trigger] pcrs[j1]).0 == (
            #[trigger] pcrs[j2]).0 ==> j1 == j2,
{
    let n = pcrs.len() as int;
    let f = |i: int| choose|j: int| 0 <= j < n && pcrs[j].0 == i;
    let x = set_int_range(0, n);
    let y = x.map(f);
    lemma_int_range(0, n);
    assert forall|i: int| x.contains(i) implies 0 <= #[trigger] f(i) < n && pcrs[f(i)].0 == i by {
        assert(has_pcr(pcrs, i));
    }
    assert forall|a: int, b: int| x.contains(a) && x.contains(b) && #[trigger] f(a) == #[trigger] f(b) implies a == b by {
        assert(pcrs[f(a)].0 == a);
        assert(pcrs[f(b)].0 == b);
    }
    lemma_map_size(x, y, f);
    assert forall|j: int| y.contains(j) implies x.contains(j) by {
        let i = choose|i: int| x.contains(i) && f(i) == j;
        assert(0 <= f(i) < n);
    }
    lemma_subset_equality(y, x);
    assert forall|j: int| 0 <= j < n implies (#[trigger] pcrs[j]).0 < n by {
        assert(x.contains(j));
        assert(y.contains(j));
        let i = choose|i: int| x.contains(i) && f(i) == j;
        assert(pcrs[f(i)].0 == i);
    }
    assert forall|j1: int, j2: int|
        0 <= j1 < n && 0 <= j2 < n && (#[trigger] pcrs[j1]).0 == (#[trigger] pcrs[j2]).0 implies j1 == j2 by {
        assert(x.contains(j1) && y.contains(j1));
        assert(x.contains(j2) && y.contains(j2));
        let i1 = choose|i: int| x.contains(i) && f(i) == j1;
        let i2 = choose|i: int| x.contains(i) && f(i) == j2;
        assert(pcrs[f(i1)].0 == i1);
        assert(pcrs[f(i2)].0 == i2);
    }
}

/// A record with no registers, with 32 or more, with an index below the count
/// missing, or with any digest of a length other than 32, 48 or 64, fails
/// validation.
pub proof fn lemma_bad_registers_rejected(
    module_id: Seq<char>,
    digest: Seq<char>,
    timestamp_ms: int,
    pcrs: Seq<(u8, Seq<u8>)>,
    now_sec: int,
)
    requires
        pcrs.len() == 0 || pcrs.len() >= MAX_PCRS || (exists|k: int|
            0 <= k < pcrs.len() && !has_pcr(pcrs, k)) || (exists|j: int|
            0 <= j < pcrs.len() && !digest_len_ok(pcrs[j].1.len())),
    ensures
        field_check(module_id, digest, timestamp_ms, pcrs, now_sec) is Err,
{
    let n = pcrs.len() as int;
    if 1 <= n < MAX_PCRS {
        if exists|k: int| 0 <= k < n && !has_pcr(pcrs, k) {
            let k = choose|k: int| 0 <= k < n && !has_pcr(pcrs, k);
            lemma_fault_found(pcrs, 0, n, k);
        } else {
            lemma_indices_cover(pcrs);
            let j = choose|j: int| 0 <= j < n && !digest_len_ok(pcrs[j].1.len());
            let k = pcrs[j].0 as int;
            assert(k < n);
            assert(!pcr_len_ok(pcrs, k));
            lemma_fault_found(pcrs, 0, n, k);
        }
    }
}

/// When registers `i..n` are all sound, each of them is present with an
/// accepted digest length.
pub proof fn lemma_no_fault(pcrs: Seq<(u8, Seq<u8>)>, i: int, n: int)
    requires
        first_pcr_fault(pcrs, i, n) is None,
    ensures
        forall|k: int| i <= k < n ==> has_pcr(pcrs, k) && pcr_len_ok(pcrs, k),
    decreases n - i,
{
    if i < n {
        lemma_no_fault(pcrs, i + 1, n);
    }
}

/// A record that passes the field rules holds each index below its number of
/// registers exactly once, and no other index.
pub proof fn lemma_valid_indices_once(record: AttestationRecord, now_sec: u64)
    requires
        record.fields_valid(now_sec),
    ensures
        forall|k: int| 0 <= k < record.pcrs.len() ==> #[trigger] has_pcr(record.pcr_view(), k),
        forall|j: int| 0 <= j < record.pcrs.len() ==> (#[trigger] record.pcrs[j]).0 < record.pcrs.len(),
        forall|j1: int, j2: int|
            0 <= j1 < record.pcrs.len() && 0 <= j2 < record.pcrs.len() && (#[trigger] record.pcrs[j1]).0 == (
            #[trigger] record.pcrs[j2]).0 ==> j1 == j2,
{
    let pv = record.pcr_view();
    let n = pv.len() as int;
    lemma_no_fault(pv, 0, n);
    assert forall|k: int| 0 <= k < n implies #[trigger] has_pcr(pv, k) by {}
    lemma_indices_cover(pv);
    assert forall|j: int| 0 <= j < n implies (#[trigger] record.pcrs[j]).0 < n by {
        assert(pv[j].0 == record.pcrs[j].0);
    }
    assert forall|j1: int, j2: int|
        0 <= j1 < n && 0 <= j2 < n && (#[trigger] record.pcrs[j1]).0 == (#[trigger] record.pcrs[j2]).0 implies j1 == j2 by {
        assert(pv[j1].0 == record.pcrs[j1].0);
        assert(pv[j2].0 == record.pcrs[j2].0);
    }
}

impl AttestationRecord {
    pub open spec fn field_outcome(&self, now_sec: u64) -> Result<(), FieldError> {
        field_check(self.module_id@, self.digest@, self.timestamp_ms as int, self.pcr_view(), now_sec as int)
    }

    /// The record passes every field rule at reference time `now_sec`.
    pub open spec fn fields_valid(&self, now_sec: u64) -> bool {
        self.field_outcome(now_sec) is Ok
    }

    /// Applies the field rules in order and reports the first that fails.
    pub fn validate_fields(&self, now_sec: u64) -> (r: Result<(), FieldError>)
        ensures
            r == self.field_outcome(now_sec),
    {
        if self.module_id.as_str().is_empty() {
            return Err(FieldError::ModuleIdEmpty);
        }
        let supported: String = "SHA384".to_owned();
        proof {
            reveal_strlit("SHA384");
        }
        if self.digest != supported {
            return Err(FieldError::UnknownDigest);
        }
        let upper: i128 = (now_sec as i128) * 1000 + (SKEW_MS as i128);
        if !(TIMESTAMP_FLOOR_MS < self.timestamp_ms && (self.timestamp_ms as i128) < upper) {
            return Err(FieldError::TimestampOutOfRange);
        }
        let n: usize = self.pcrs.len();
        if !(1 <= n && n < MAX_PCRS) {
            return Err(FieldError::WrongPcrCount);
        }
        let ghost pv = self.pcr_view();
        let ghost pcr_outcome = match first_pcr_fault(pv, 0, n as int) {
            Some(e) => Err(e),
            None => Ok(()),
        };
        assert(self.field_outcome(now_sec) == pcr_outcome);
        let mut i: usize = 0;
        while i < n
            invariant
                n == self.pcrs.len(),
                n < MAX_PCRS,
                i <= n,
                pv == self.pcr_view(),
                self.field_outcome(now_sec) == pcr_outcome,
                pcr_outcome == match first_pcr_fault(pv, 0, n as int) {
                    Some(e) => Err(e),
                    None => Ok::<(), FieldError>(()),
                },
                first_pcr_fault(pv, 0, n as int) == first_pcr_fault(pv, i as int, n as int),
            decreases n - i,
        {
            let mut found: bool = false;
            let mut len_ok: bool = true;
            let mut j: usize = 0;
            while j < n
                invariant
                    n == self.pcrs.len(),
                    i < n < MAX_PCRS,
                    j <= n,
                    pv == self.pcr_view(),
                    found <==> exists|k: int| 0 <= k < j && pv[k].0 == i,
                    len_ok <==> forall|k: int|
                        0 <= k < j && pv[k].0 == i ==> digest_len_ok(pv[k].1.len()),
                decreases n - j,
            {
                let entry = &self.pcrs[j];
                assert(pv[j as int] == (entry.0, entry.1@));
                if entry.0 as usize == i {
                    found = true;
                    let l: usize = entry.1.len();
                    if !(l == 32 || l == 48 || l == 64) {
                        len_ok = false;
                    }
                }
                j += 1;
            }
            assert(found <==> has_pcr(pv, i as int));
            assert(len_ok <==> pcr_len_ok(pv, i as int));
            assert(first_pcr_fault(pv, i as int, n as int) == if !has_pcr(pv, i as int) {
                Some(FieldError::PcrMissing(i as u8))
            } else if !pcr_len_ok(pv, i as int) {
                Some(FieldError::PcrWrongLength(i as u8))
            } else {
                first_pcr_fault(pv, i + 1, n as int)
            });
            if !found {
                return Err(FieldError::PcrMissing(i as u8));
            }
            if !len_ok {
                return Err(FieldError::PcrWrongLength(i as u8));
            }
            i += 1;
        }
        Ok(())
    }
}

} // verus!
