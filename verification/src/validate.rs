//! Payload normalization and the TLS record framing check.
//!
//! A captured payload arrives as a hex dump that may carry separators such
//! as colons. Normalization keeps only the hexadecimal digits and lowercases
//! them; an accepted payload must then begin with the four characters `1603`
//! (handshake record type 0x16 followed by protocol major version 0x03).

use vstd::prelude::*;
use crate::decode::DecodedRecord;
use crate::pattern::{regex_matches, DomainPattern};

verus! {

/// A byte that is an ASCII hexadecimal digit: `0-9`, `a-f` or `A-F`.
pub open spec fn is_hex_digit(b: u8) -> bool {
    (0x30 <= b && b <= 0x39) || (0x61 <= b && b <= 0x66) || (0x41 <= b && b <= 0x46)
}

/// Lowercases the six upper-case hex letters; every other byte is unchanged.
pub open spec fn lower_hex(b: u8) -> u8 {
    if 0x41 <= b && b <= 0x46 {
        (b + 32) as u8
    } else {
        b
    }
}

/// The normalized form of a payload: its hex digits, in order, lowercased.
pub open spec fn normalize_spec(s: Seq<u8>) -> Seq<u8>
    decreases s.len(),
{
    if s.len() == 0 {
        Seq::<u8>::empty()
    } else {
        let init = normalize_spec(s.drop_last());
        if is_hex_digit(s.last()) {
            init.push(lower_hex(s.last()))
        } else {
            init
        }
    }
}

/// A payload made only of non-hex bytes normalizes to the empty sequence.
pub proof fn lemma_normalize_all_non_hex_empty(s: Seq<u8>)
    requires
        forall|i: int| 0 <= i < s.len() ==> !is_hex_digit(s[i]),
    ensures
        normalize_spec(s) == Seq::<u8>::empty(),
    decreases s.len(),
{
    if s.len() > 0 {
        lemma_normalize_all_non_hex_empty(s.drop_last());
    }
}

/// Every byte of a normalized payload is a lowercase hex digit, and
/// normalization never lengthens the payload.
pub proof fn lemma_normalize_shape(s: Seq<u8>)
    ensures
        normalize_spec(s).len() <= s.len(),
        forall|i: int| 0 <= i < normalize_spec(s).len() ==> is_hex_digit(
            #[trigger] normalize_spec(s)[i],
        ) && !(0x41 <= normalize_spec(s)[i] && normalize_spec(s)[i] <= 0x46),
    decreases s.len(),
{
    if s.len() > 0 {
        lemma_normalize_shape(s.drop_last());
    }
}

fn is_hex_digit_exec(b: u8) -> (r: bool)
    ensures
        r == is_hex_digit(b),
{
    (0x30 <= b && b <= 0x39) || (0x61 <= b && b <= 0x66) || (0x41 <= b && b <= 0x46)
}

/// Strips every byte that is not a hex digit and lowercases what remains.
pub fn normalize_payload(payload: &[u8]) -> (r: Vec<u8>)
    ensures
        r@ == normalize_spec(payload@),
{
    let mut out: Vec<u8> = Vec::new();
    let mut i: usize = 0;
    while i < payload.len()
        invariant
            i <= payload.len(),
            out@ == normalize_spec(payload@.subrange(0, i as int)),
        decreases payload.len() - i,
    {
        let b = payload[i];
        if is_hex_digit_exec(b) {
            if 0x41 <= b && b <= 0x46 {
                out.push(b + 32);
            } else {
                out.push(b);
            }
        }
        proof {
            assert(payload@.subrange(0, i + 1 as int).drop_last() =~= payload@.subrange(
                0,
                i as int,
            ));
        }
        i = i + 1;
    }
    proof {
        assert(payload@.subrange(0, payload@.len() as int) =~= payload@);
    }
    out
}

/// Whether a normalized payload begins with the four framing characters
/// `1603`.
pub open spec fn starts_with_1603(s: Seq<u8>) -> bool {
    s.len() >= 4 && s[0] == 0x31 && s[1] == 0x36 && s[2] == 0x30 && s[3] == 0x33
}

/// Checks the framing prefix on an already-normalized payload.
pub fn has_tls_framing(s: &[u8]) -> (r: bool)
    ensures
        r == starts_with_1603(s@),
{
    s.len() >= 4 && s[0] == 0x31 && s[1] == 0x36 && s[2] == 0x30 && s[3] == 0x33
}

/// Why a decoded record produced no signature. None of these stops the
/// capture loop; they only drop the one record.
#[derive(Clone, Copy, Debug, PartialEq, Eq, Structural)]
pub enum RejectReason {
    /// The server name does not match the domain filter pattern.
    DomainMismatch,
    /// The payload is empty, or holds no hexadecimal digit at all.
    EmptyPayload,
    /// The normalized payload does not begin with the `1603` framing prefix.
    InvalidFraming,
}

/// The verdict on one decoded record: an accepted signature, or the reason
/// the record was dropped.
pub enum FilterOutcome {
    Accepted(Vec<u8>),
    Rejected(RejectReason),
}

/// The checks of the filter, in order: domain match first (regardless of
/// payload content), then payload presence after normalization, then the
/// framing prefix. `None` means the record is accepted.
pub open spec fn rejection_of(pat: Seq<char>, sni: Seq<u8>, payload: Seq<u8>) -> Option<
    RejectReason,
> {
    if !regex_matches(pat, sni) {
        Some(RejectReason::DomainMismatch)
    } else if normalize_spec(payload).len() == 0 {
        Some(RejectReason::EmptyPayload)
    } else if !starts_with_1603(normalize_spec(payload)) {
        Some(RejectReason::InvalidFraming)
    } else {
        None
    }
}

/// The signature text for a normalized payload: `<b 0x` + hex + `>`.
pub open spec fn signature_spec(hex: Seq<u8>) -> Seq<u8> {
    seq![0x3cu8, 0x62u8, 0x20u8, 0x30u8, 0x78u8] + hex + seq![0x3eu8]
}

/// A record whose server name does not match the pattern is rejected with
/// `DomainMismatch`, whatever its payload holds.
pub proof fn lemma_domain_mismatch_rejects(pat: Seq<char>, sni: Seq<u8>, payload: Seq<u8>)
    requires
        !regex_matches(pat, sni),
    ensures
        rejection_of(pat, sni, payload) == Some(RejectReason::DomainMismatch),
{
}

/// A payload made only of non-hex bytes is rejected with `EmptyPayload`
/// whenever its record gets past the domain check.
pub proof fn lemma_non_hex_payload_rejects(pat: Seq<char>, sni: Seq<u8>, payload: Seq<u8>)
    requires
        forall|i: int| 0 <= i < payload.len() ==> !is_hex_digit(payload[i]),
        regex_matches(pat, sni),
    ensures
        rejection_of(pat, sni, payload) == Some(RejectReason::EmptyPayload),
{
    lemma_normalize_all_non_hex_empty(payload);
}

/// Applies the domain filter and the framing validation to one decoded
/// record, producing the signature text or the rejection reason.
pub fn evaluate(pattern: &DomainPattern, record: &DecodedRecord) -> (r: FilterOutcome)
    ensures
        (match r {
            FilterOutcome::Accepted(sig) => rejection_of(pattern@, record.sni@, record.payload_hex@)
                is None && sig@ == signature_spec(normalize_spec(record.payload_hex@)),
            FilterOutcome::Rejected(reason) => rejection_of(
                pattern@,
                record.sni@,
                record.payload_hex@,
            ) == Some(reason),
        }),
{
    if !pattern.is_match(record.sni.as_slice()) {
        return FilterOutcome::Rejected(RejectReason::DomainMismatch);
    }
    let normalized = normalize_payload(record.payload_hex.as_slice());
    if normalized.len() == 0 {
        return FilterOutcome::Rejected(RejectReason::EmptyPayload);
    }
    if !has_tls_framing(normalized.as_slice()) {
        return FilterOutcome::Rejected(RejectReason::InvalidFraming);
    }
    let mut sig: Vec<u8> = Vec::new();
    sig.push(0x3c);  // '<'
    sig.push(0x62);  // 'b'
    sig.push(0x20);  // ' '
    sig.push(0x30);  // '0'
    sig.push(0x78);  // 'x'
    sig.extend_from_slice(normalized.as_slice());
    sig.push(0x3e);  // '>'
    proof {
        assert(sig@ =~= signature_spec(normalize_spec(record.payload_hex@)));
    }
    FilterOutcome::Accepted(sig)
}

} // verus!
