//! The line decoder: one raw subprocess output record is split on the first
//! field separator into a server name and a hex payload.

use vstd::prelude::*;
use crate::scan::{first_index_of, has_byte, lemma_first_index_of, lemma_first_index_unique};

verus! {

/// The single-character field separator of the subprocess output, `|`.
pub const RECORD_SEPARATOR: u8 = 0x7c;

/// One decoded record: the server name indication and the raw hex payload.
/// Everything after the first separator is the payload, verbatim, even if it
/// contains further separators.
pub struct DecodedRecord {
    pub sni: Vec<u8>,
    pub payload_hex: Vec<u8>,
}

/// The outcome of decoding one raw line: an empty line is silently skipped,
/// a line without a separator is malformed, any other line yields a record.
pub enum DecodeOutcome {
    Blank,
    Malformed,
    Record(DecodedRecord),
}

/// The decoded fields of a raw line: `None` for a blank or separator-free
/// line, otherwise the parts before and after the first separator.
pub open spec fn decode_spec(line: Seq<u8>) -> Option<(Seq<u8>, Seq<u8>)> {
    if line.len() == 0 {
        None
    } else {
        let i = first_index_of(line, RECORD_SEPARATOR);
        if 0 <= i && i < line.len() {
            Some((line.subrange(0, i), line.subrange(i + 1, line.len() as int)))
        } else {
            None
        }
    }
}

/// Splits one raw line on the first separator occurrence.
pub fn decode_line(line: &[u8]) -> (r: DecodeOutcome)
    ensures
        line@.len() == 0 ==> (r is Blank),
        line@.len() > 0 && decode_spec(line@) is None ==> (r is Malformed),
        (match r {
            DecodeOutcome::Blank => line@.len() == 0,
            DecodeOutcome::Malformed => line@.len() > 0 && decode_spec(line@) is None,
            DecodeOutcome::Record(rec) => decode_spec(line@) == Some(
                (rec.sni@, rec.payload_hex@),
            ),
        }),
{
    if line.len() == 0 {
        return DecodeOutcome::Blank;
    }
    let mut i: usize = 0;
    while i < line.len()
        invariant
            i <= line.len(),
            forall|j: int| 0 <= j < i ==> line@[j] != RECORD_SEPARATOR,
        decreases line.len() - i,
    {
        if line[i] == RECORD_SEPARATOR {
            proof {
                lemma_first_index_unique(line@, RECORD_SEPARATOR, i as int);
            }
            let mut sni: Vec<u8> = Vec::new();
            let mut k: usize = 0;
            while k < i
                invariant
                    k <= i,
                    i < line.len(),
                    sni@ == line@.subrange(0, k as int),
                decreases i - k,
            {
                sni.push(line[k]);
                proof {
                    assert(line@.subrange(0, k + 1 as int) =~= line@.subrange(0, k as int).push(
                        line@[k as int],
                    ));
                }
                k = k + 1;
            }
            let mut payload: Vec<u8> = Vec::new();
            let mut m: usize = i + 1;
            while m < line.len()
                invariant
                    i + 1 <= m <= line.len(),
                    payload@ == line@.subrange(i + 1 as int, m as int),
                decreases line.len() - m,
            {
                payload.push(line[m]);
                proof {
                    assert(line@.subrange(i + 1 as int, m + 1 as int) =~= line@.subrange(
                        i + 1 as int,
                        m as int,
                    ).push(line@[m as int]));
                }
                m = m + 1;
            }
            return DecodeOutcome::Record(DecodedRecord { sni, payload_hex: payload });
        }
        i = i + 1;
    }
    proof {
        lemma_first_index_of(line@, RECORD_SEPARATOR);
        assert(!has_byte(line@, RECORD_SEPARATOR));
    }
    DecodeOutcome::Malformed
}

} // verus!
