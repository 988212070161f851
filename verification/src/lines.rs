//! Splitting captured subsystem output into lines: one interface descriptor
//! per line, in the order the subsystem reports them, with the line break
//! (and a carriage return before it) removed.

use vstd::prelude::*;
use crate::scan::{first_index_of, lemma_first_index_of, lemma_first_index_unique};

verus! {

/// The line feed byte.
pub const LINE_FEED: u8 = 0x0a;

/// The carriage return byte.
pub const CARRIAGE_RETURN: u8 = 0x0d;

/// A line with a trailing carriage return removed.
pub open spec fn trim_cr(l: Seq<u8>) -> Seq<u8> {
    if l.len() > 0 && l.last() == CARRIAGE_RETURN {
        l.drop_last()
    } else {
        l
    }
}

/// The lines of a byte text: split on each line feed, each line trimmed of
/// a trailing carriage return; a final fragment without a line feed is a
/// line of its own, and text ending in a line feed yields no empty last
/// line.
pub open spec fn split_lines_spec(s: Seq<u8>) -> Seq<Seq<u8>>
    decreases s.len(),
{
    if s.len() == 0 {
        Seq::<Seq<u8>>::empty()
    } else {
        let i = first_index_of(s, LINE_FEED);
        if 0 <= i && i < s.len() {
            seq![trim_cr(s.subrange(0, i))] + split_lines_spec(
                s.subrange(i + 1, s.len() as int),
            )
        } else {
            seq![trim_cr(s)]
        }
    }
}

proof fn lemma_split_first_nl(s: Seq<u8>, k: int)
    requires
        0 <= k < s.len(),
        s[k] == LINE_FEED,
        forall|j: int| 0 <= j < k ==> s[j] != LINE_FEED,
    ensures
        split_lines_spec(s) == seq![trim_cr(s.subrange(0, k))] + split_lines_spec(
            s.subrange(k + 1, s.len() as int),
        ),
{
    lemma_first_index_unique(s, LINE_FEED, k);
}

proof fn lemma_split_no_nl(s: Seq<u8>)
    requires
        s.len() > 0,
        forall|j: int| 0 <= j < s.len() ==> s[j] != LINE_FEED,
    ensures
        split_lines_spec(s) == seq![trim_cr(s)],
{
    lemma_first_index_of(s, LINE_FEED);
}

/// Splits raw subsystem output into its lines.
pub fn split_lines(out: &[u8]) -> (r: Vec<Vec<u8>>)
    ensures
        r.deep_view() == split_lines_spec(out@),
{
    let mut res: Vec<Vec<u8>> = Vec::new();
    let mut cur: Vec<u8> = Vec::new();
    let ghost mut start: int = 0;
    let mut i: usize = 0;
    proof {
        assert(out@.skip(0) =~= out@);
        assert(cur@ =~= out@.subrange(0, 0));
        assert(res.deep_view() + split_lines_spec(out@.skip(0)) =~~= split_lines_spec(out@));
    }
    while i < out.len()
        invariant
            0 <= start <= i <= out.len(),
            cur@ == out@.subrange(start, i as int),
            forall|j: int| start <= j < i ==> out@[j] != LINE_FEED,
            split_lines_spec(out@) == res.deep_view() + split_lines_spec(out@.skip(start)),
        decreases out.len() - i,
    {
        let b = out[i];
        if b == LINE_FEED {
            let ghost rest = out@.skip(start);
            proof {
                assert(rest[i - start] == out@[i as int]);
                assert(forall|j: int| 0 <= j < i - start ==> rest[j] == out@[start + j]
                    && rest[j] != LINE_FEED);
                lemma_split_first_nl(rest, i - start);
                assert(rest.subrange(0, i - start) =~= cur@);
                assert(rest.subrange(i - start + 1, rest.len() as int) =~= out@.skip(i + 1));
            }
            let mut line = cur;
            cur = Vec::new();
            if line.len() > 0 && line[line.len() - 1] == CARRIAGE_RETURN {
                line.pop();
            }
            let ghost before = res.deep_view();
            proof {
                assert(line@ =~= trim_cr(out@.subrange(start, i as int)));
            }
            res.push(line);
            proof {
                assert(res.deep_view() =~~= before.push(trim_cr(out@.subrange(start, i as int))));
                assert(before + (seq![trim_cr(rest.subrange(0, i - start))] + split_lines_spec(
                    out@.skip(i + 1),
                )) =~~= res.deep_view() + split_lines_spec(out@.skip(i + 1)));
                start = i + 1;
                assert(cur@ =~= out@.subrange(start, i + 1));
            }
        } else {
            cur.push(b);
            proof {
                assert(cur@ =~= out@.subrange(start, i + 1));
            }
        }
        i = i + 1;
    }
    if cur.len() > 0 {
        let ghost rest = out@.skip(start);
        proof {
            assert(rest.len() == cur@.len());
            assert(forall|j: int| 0 <= j < rest.len() ==> rest[j] == out@[start + j] && rest[j]
                != LINE_FEED);
            lemma_split_no_nl(rest);
            assert(rest =~= cur@);
        }
        let mut line = cur;
        if line.len() > 0 && line[line.len() - 1] == CARRIAGE_RETURN {
            line.pop();
        }
        let ghost before = res.deep_view();
        proof {
            assert(line@ =~= trim_cr(rest));
        }
        res.push(line);
        proof {
            assert(res.deep_view() =~~= before.push(trim_cr(rest)));
            assert(before + seq![trim_cr(rest)] =~~= res.deep_view());
        }
    } else {
        proof {
            assert(out@.skip(start) =~= Seq::<u8>::empty());
            assert(res.deep_view() + split_lines_spec(out@.skip(start)) =~~= res.deep_view());
        }
    }
    res
}

} // verus!
