//! The collector: drives decoded lines through the filter, accumulates
//! accepted signatures in arrival order, and stops as soon as the target
//! count is reached, without examining further lines.

use vstd::prelude::*;
use crate::decode::{decode_line, decode_spec, DecodeOutcome};
use crate::errors::ConfigError;
use crate::pattern::DomainPattern;
use crate::validate::{evaluate, normalize_spec, rejection_of, signature_spec, FilterOutcome,
    RejectReason};

verus! {

/// The signature, if any, that one raw line contributes: the line must
/// decode, its server name must match the pattern, and its payload must
/// survive normalization and the framing check.
pub open spec fn line_signature(pat: Seq<char>, line: Seq<u8>) -> Option<Seq<u8>> {
    match decode_spec(line) {
        Some(fields) => if rejection_of(pat, fields.0, fields.1) is None {
            Some(signature_spec(normalize_spec(fields.1)))
        } else {
            None
        },
        None => None,
    }
}

/// The signatures collected from a line sequence: accepted lines contribute
/// in arrival order, and collection stops once `target` signatures exist.
pub open spec fn collect_spec(pat: Seq<char>, target: int, lines: Seq<Seq<u8>>) -> Seq<Seq<u8>>
    decreases lines.len(),
{
    if target <= 0 || lines.len() == 0 {
        Seq::<Seq<u8>>::empty()
    } else {
        match line_signature(pat, lines[0]) {
            Some(sig) => seq![sig] + collect_spec(pat, target - 1, lines.drop_first()),
            None => collect_spec(pat, target, lines.drop_first()),
        }
    }
}

/// How many lines the collector reads before stopping: every line up to and
/// including the one that completes the target, or the whole sequence when
/// the target is never reached.
pub open spec fn consumed_spec(pat: Seq<char>, target: int, lines: Seq<Seq<u8>>) -> int
    decreases lines.len(),
{
    if target <= 0 || lines.len() == 0 {
        0
    } else {
        match line_signature(pat, lines[0]) {
            Some(_) => if target == 1 {
                1
            } else {
                1 + consumed_spec(pat, target - 1, lines.drop_first())
            },
            None => 1 + consumed_spec(pat, target, lines.drop_first()),
        }
    }
}

/// The collection never yields more signatures than lines arrived, nor more
/// than the target count, and never reads past the end of the input.
pub proof fn lemma_collect_bounds(pat: Seq<char>, target: int, lines: Seq<Seq<u8>>)
    ensures
        collect_spec(pat, target, lines).len() <= lines.len(),
        target >= 0 ==> collect_spec(pat, target, lines).len() <= target,
        0 <= consumed_spec(pat, target, lines) <= lines.len(),
    decreases lines.len(),
{
    if target <= 0 || lines.len() == 0 {
    } else {
        lemma_collect_bounds(pat, target - 1, lines.drop_first());
        lemma_collect_bounds(pat, target, lines.drop_first());
    }
}

/// What the collector did with one offered line.
#[derive(Clone, Copy, Debug, PartialEq, Eq, Structural)]
pub enum LineReport {
    /// The target count was already reached; the line was not examined.
    TargetReached,
    /// The line produced a signature, now appended to the collection.
    Accepted,
    /// The line was empty and silently skipped.
    SkippedBlank,
    /// The line held no field separator and was skipped as malformed.
    SkippedMalformed,
    /// The line decoded but the filter rejected its record.
    Rejected(RejectReason),
}

/// Accumulates accepted signatures up to a positive target count.
pub struct Collector {
    target: usize,
    signatures: Vec<Vec<u8>>,
}

impl View for Collector {
    type V = Seq<Seq<u8>>;

    closed spec fn view(&self) -> Seq<Seq<u8>> {
        self.signatures.deep_view()
    }
}

impl Collector {
    /// The target count the collector was built with.
    pub closed spec fn target_spec(&self) -> int {
        self.target as int
    }

    /// The collector's invariant: a positive target, never exceeded.
    pub open spec fn wf(&self) -> bool {
        0 < self.target_spec() && self@.len() <= self.target_spec()
    }

    /// Whether the target count has been reached.
    pub open spec fn full(&self) -> bool {
        self@.len() >= self.target_spec()
    }

    /// A collector for `target` signatures; a target of zero is rejected.
    pub fn new(target: usize) -> (r: Result<Collector, ConfigError>)
        ensures
            target == 0 ==> r == Err::<Collector, ConfigError>(ConfigError::ZeroTarget),
            target > 0 ==> (r matches Ok(c) && c.target_spec() == target && c@ == Seq::<
                Seq<u8>,
            >::empty() && c.wf()),
    {
        if target == 0 {
            Err(ConfigError::ZeroTarget)
        } else {
            let c = Collector { target, signatures: Vec::new() };
            proof {
                assert(c@ =~= Seq::<Seq<u8>>::empty());
            }
            Ok(c)
        }
    }

    /// Whether the collector has gathered its target count.
    pub fn is_full(&self) -> (r: bool)
        ensures
            r == self.full(),
    {
        self.signatures.len() >= self.target
    }

    /// How many signatures are collected so far.
    pub fn count(&self) -> (r: usize)
        ensures
            r == self@.len(),
    {
        self.signatures.len()
    }

    /// Offers one raw line: decodes it, filters the record, and appends the
    /// signature when it is accepted and the target is not yet reached.
    pub fn offer_line(&mut self, pattern: &DomainPattern, line: &[u8]) -> (r: LineReport)
        requires
            old(self).wf(),
        ensures
            final(self).wf(),
            final(self).target_spec() == old(self).target_spec(),
            (match r {
                LineReport::TargetReached => old(self).full() && final(self)@ == old(self)@,
                LineReport::Accepted => !old(self).full() && (line_signature(pattern@, line@)
                    matches Some(sig) && final(self)@ == old(self)@.push(sig)),
                LineReport::SkippedBlank => !old(self).full() && line@.len() == 0 && final(self)@
                    == old(self)@,
                LineReport::SkippedMalformed => !old(self).full() && line@.len() > 0
                    && decode_spec(line@) is None && final(self)@ == old(self)@,
                LineReport::Rejected(reason) => !old(self).full() && (decode_spec(line@)
                    matches Some(fields) && rejection_of(pattern@, fields.0, fields.1) == Some(
                    reason,
                )) && final(self)@ == old(self)@,
            }),
    {
        if self.signatures.len() >= self.target {
            return LineReport::TargetReached;
        }
        match decode_line(line) {
            DecodeOutcome::Blank => LineReport::SkippedBlank,
            DecodeOutcome::Malformed => LineReport::SkippedMalformed,
            DecodeOutcome::Record(rec) => match evaluate(pattern, &rec) {
                FilterOutcome::Accepted(sig) => {
                    let ghost sig_view = sig@;
                    let ghost before = self.signatures.deep_view();
                    self.signatures.push(sig);
                    proof {
                        assert(self.signatures.deep_view() =~~= before.push(sig_view));
                    }
                    LineReport::Accepted
                },
                FilterOutcome::Rejected(reason) => LineReport::Rejected(reason),
            },
        }
    }

    /// Hands the collected signatures over, in arrival order.
    pub fn into_signatures(self) -> (r: Vec<Vec<u8>>)
        ensures
            r.deep_view() == self@,
    {
        self.signatures
    }
}

/// Collects signatures from a finite, already-read line sequence: the
/// result is the collected signatures together with how many lines were
/// read before stopping. A target of zero is rejected.
pub fn collect_from_lines(pattern: &DomainPattern, target: usize, lines: &Vec<Vec<u8>>) -> (r:
    Result<(Vec<Vec<u8>>, usize), ConfigError>)
    ensures
        target == 0 ==> r == Err::<(Vec<Vec<u8>>, usize), ConfigError>(ConfigError::ZeroTarget),
        target > 0 ==> (r matches Ok(res) && res.0.deep_view() == collect_spec(
            pattern@,
            target as int,
            lines.deep_view(),
        ) && res.1 == consumed_spec(pattern@, target as int, lines.deep_view())),
{
    let mut collector = match Collector::new(target) {
        Err(e) => {
            return Err(e);
        },
        Ok(c) => c,
    };
    let ghost patv = pattern@;
    let ghost lv = lines.deep_view();
    let mut i: usize = 0;
    proof {
        assert(lv.skip(0) =~= lv);
        assert(collector@ + collect_spec(patv, target as int, lv) =~~= collect_spec(
            patv,
            target as int,
            lv,
        ));
    }
    while i < lines.len() && !collector.is_full()
        invariant
            collector.wf(),
            collector.target_spec() == target as int,
            i <= lines.len(),
            lv == lines.deep_view(),
            patv == pattern@,
            lv.len() == lines@.len(),
            collect_spec(patv, target as int, lv) == collector@ + collect_spec(
                patv,
                target - collector@.len(),
                lv.skip(i as int),
            ),
            consumed_spec(patv, target as int, lv) == i + consumed_spec(
                patv,
                target - collector@.len(),
                lv.skip(i as int),
            ),
        decreases lines.len() - i,
    {
        let ghost rest = lv.skip(i as int);
        let ghost before = collector@;
        proof {
            assert(rest[0] == lv[i as int]);
            assert(rest.drop_first() =~= lv.skip(i + 1));
            assert(lv[i as int] == lines@[i as int].deep_view());
            assert(lines@[i as int].deep_view() =~= lines@[i as int]@);
        }
        let report = collector.offer_line(pattern, lines[i].as_slice());
        proof {
            let remaining = target - before.len();
            if report is Accepted {
                assert(line_signature(patv, rest[0]) matches Some(sig) && collector@
                    == before.push(sig));
                let sig = line_signature(patv, rest[0]).unwrap();
                assert(collect_spec(patv, remaining, rest) == seq![sig] + collect_spec(
                    patv,
                    remaining - 1,
                    rest.drop_first(),
                ));
                assert(before + (seq![sig] + collect_spec(patv, remaining - 1, rest.drop_first()))
                    =~~= before.push(sig) + collect_spec(patv, remaining - 1, rest.drop_first()));
            } else {
                assert(line_signature(patv, rest[0]) is None);
                assert(collector@ == before);
            }
        }
        i = i + 1;
    }
    proof {
        if collector@.len() < target as int {
            assert(i == lines.len());
            assert(lv.skip(i as int) =~= Seq::<Seq<u8>>::empty());
        }
        assert(collector@ + collect_spec(patv, target - collector@.len(), lv.skip(i as int))
            =~~= collector@);
    }
    let consumed = i;
    Ok((collector.into_signatures(), consumed))
}

} // verus!
