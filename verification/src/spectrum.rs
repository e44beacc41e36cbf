use vstd::prelude::*;

use crate::config::{MAX_F_MILLIHZ, MIN_F_MILLIHZ};

verus! {

/// Whether a frequency in millihertz lies in the instrument's playable band.
pub open spec fn spec_in_band(f_mhz: int) -> bool {
    MIN_F_MILLIHZ as int <= f_mhz <= MAX_F_MILLIHZ as int
}

/// The pairs of `s` whose frequency lies in the playable band, in order.
pub open spec fn spec_restrict(s: Seq<(u32, u64)>) -> Seq<(u32, u64)>
    decreases s.len(),
{
    if s.len() == 0 {
        Seq::empty()
    } else {
        spec_restrict(s.drop_last()) + if spec_in_band(s.last().0 as int) {
            seq![s.last()]
        } else {
            Seq::empty()
        }
    }
}

/// Index of the first pair of `s` with maximal magnitude; `-1` when `s` is
/// empty.
pub open spec fn spec_peak_idx(s: Seq<(u32, u64)>) -> int
    decreases s.len(),
{
    if s.len() == 0 {
        -1
    } else if s.len() == 1 {
        0
    } else {
        let p = spec_peak_idx(s.drop_last());
        if s.last().1 > s[p].1 {
            s.len() - 1
        } else {
            p
        }
    }
}

/// The peak index of a non-empty spectrum names one of its pairs.
pub proof fn lemma_peak_idx_bounds(s: Seq<(u32, u64)>)
    requires
        s.len() > 0,
    ensures
        0 <= spec_peak_idx(s) < s.len(),
    decreases s.len(),
{
    if s.len() > 1 {
        lemma_peak_idx_bounds(s.drop_last());
    }
}

/// No pair of a spectrum is stronger than its peak.
pub proof fn lemma_peak_is_max(s: Seq<(u32, u64)>)
    requires
        s.len() > 0,
    ensures
        forall|j: int| 0 <= j < s.len() ==> (#[trigger] s[j]).1 <= s[spec_peak_idx(s)].1,
    decreases s.len(),
{
    if s.len() > 1 {
        lemma_peak_is_max(s.drop_last());
        lemma_peak_idx_bounds(s.drop_last());
        assert forall|j: int| 0 <= j < s.len() implies (#[trigger] s[j]).1
            <= s[spec_peak_idx(s)].1 by {
            if j < s.len() - 1 {
                assert(s.drop_last()[j] == s[j]);
                assert(s.drop_last()[spec_peak_idx(s.drop_last())]
                    == s[spec_peak_idx(s.drop_last())]);
            }
        }
    }
}

/// One spectral analysis result: (frequency, magnitude) pairs in bin order,
/// frequency in millihertz and magnitude in millionths, restricted to the
/// playable band.
#[derive(Debug, PartialEq, Eq)]
pub struct SpectrumFrame {
    pub pairs: Vec<(u32, u64)>,
}

impl SpectrumFrame {
    /// Every pair of a frame lies in the playable band.
    pub open spec fn wf(self) -> bool {
        forall|i: int|
            0 <= i < self.pairs@.len() ==> spec_in_band((#[trigger] self.pairs@[i]).0 as int)
    }

    /// The magnitude-maximizing bin of this frame, earliest on ties; `None`
    /// only for an empty frame.
    pub fn peak(&self) -> (r: Option<usize>)
        ensures
            r is Some <==> self.pairs@.len() > 0,
            r matches Some(i) ==> i as int == spec_peak_idx(self.pairs@),
    {
        let n = self.pairs.len();
        if n == 0 {
            return None;
        }
        let mut best: usize = 0;
        let mut i: usize = 1;
        proof {
            assert(self.pairs@.take(1).len() == 1);
        }
        while i < n
            invariant
                1 <= i <= n,
                n == self.pairs@.len(),
                best < i,
                best as int == spec_peak_idx(self.pairs@.take(i as int)),
            decreases n - i,
        {
            proof {
                assert(self.pairs@.take(i + 1).drop_last() =~= self.pairs@.take(i as int));
                assert(self.pairs@.take(i + 1).last() == self.pairs@[i as int]);
                lemma_peak_idx_bounds(self.pairs@.take(i as int));
                assert(self.pairs@.take(i + 1)[best as int] == self.pairs@[best as int]);
            }
            if self.pairs[i].1 > self.pairs[best].1 {
                best = i;
            }
            i += 1;
        }
        proof {
            assert(self.pairs@.take(n as int) =~= self.pairs@);
        }
        Some(best)
    }
}

/// Keeps exactly the in-band pairs of a raw spectrum, in their incoming
/// order: the band restriction step of the analyzer.
pub fn restrict_frame(pairs: &Vec<(u32, u64)>) -> (r: SpectrumFrame)
    ensures
        r.pairs@ == spec_restrict(pairs@),
        r.wf(),
{
    let mut out: Vec<(u32, u64)> = Vec::new();
    let n = pairs.len();
    let mut i: usize = 0;
    while i < n
        invariant
            n == pairs@.len(),
            i <= n,
            out@ == spec_restrict(pairs@.take(i as int)),
            forall|j: int| 0 <= j < out@.len() ==> spec_in_band((#[trigger] out@[j]).0 as int),
        decreases n - i,
    {
        proof {
            assert(pairs@.take(i + 1).drop_last() =~= pairs@.take(i as int));
            assert(pairs@.take(i + 1).last() == pairs@[i as int]);
        }
        let (f, m) = pairs[i];
        if MIN_F_MILLIHZ <= f && f <= MAX_F_MILLIHZ {
            out.push((f, m));
            proof {
                assert(spec_restrict(pairs@.take(i as int)) + seq![pairs@[i as int]]
                    =~= spec_restrict(pairs@.take(i as int)).push(pairs@[i as int]));
            }
        } else {
            proof {
                assert(spec_restrict(pairs@.take(i as int)) + Seq::<(u32, u64)>::empty()
                    =~= spec_restrict(pairs@.take(i as int)));
            }
        }
        i += 1;
    }
    proof {
        assert(pairs@.take(n as int) =~= pairs@);
    }
    SpectrumFrame { pairs: out }
}

} // verus!
