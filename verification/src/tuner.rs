use vstd::prelude::*;

use crate::config::{Node, TuningValue, UNIT_MICRO};
use crate::graph::spec_aligned;
use crate::spectrum::SpectrumFrame;

verus! {

/// Index into `s` of the strongest pair lying within `node`'s frequency band
/// at or above magnitude `thr`; `-1` when none qualifies.  Earlier bins win
/// ties.
pub open spec fn spec_band_peak(s: Seq<(u32, u64)>, node: Node, thr: u64) -> int
    decreases s.len(),
{
    if s.len() == 0 {
        -1
    } else {
        let p = spec_band_peak(s.drop_last(), node, thr);
        let x = s.last();
        if !(node.base_mhz <= x.0 <= node.max_mhz && x.1 >= thr) {
            p
        } else if p == -1 || x.1 > s[p].1 {
            s.len() - 1
        } else {
            p
        }
    }
}

/// The strongest band-peak magnitude across all nodes; `0` when no node has
/// a qualifying peak.
pub open spec fn spec_max_peak_mag(s: Seq<(u32, u64)>, nodes: Seq<Node>, thr: u64) -> int
    decreases nodes.len(),
{
    if nodes.len() == 0 {
        0
    } else {
        let m = spec_max_peak_mag(s, nodes.drop_last(), thr);
        let p = spec_band_peak(s, nodes.last(), thr);
        if p == -1 {
            m
        } else if s[p].1 > m {
            s[p].1 as int
        } else {
            m
        }
    }
}

/// No node's band peak is stronger than the strongest across all nodes.
pub proof fn lemma_max_peak_ge(s: Seq<(u32, u64)>, nodes: Seq<Node>, thr: u64, i: int)
    requires
        0 <= i < nodes.len(),
        spec_band_peak(s, nodes[i], thr) != -1,
    ensures
        s[spec_band_peak(s, nodes[i], thr)].1 <= spec_max_peak_mag(s, nodes, thr),
    decreases nodes.len(),
{
    if i == nodes.len() - 1 {
        assert(nodes.last() == nodes[i]);
    } else {
        assert(nodes.drop_last()[i] == nodes[i]);
        lemma_max_peak_ge(s, nodes.drop_last(), thr, i);
    }
}

/// The tuning value derived for node `i` from spectrum `s`: the strongest
/// qualifying bin's frequency (the node's base frequency when none
/// qualifies), and that bin's magnitude as a fraction, in millionths, of the
/// strongest peak across all nodes.
pub open spec fn spec_derived(s: Seq<(u32, u64)>, nodes: Seq<Node>, thr: u64, i: int) -> TuningValue {
    let p = spec_band_peak(s, nodes[i], thr);
    let m = spec_max_peak_mag(s, nodes, thr);
    TuningValue {
        f_n: nodes[i].f_n,
        center_mhz: if p == -1 {
            nodes[i].base_mhz
        } else {
            s[p].0
        },
        sensitivity_micro: if p == -1 || m == 0 {
            0u32
        } else {
            (s[p].1 * UNIT_MICRO / m) as u32
        },
    }
}

/// Derives per-node tuning values from a spectral analysis pass, following
/// the rule of [`spec_derived`].
pub struct Tuner {
    pub threshold_micro: u64,
}

impl Tuner {
    /// A tuner that ignores bins below `threshold_micro`.
    pub fn new(threshold_micro: u64) -> (t: Tuner)
        ensures
            t.threshold_micro == threshold_micro,
    {
        Tuner { threshold_micro }
    }

    /// The strongest qualifying bin of `frame` for one node, if any.
    fn band_peak(&self, frame: &SpectrumFrame, node: &Node) -> (r: Option<usize>)
        ensures
            ({
                let p = spec_band_peak(frame.pairs@, *node, self.threshold_micro);
                &&& (r is None <==> p == -1)
                &&& (r matches Some(k) ==> k as int == p && k < frame.pairs@.len())
            }),
    {
        let s = &frame.pairs;
        let n = s.len();
        let mut found = false;
        let mut best: usize = 0;
        let mut i: usize = 0;
        while i < n
            invariant
                i <= n,
                n == s@.len(),
                !found ==> spec_band_peak(s@.take(i as int), *node, self.threshold_micro) == -1,
                found ==> best < i && best as int == spec_band_peak(
                    s@.take(i as int),
                    *node,
                    self.threshold_micro,
                ),
            decreases n - i,
        {
            proof {
                assert(s@.take(i + 1).drop_last() =~= s@.take(i as int));
                assert(s@.take(i + 1).last() == s@[i as int]);
                if found {
                    assert(s@.take(i + 1)[best as int] == s@[best as int]);
                }
            }
            let (f, m) = s[i];
            if node.base_mhz <= f && f <= node.max_mhz && m >= self.threshold_micro {
                if !found || m > s[best].1 {
                    best = i;
                    found = true;
                }
            }
            i += 1;
        }
        proof {
            assert(s@.take(n as int) =~= s@);
        }
        if found {
            Some(best)
        } else {
            None
        }
    }

    /// Derives one tuning value per node from a spectral frame.  The result
    /// is always positionally aligned with the node list, so it can feed a
    /// recompilation directly.
    pub fn derive_tuning(&self, frame: &SpectrumFrame, nodes: &Vec<Node>) -> (r: Vec<TuningValue>)
        ensures
            r@.len() == nodes@.len(),
            forall|i: int|
                0 <= i < nodes@.len() ==> #[trigger] r@[i] == spec_derived(
                    frame.pairs@,
                    nodes@,
                    self.threshold_micro,
                    i,
                ),
            spec_aligned(nodes@, r@),
    {
        let s = &frame.pairs;
        let n = nodes.len();

        // Each node's qualifying peak, if any.
        let mut peaks: Vec<Option<usize>> = Vec::new();
        let mut i: usize = 0;
        while i < n
            invariant
                i <= n,
                n == nodes@.len(),
                s@ == frame.pairs@,
                peaks@.len() == i,
                forall|j: int|
                    0 <= j < i ==> {
                        let p = spec_band_peak(s@, nodes@[j], self.threshold_micro);
                        &&& ((#[trigger] peaks@[j]) is None <==> p == -1)
                        &&& (peaks@[j] matches Some(k) ==> k as int == p && k < s@.len())
                    },
            decreases n - i,
        {
            let pk = self.band_peak(frame, &nodes[i]);
            peaks.push(pk);
            proof {
                assert(peaks@[i as int] == pk);
                assert(forall|j: int| 0 <= j < i ==> #[trigger] peaks@[j] == peaks@.drop_last()[j]);
            }
            i += 1;
        }

        // The strongest peak across all nodes normalizes the sensitivities.
        let mut max_mag: u64 = 0;
        i = 0;
        while i < n
            invariant
                i <= n,
                n == nodes@.len(),
                peaks@.len() == n,
                forall|j: int|
                    0 <= j < n ==> {
                        let p = spec_band_peak(s@, nodes@[j], self.threshold_micro);
                        &&& ((#[trigger] peaks@[j]) is None <==> p == -1)
                        &&& (peaks@[j] matches Some(k) ==> k as int == p && k < s@.len())
                    },
                max_mag as int == spec_max_peak_mag(
                    s@,
                    nodes@.take(i as int),
                    self.threshold_micro,
                ),
            decreases n - i,
        {
            proof {
                assert(nodes@.take(i + 1).drop_last() =~= nodes@.take(i as int));
                assert(nodes@.take(i + 1).last() == nodes@[i as int]);
            }
            match peaks[i] {
                Some(k) => {
                    if s[k].1 > max_mag {
                        max_mag = s[k].1;
                    }
                },
                None => {},
            }
            i += 1;
        }
        proof {
            assert(nodes@.take(n as int) =~= nodes@);
        }

        // Assemble the aligned tuning list.
        let mut r: Vec<TuningValue> = Vec::new();
        i = 0;
        while i < n
            invariant
                i <= n,
                n == nodes@.len(),
                peaks@.len() == n,
                forall|j: int|
                    0 <= j < n ==> {
                        let p = spec_band_peak(s@, nodes@[j], self.threshold_micro);
                        &&& ((#[trigger] peaks@[j]) is None <==> p == -1)
                        &&& (peaks@[j] matches Some(k) ==> k as int == p && k < s@.len())
                    },
                max_mag as int == spec_max_peak_mag(s@, nodes@, self.threshold_micro),
                r@.len() == i,
                forall|j: int|
                    0 <= j < i ==> #[trigger] r@[j] == spec_derived(
                        s@,
                        nodes@,
                        self.threshold_micro,
                        j,
                    ),
            decreases n - i,
        {
            let nd = nodes[i];
            let (center, sens): (u32, u32) = match peaks[i] {
                None => (nd.base_mhz, 0),
                Some(k) => {
                    let mag = s[k].1;
                    let sens: u32 = if max_mag == 0 {
                        0
                    } else {
                        proof {
                            lemma_max_peak_ge(s@, nodes@, self.threshold_micro, i as int);
                            assert(mag <= max_mag);
                            assert(mag as int * UNIT_MICRO as int <= max_mag as int
                                * UNIT_MICRO as int);
                            assert(max_mag as int * UNIT_MICRO as int / max_mag as int
                                == UNIT_MICRO as int) by (nonlinear_arith)
                                requires
                                    max_mag > 0,
                            ;
                            vstd::arithmetic::div_mod::lemma_div_is_ordered(
                                mag as int * UNIT_MICRO as int,
                                max_mag as int * UNIT_MICRO as int,
                                max_mag as int,
                            );
                        }
                        ((mag as u128 * UNIT_MICRO as u128) / max_mag as u128) as u32
                    };
                    (s[k].0, sens)
                },
            };
            r.push(TuningValue { f_n: nd.f_n, center_mhz: center, sensitivity_micro: sens });
            i += 1;
        }
        r
    }
}

} // verus!
