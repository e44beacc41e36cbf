use vstd::prelude::*;

use crate::config::WINDOW_SIZE;
use crate::Sample;

verus! {

/// The full analysis windows contained in `data`, in order: consecutive runs
/// of [`WINDOW_SIZE`] samples, none overlapping, none partial.
pub open spec fn spec_windows(data: Seq<Sample>) -> Seq<Seq<Sample>>
    decreases data.len(),
{
    if data.len() < WINDOW_SIZE as nat {
        Seq::empty()
    } else {
        seq![data.take(WINDOW_SIZE as int)] + spec_windows(data.skip(WINDOW_SIZE as int))
    }
}

/// What remains of `data` after every full analysis window is taken out.
pub open spec fn spec_windows_rest(data: Seq<Sample>) -> Seq<Sample>
    decreases data.len(),
{
    if data.len() < WINDOW_SIZE as nat {
        data
    } else {
        spec_windows_rest(data.skip(WINDOW_SIZE as int))
    }
}

/// The rolling capture buffer of the spectral analyzer: it accumulates raw
/// input samples and hands out one fixed-size window at a time for analysis.
/// Between calls it always holds less than one window.
#[derive(Debug)]
pub struct Window {
    pub buf: Vec<Sample>,
}

impl Window {
    /// The carry never reaches a full window.
    pub open spec fn wf(self) -> bool {
        self.buf@.len() < WINDOW_SIZE as nat
    }

    /// A fresh, empty capture buffer.
    pub fn new() -> (w: Window)
        ensures
            w.wf(),
            w.buf@ == Seq::<Sample>::empty(),
    {
        let w = Window { buf: Vec::new() };
        proof {
            assert(w.buf@ =~= Seq::<Sample>::empty());
        }
        w
    }

    /// Absorbs one input block and returns every analysis window that
    /// filled up: the carried samples followed by the block, cut into
    /// consecutive [`WINDOW_SIZE`]-sample windows, with the remainder carried
    /// to the next call.
    pub fn push_block(&mut self, block: &Vec<Sample>) -> (out: Vec<Vec<Sample>>)
        requires
            old(self).wf(),
        ensures
            final(self).wf(),
            ({
                let data = old(self).buf@ + block@;
                &&& out@.len() == spec_windows(data).len()
                &&& forall|k: int|
                    0 <= k < out@.len() ==> (#[trigger] out@[k])@ == spec_windows(data)[k]
                &&& final(self).buf@ == spec_windows_rest(data)
            }),
    {
        let ghost data = self.buf@ + block@;
        let mut i: usize = 0;
        let n = block.len();
        while i < n
            invariant
                n == block@.len(),
                i <= n,
                self.buf@ == old(self).buf@ + block@.take(i as int),
            decreases n - i,
        {
            self.buf.push(block[i]);
            proof {
                assert(old(self).buf@ + block@.take(i + 1) =~= (old(self).buf@ + block@.take(
                    i as int,
                )).push(block@[i as int]));
            }
            i += 1;
        }
        proof {
            assert(old(self).buf@ + block@.take(n as int) =~= data);
        }

        let mut out: Vec<Vec<Sample>> = Vec::new();
        while self.buf.len() >= WINDOW_SIZE
            invariant
                out@.len() + spec_windows(self.buf@).len() == spec_windows(data).len(),
                forall|k: int|
                    0 <= k < out@.len() ==> (#[trigger] out@[k])@ == spec_windows(data)[k],
                forall|k: int|
                    0 <= k < spec_windows(self.buf@).len() ==> #[trigger] spec_windows(
                        self.buf@,
                    )[k] == spec_windows(data)[out@.len() + k],
                spec_windows_rest(self.buf@) == spec_windows_rest(data),
            decreases self.buf@.len(),
        {
            let ghost cur = self.buf@;
            let mut win: Vec<Sample> = Vec::new();
            let mut j: usize = 0;
            while j < WINDOW_SIZE
                invariant
                    j <= WINDOW_SIZE,
                    WINDOW_SIZE <= self.buf@.len(),
                    win@ == self.buf@.take(j as int),
                decreases WINDOW_SIZE - j,
            {
                win.push(self.buf[j]);
                proof {
                    assert(self.buf@.take(j + 1) =~= self.buf@.take(j as int).push(
                        self.buf@[j as int],
                    ));
                }
                j += 1;
            }
            let mut rest: Vec<Sample> = Vec::new();
            let mut j: usize = WINDOW_SIZE;
            let len = self.buf.len();
            while j < len
                invariant
                    WINDOW_SIZE <= j <= len,
                    len == self.buf@.len(),
                    rest@ == self.buf@.subrange(WINDOW_SIZE as int, j as int),
                decreases len - j,
            {
                rest.push(self.buf[j]);
                proof {
                    assert(self.buf@.subrange(WINDOW_SIZE as int, j + 1) =~= self.buf@.subrange(
                        WINDOW_SIZE as int,
                        j as int,
                    ).push(self.buf@[j as int]));
                }
                j += 1;
            }
            proof {
                assert(rest@ =~= cur.skip(WINDOW_SIZE as int));
                assert(win@ =~= cur.take(WINDOW_SIZE as int));
            }
            self.buf = rest;
            let ghost out_len0 = out@.len();
            out.push(win);
            proof {
                let w = WINDOW_SIZE as int;
                assert(spec_windows(cur) == seq![cur.take(w)] + spec_windows(cur.skip(w)));
                assert(spec_windows(cur)[0] == cur.take(w));
                assert(win@ == spec_windows(data)[out_len0 as int]);
                assert forall|k: int| 0 <= k < out@.len() implies (#[trigger] out@[k])@
                    == spec_windows(data)[k] by {
                    if k < out_len0 {
                        assert(out@[k] == out@.subrange(0, out_len0 as int)[k]);
                    }
                }
                assert forall|k: int|
                    0 <= k < spec_windows(self.buf@).len() implies #[trigger] spec_windows(
                    self.buf@,
                )[k] == spec_windows(data)[out@.len() + k] by {
                    assert(spec_windows(cur)[k + 1] == spec_windows(self.buf@)[k]);
                }
            }
        }
        out
    }
}

} // verus!
