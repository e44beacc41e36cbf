use vstd::prelude::*;

use crate::config::TAP_CAPACITY;
use crate::Sample;

verus! {

/// What one push leaves in a tap: the sample is appended, and the oldest
/// sample makes room for it once the tap is full.
pub open spec fn spec_tap_push(s: Seq<Sample>, x: Sample) -> Seq<Sample> {
    if s.len() < TAP_CAPACITY as nat {
        s.push(x)
    } else {
        s.skip(1).push(x)
    }
}

/// What pushing a whole block leaves in a tap, front sample first.
pub open spec fn spec_tap_push_all(s: Seq<Sample>, xs: Seq<Sample>) -> Seq<Sample>
    decreases xs.len(),
{
    if xs.len() == 0 {
        s
    } else {
        spec_tap_push_all(spec_tap_push(s, xs[0]), xs.skip(1))
    }
}

/// A bounded introspection buffer at one point of the network: holds the most
/// recent [`TAP_CAPACITY`] samples written there, oldest first.  One writer
/// (the render side) pushes, one reader (the control side) snapshots.
#[derive(Debug, PartialEq, Eq)]
pub struct Tap {
    pub buf: Vec<Sample>,
}

impl View for Tap {
    type V = Seq<Sample>;

    open spec fn view(&self) -> Seq<Sample> {
        self.buf@
    }
}

impl Tap {
    /// A tap never holds more than its capacity.
    pub open spec fn wf(self) -> bool {
        self@.len() <= TAP_CAPACITY as nat
    }

    /// A fresh, empty tap.
    pub fn new() -> (t: Tap)
        ensures
            t.wf(),
            t@ == Seq::<Sample>::empty(),
    {
        let t = Tap { buf: Vec::new() };
        proof {
            assert(t@ =~= Seq::<Sample>::empty());
        }
        t
    }

    /// Records one sample, overwriting the oldest once full.
    pub fn push(&mut self, x: Sample)
        requires
            old(self).wf(),
        ensures
            final(self).wf(),
            final(self)@ == spec_tap_push(old(self)@, x),
    {
        if self.buf.len() == TAP_CAPACITY {
            self.buf.remove(0);
            proof {
                assert(self.buf@ =~= old(self)@.skip(1));
            }
        }
        self.buf.push(x);
    }

    /// Records a whole block, front sample first.
    pub fn push_block(&mut self, xs: &Vec<Sample>)
        requires
            old(self).wf(),
        ensures
            final(self).wf(),
            final(self)@ == spec_tap_push_all(old(self)@, xs@),
    {
        let n = xs.len();
        let mut i: usize = 0;
        while i < n
            invariant
                n == xs@.len(),
                i <= n,
                self.wf(),
                self@ == spec_tap_push_all(old(self)@, xs@.take(i as int)),
            decreases n - i,
        {
            proof {
                lemma_tap_push_all_snoc(old(self)@, xs@.take(i as int), xs@[i as int]);
                assert(xs@.take(i as int).push(xs@[i as int]) =~= xs@.take(i + 1));
            }
            self.push(xs[i]);
            i += 1;
        }
        proof {
            assert(xs@.take(n as int) =~= xs@);
        }
    }

    /// A reader's consistent copy of the buffered samples, oldest first.
    pub fn snapshot(&self) -> (r: Vec<Sample>)
        ensures
            r@ == self@,
    {
        let mut r: Vec<Sample> = Vec::new();
        let n = self.buf.len();
        let mut i: usize = 0;
        while i < n
            invariant
                n == self.buf@.len(),
                i <= n,
                r@ == self.buf@.take(i as int),
            decreases n - i,
        {
            r.push(self.buf[i]);
            proof {
                assert(self.buf@.take(i as int).push(self.buf@[i as int]) =~= self.buf@.take(
                    i + 1,
                ));
            }
            i += 1;
        }
        proof {
            assert(self.buf@.take(n as int) =~= self.buf@);
        }
        r
    }
}

/// Pushing one more sample after a block is pushing the extended block.
pub proof fn lemma_tap_push_all_snoc(s: Seq<Sample>, xs: Seq<Sample>, x: Sample)
    ensures
        spec_tap_push_all(s, xs.push(x)) == spec_tap_push(spec_tap_push_all(s, xs), x),
    decreases xs.len(),
{
    if xs.len() == 0 {
        assert(xs.push(x)[0] == x);
        assert(xs.push(x).skip(1) =~= Seq::<Sample>::empty());
        assert(spec_tap_push_all(s, xs.push(x)) == spec_tap_push_all(
            spec_tap_push(s, x),
            Seq::<Sample>::empty(),
        ));
    } else {
        assert(xs.push(x)[0] == xs[0]);
        assert(xs.push(x).skip(1) =~= xs.skip(1).push(x));
        assert(spec_tap_push_all(s, xs.push(x)) == spec_tap_push_all(
            spec_tap_push(s, xs[0]),
            xs.skip(1).push(x),
        ));
        lemma_tap_push_all_snoc(spec_tap_push(s, xs[0]), xs.skip(1), x);
        assert(spec_tap_push_all(s, xs) == spec_tap_push_all(
            spec_tap_push(s, xs[0]),
            xs.skip(1),
        ));
    }
}

/// A tap is a window onto the tail of everything written through it: after a
/// block lands in a tap, the tap holds exactly the last [`TAP_CAPACITY`]
/// samples of what it held before followed by the block, in production order.
pub proof fn lemma_tap_keeps_tail(s: Seq<Sample>, xs: Seq<Sample>)
    requires
        s.len() <= TAP_CAPACITY as nat,
    ensures
        spec_tap_push_all(s, xs) =~= {
            let all = s + xs;
            if all.len() <= TAP_CAPACITY as nat {
                all
            } else {
                all.skip(all.len() - TAP_CAPACITY as nat)
            }
        },
    decreases xs.len(),
{
    if xs.len() == 0 {
        assert(s + xs =~= s);
    } else {
        let s1 = spec_tap_push(s, xs[0]);
        lemma_tap_keeps_tail(s1, xs.skip(1));
        if s.len() < TAP_CAPACITY as nat {
            assert(s1 + xs.skip(1) =~= s + xs);
        } else {
            assert(s1 + xs.skip(1) =~= (s + xs).skip(1));
        }
    }
}

/// Feeding a tap at least a capacity's worth of samples leaves exactly the
/// most recent capacity samples, in production order, whatever it held before.
pub proof fn lemma_tap_fifo(s: Seq<Sample>, xs: Seq<Sample>)
    requires
        s.len() <= TAP_CAPACITY as nat,
        xs.len() >= TAP_CAPACITY as nat,
    ensures
        spec_tap_push_all(s, xs) =~= xs.skip(xs.len() - TAP_CAPACITY as nat),
{
    lemma_tap_keeps_tail(s, xs);
    if (s + xs).len() > TAP_CAPACITY as nat {
        assert((s + xs).skip((s + xs).len() - TAP_CAPACITY as nat) =~= xs.skip(
            xs.len() - TAP_CAPACITY as nat,
        ));
    } else {
        assert(s.len() == 0 && xs.len() == TAP_CAPACITY as nat);
        assert(s + xs =~= xs.skip(0));
    }
}

} // verus!
