//! What the capture and playback callbacks do with one hardware block:
//! capture offers every sample to the ring and drops what does not fit;
//! playback takes a sample for every slot and plays silence where none is
//! left. Each reports whether its side fell behind during the block.

use vstd::prelude::*;
use crate::ring::{
    captured, left_after_play, min_nat, overruns, played, room, underruns, RingConsumer, RingProducer, SampleRing, SILENCE,
};

verus! {

impl SampleRing {
    /// Offers each sample of a captured block, in order. Samples that find
    /// the ring full are dropped; the result says whether any was
    /// (the output side fell behind).
    pub fn capture_block(&mut self, data: &[u32]) -> (output_fell_behind: bool)
        requires
            old(self).wf(),
        ensures
            final(self).wf(),
            final(self).cap() == old(self).cap(),
            final(self)@ == captured(old(self)@, old(self).cap(), data@),
            output_fell_behind == overruns(old(self)@, old(self).cap(), data@),
    {
        let ghost items0 = self@;
        let ghost free0 = room(self@, self.cap());
        let mut output_fell_behind = false;
        let mut i: usize = 0;
        while i < data.len()
            invariant
                self.wf(),
                self.cap() == old(self).cap(),
                items0 == old(self)@,
                free0 == room(items0, self.cap()),
                i <= data@.len(),
                self@ == items0 + data@.take(min_nat(free0, i as nat) as int),
                output_fell_behind == (i > free0),
            decreases data@.len() - i,
        {
            let sample = data[i];
            let ghost before = self@;
            if self.push(sample).is_err() {
                output_fell_behind = true;
            }
            proof {
                if i < free0 {
                    assert(data@.take(i + 1) == data@.take(i as int).push(sample));
                }
            }
            i = i + 1;
        }
        proof {
            assert(data@.take(data@.len() as int) == data@);
        }
        output_fell_behind
    }

    /// Fills every slot of a playback block, in order, with the oldest
    /// sample left in the ring, or with silence once the ring is empty; the
    /// result says whether any slot got silence (the input side fell behind).
    pub fn playback_block(&mut self, out: &mut [u32]) -> (input_fell_behind: bool)
        requires
            old(self).wf(),
        ensures
            final(self).wf(),
            final(self).cap() == old(self).cap(),
            final(out)@ == played(old(self)@, old(out)@.len()),
            final(self)@ == left_after_play(old(self)@, old(out)@.len()),
            input_fell_behind == underruns(old(self)@, old(out)@.len()),
    {
        let ghost items0 = self@;
        let ghost n = out@.len();
        let mut input_fell_behind = false;
        let mut i: usize = 0;
        while i < out.len()
            invariant
                self.wf(),
                self.cap() == old(self).cap(),
                items0 == old(self)@,
                n == out@.len(),
                i <= n,
                self@ == items0.skip(min_nat(i as nat, items0.len()) as int),
                forall|j: int| 0 <= j < i ==> out@[j] == played(items0, n)[j],
                input_fell_behind == (i > items0.len()),
            decreases n - i,
        {
            let slot = match self.pop() {
                Some(s) => s,
                None => {
                    input_fell_behind = true;
                    SILENCE
                },
            };
            out[i] = slot;
            i = i + 1;
        }
        proof {
            assert(out@ == played(items0, n));
        }
        input_fell_behind
    }
}


/// Samples captured without an overrun come out of playback in the order
/// they went in, after what the ring already held: playing as many slots as
/// there are samples plays the old contents and then the block, and empties
/// the ring.
pub proof fn lemma_fifo_order(items: Seq<u32>, capacity: nat, data: Seq<u32>)
    requires
        items.len() + data.len() <= capacity,
    ensures
        !overruns(items, capacity, data),
        captured(items, capacity, data) == items + data,
        played(captured(items, capacity, data), items.len() + data.len()) == items + data,
        left_after_play(captured(items, capacity, data), items.len() + data.len()) == Seq::<u32>::empty(),
{
    assert(data.take(data.len() as int) == data);
    let all = items + data;
    assert(played(all, all.len()) == all);
    assert(all.skip(all.len() as int) == Seq::<u32>::empty());
}

/// Capture never disturbs what the ring already holds; when the block does
/// not fit, the ring ends up full, the samples that found it full are
/// dropped, and the block is reported as fallen behind.
pub proof fn lemma_overrun_keeps_buffered(items: Seq<u32>, capacity: nat, data: Seq<u32>)
    requires
        items.len() <= capacity,
    ensures
        captured(items, capacity, data).take(items.len() as int) == items,
        overruns(items, capacity, data) ==> {
            &&& captured(items, capacity, data).len() == capacity
            &&& captured(items, capacity, data) == items + data.take(capacity - items.len())
        },
        items.len() == capacity && data.len() > 0 ==> {
            &&& captured(items, capacity, data) == items
            &&& overruns(items, capacity, data)
        },
{
    let r = captured(items, capacity, data);
    assert(r.take(items.len() as int) == items);
    if items.len() == capacity {
        assert(data.take(0) == Seq::<u32>::empty());
        assert(r == items);
    }
}

/// When the ring holds fewer samples than a playback block asks for, the
/// block plays everything the ring held, in order, then exactly silence in
/// every slot left, leaves the ring empty, and is reported as fallen behind.
pub proof fn lemma_underrun_plays_silence(items: Seq<u32>, n: nat)
    requires
        n > items.len(),
    ensures
        underruns(items, n),
        played(items, n).take(items.len() as int) == items,
        forall|i: int| items.len() <= i < n ==> #[trigger] played(items, n)[i] == SILENCE,
        left_after_play(items, n) == Seq::<u32>::empty(),
{
    assert(played(items, n).take(items.len() as int) == items);
    assert(items.skip(items.len() as int) == Seq::<u32>::empty());
}

/// The samples of a run of push attempts, in order.
pub open spec fn offered(attempts: Seq<(u32, bool)>) -> Seq<u32> {
    attempts.map_values(|a: (u32, bool)| a.0)
}

/// Some attempt of the run found the ring full.
pub open spec fn any_refused(attempts: Seq<(u32, bool)>) -> bool {
    exists|i: int| 0 <= i < attempts.len() && !(#[trigger] attempts[i]).1
}

/// What a slot plays for the outcome of its pop.
pub open spec fn slot_value(popped: Option<u32>) -> u32 {
    match popped {
        Some(s) => s,
        None => SILENCE,
    }
}

/// Some pop of the run found the ring empty.
pub open spec fn any_empty(pops: Seq<Option<u32>>) -> bool {
    exists|i: int| 0 <= i < pops.len() && (#[trigger] pops[i]) is None
}

impl RingProducer {
    /// The capture callback on the producer half: offers each sample of the
    /// block in order, each exactly once. The result says whether the ring
    /// refused any of them (the output side fell behind).
    pub fn capture_block(&mut self, data: &[u32]) -> (output_fell_behind: bool)
        ensures
            final(self).history().len() == old(self).history().len() + data@.len(),
            final(self).history().take(old(self).history().len() as int) == old(self).history(),
            offered(final(self).history().skip(old(self).history().len() as int)) == data@,
            output_fell_behind == any_refused(final(self).history().skip(old(self).history().len() as int)),
    {
        let ghost h0 = self.history();
        let mut output_fell_behind = false;
        let mut i: usize = 0;
        while i < data.len()
            invariant
                h0 == old(self).history(),
                i <= data@.len(),
                self.history().len() == h0.len() + i,
                self.history().take(h0.len() as int) == h0,
                offered(self.history().skip(h0.len() as int)) == data@.take(i as int),
                output_fell_behind == any_refused(self.history().skip(h0.len() as int)),
            decreases data@.len() - i,
        {
            let sample = data[i];
            let ghost before = self.history();
            let accepted = self.push(sample);
            if !accepted {
                output_fell_behind = true;
            }
            proof {
                let blk0 = before.skip(h0.len() as int);
                let blk = self.history().skip(h0.len() as int);
                assert(blk == blk0.push((sample, accepted)));
                assert(self.history().take(h0.len() as int) == before.take(h0.len() as int));
                assert(offered(blk) == offered(blk0).push(sample));
                assert(data@.take(i + 1) == data@.take(i as int).push(sample));
                if !accepted {
                    assert(!blk[blk.len() - 1].1);
                }
                if any_refused(blk0) {
                    let k = choose|k: int| 0 <= k < blk0.len() && !(#[trigger] blk0[k]).1;
                    assert(blk[k] == blk0[k]);
                }
                if any_refused(blk) {
                    let k = choose|k: int| 0 <= k < blk.len() && !(#[trigger] blk[k]).1;
                    if k < blk0.len() {
                        assert(blk0[k] == blk[k]);
                    }
                }
            }
            i = i + 1;
        }
        proof {
            assert(data@.take(data@.len() as int) == data@);
        }
        output_fell_behind
    }
}

impl RingConsumer {
    /// The playback callback on the consumer half: pops once for each slot,
    /// in order, and plays what came out, or silence where nothing did. The
    /// result says whether any slot got silence (the input side fell behind).
    pub fn playback_block(&mut self, out: &mut [u32]) -> (input_fell_behind: bool)
        ensures
            final(self).history().len() == old(self).history().len() + old(out)@.len(),
            final(self).history().take(old(self).history().len() as int) == old(self).history(),
            final(out)@ == final(self).history().skip(old(self).history().len() as int).map_values(
                |p: Option<u32>| slot_value(p),
            ),
            input_fell_behind == any_empty(final(self).history().skip(old(self).history().len() as int)),
    {
        let ghost h0 = self.history();
        let ghost n = out@.len();
        let mut input_fell_behind = false;
        let mut i: usize = 0;
        while i < out.len()
            invariant
                h0 == old(self).history(),
                n == out@.len(),
                i <= n,
                self.history().len() == h0.len() + i,
                self.history().take(h0.len() as int) == h0,
                forall|j: int| 0 <= j < i ==> out@[j] == slot_value(#[trigger] self.history()[h0.len() + j]),
                input_fell_behind == any_empty(self.history().skip(h0.len() as int)),
            decreases n - i,
        {
            let ghost before = self.history();
            let popped = self.pop();
            let slot = match popped {
                Some(s) => s,
                None => {
                    input_fell_behind = true;
                    SILENCE
                },
            };
            out[i] = slot;
            proof {
                let blk0 = before.skip(h0.len() as int);
                let blk = self.history().skip(h0.len() as int);
                assert(blk == blk0.push(popped));
                assert(self.history().take(h0.len() as int) == before.take(h0.len() as int));
                if popped is None {
                    assert(blk[blk.len() - 1] is None);
                }
                if any_empty(blk0) {
                    let k = choose|k: int| 0 <= k < blk0.len() && (#[trigger] blk0[k]) is None;
                    assert(blk[k] == blk0[k]);
                }
                if any_empty(blk) {
                    let k = choose|k: int| 0 <= k < blk.len() && (#[trigger] blk[k]) is None;
                    if k < blk0.len() {
                        assert(blk0[k] == blk[k]);
                    }
                }
            }
            i = i + 1;
        }
        proof {
            let blk = self.history().skip(h0.len() as int);
            let want = blk.map_values(|p: Option<u32>| slot_value(p));
            assert forall|j: int| 0 <= j < n implies out@[j] == want[j] by {
                assert(blk[j] == self.history()[h0.len() + j]);
            }
            assert(out@ == want);
        }
        input_fell_behind
    }
}

} // verus!
