use crate::ring::SampleRing;
use vstd::math::min;
use vstd::prelude::*;

verus! {

/// The bit pattern written for silence (positive zero).
pub const SILENCE_SAMPLE: u32 = 0;

/// What one invocation of the output callback observed.
#[derive(Debug, Clone, Copy, PartialEq, Eq, Structural)]
pub struct FillReport {
    /// The ring held fewer samples than the low-water mark: the producer
    /// should be asked for more.
    pub request_data: bool,
    /// Some slot was written as silence for want of samples while the
    /// stream had not ended.
    pub underrun: bool,
}

/// The value written to output slot `k` from the stored samples `items`:
/// each slot skips one sample (the left channel) and keeps the next (the
/// right channel); slots that find no such sample are silent.
pub open spec fn slot_value(items: Seq<u32>, k: int) -> u32 {
    if 2 * k + 1 < items.len() {
        items[2 * k + 1]
    } else {
        SILENCE_SAMPLE
    }
}

/// How many stored samples filling `slots` output slots takes.
pub open spec fn samples_taken(stored: int, slots: int) -> int {
    min(2 * slots, stored)
}

/// Every slot of `out` holds silence.
pub open spec fn all_silent(out: Seq<u32>) -> bool {
    forall|k: int| 0 <= k < out.len() ==> out[k] == SILENCE_SAMPLE
}

/// Writes silence to every slot of `data`.
pub fn fill_silence(data: &mut [u32])
    ensures
        final(data)@.len() == old(data)@.len(),
        all_silent(final(data)@),
{
    let n = data.len();
    let mut k: usize = 0;
    while k < n
        invariant
            n == data@.len(),
            k <= n,
            forall|j: int| 0 <= j < k ==> data@[j] == SILENCE_SAMPLE,
        decreases n - k,
    {
        data[k] = SILENCE_SAMPLE;
        k = k + 1;
    }
}

/// Drains the ring into the output slots `data`, two stored samples per
/// slot (see [`slot_value`]), and reports whether more data should be
/// requested (the ring held fewer than `tolerance` samples on entry) and
/// whether the ring ran dry before the stream ended.
pub fn fill_output(ring: &mut SampleRing, data: &mut [u32], tolerance: usize, end_of_stream: bool) -> (r: FillReport)
    requires
        old(ring).wf(),
    ensures
        final(ring).wf(),
        final(ring).spec_capacity() == old(ring).spec_capacity(),
        final(data)@.len() == old(data)@.len(),
        forall|k: int| 0 <= k < old(data)@.len() ==> final(data)@[k] == slot_value(old(ring)@, k),
        final(ring)@ == old(ring)@.skip(samples_taken(old(ring)@.len() as int, old(data)@.len() as int)),
        r.request_data == (old(ring)@.len() < tolerance),
        r.underrun == (!end_of_stream && 2 * old(data)@.len() > old(ring)@.len()),
{
    let ghost items = ring@;
    let stored = ring.occupied_len();
    let request_data = stored < tolerance;
    let n = data.len();
    let mut k: usize = 0;
    while k < n
        invariant
            n == data@.len(),
            k <= n,
            ring.wf(),
            ring.spec_capacity() == old(ring).spec_capacity(),
            items == old(ring)@,
            ring@ == items.skip(samples_taken(items.len() as int, k as int)),
            forall|j: int| 0 <= j < k ==> data@[j] == slot_value(items, j),
        decreases n - k,
    {
        if ring.occupied_len() > 0 {
            let _left = ring.try_pop();
            let right = ring.try_pop();
            data[k] = match right {
                Some(v) => v,
                None => SILENCE_SAMPLE,
            };
        } else {
            data[k] = SILENCE_SAMPLE;
        }
        assert(ring@ == items.skip(samples_taken(items.len() as int, k as int + 1)));
        k = k + 1;
    }
    let underrun = !end_of_stream && n > stored / 2;
    FillReport { request_data, underrun }
}

/// One invocation of the output callback: silence while paused (the ring
/// is left untouched and nothing is requested), otherwise [`fill_output`].
pub fn output_callback(paused: bool, ring: &mut SampleRing, data: &mut [u32], tolerance: usize, end_of_stream: bool) -> (r: FillReport)
    requires
        old(ring).wf(),
    ensures
        final(ring).wf(),
        final(ring).spec_capacity() == old(ring).spec_capacity(),
        final(data)@.len() == old(data)@.len(),
        paused ==> all_silent(final(data)@) && final(ring)@ == old(ring)@ && !r.request_data && !r.underrun,
        !paused ==> (forall|k: int| 0 <= k < old(data)@.len() ==> final(data)@[k] == slot_value(old(ring)@, k))
            && final(ring)@ == old(ring)@.skip(samples_taken(old(ring)@.len() as int, old(data)@.len() as int))
            && r.request_data == (old(ring)@.len() < tolerance)
            && r.underrun == (!end_of_stream && 2 * old(data)@.len() > old(ring)@.len()),
{
    if paused {
        fill_silence(data);
        FillReport { request_data: false, underrun: false }
    } else {
        fill_output(ring, data, tolerance, end_of_stream)
    }
}

/// Samples are read in the order they were pushed: once a block is
/// appended behind the samples `held` by the ring, the output slot that
/// reads ring position `p` (with `p` past the held samples) receives the
/// block's sample at `p - held.len()`.
pub proof fn lemma_pushed_read_in_order(held: Seq<u32>, block: Seq<u32>, k: int)
    requires
        0 <= k,
        held.len() <= 2 * k + 1 < held.len() + block.len(),
    ensures
        slot_value(held + block, k) == block[2 * k + 1 - held.len()],
{
}

/// Consecutive invocations continue where the previous one stopped: after
/// a fill of `slots` slots, slot `k` of the next fill shows what slot
/// `slots + k` would have shown in one longer fill. No sample is skipped
/// or repeated.
pub proof fn lemma_fills_continue(items: Seq<u32>, slots: int, k: int)
    requires
        0 <= slots,
        0 <= k,
    ensures
        slot_value(items.skip(samples_taken(items.len() as int, slots)), k) == slot_value(items, slots + k),
{
    if 2 * slots > items.len() {
        assert(items.skip(samples_taken(items.len() as int, slots)).len() == 0);
    } else {
        let rest = items.skip(2 * slots);
        if 2 * k + 1 < rest.len() {
            assert(rest[2 * k + 1] == items[2 * slots + 2 * k + 1]);
        }
    }
}

} // verus!
