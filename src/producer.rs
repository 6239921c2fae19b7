use crate::buffer_config::AudioBufferConfig;
use crate::clip::AudioClip;
use crate::decoder::{DecodeErrorKind, Decoder, DecoderError};
use crate::messages::ProducerStatus;
use crate::ring::SampleRing;
use vstd::math::{max, min};
use vstd::prelude::*;

verus! {

/// `out` is `block` mixed into the running mix `acc`: where both have a
/// sample, `mix` combines them (the running sample first); past the end of
/// either, the other's sample is kept as it is.
pub open spec fn mixed_with<F: Fn(u32, u32) -> u32>(mix: F, acc: Seq<u32>, block: Seq<u32>, out: Seq<u32>) -> bool {
    &&& out.len() == max(acc.len() as int, block.len() as int)
    &&& forall|i: int|
        0 <= i < out.len() ==> if i < acc.len() && i < block.len() {
            mix.ensures((acc[i], block[i]), out[i])
        } else if i < acc.len() {
            out[i] == acc[i]
        } else {
            out[i] == block[i]
        }
}

/// Mixes `block` into the running mix `acc` (see [`mixed_with`]). For the
/// engine, `mix(a, b)` is `a + b / 2` on the samples' values.
pub fn mix_block<F: Fn(u32, u32) -> u32>(acc: &mut Vec<u32>, block: &[u32], mix: &F)
    requires
        forall|a: u32, b: u32| mix.requires((a, b)),
    ensures
        mixed_with(*mix, old(acc)@, block@, final(acc)@),
{
    let ghost start = acc@;
    let n = acc.len();
    let m = block.len();
    let mut i: usize = 0;
    while i < m
        invariant
            m == block@.len(),
            n == start.len(),
            i <= m,
            acc@.len() == max(n as int, i as int),
            forall|j: int|
                0 <= j < acc@.len() ==> if j < n && j < i {
                    mix.ensures((start[j], block@[j]), acc@[j])
                } else if j < n {
                    acc@[j] == start[j]
                } else {
                    acc@[j] == block@[j]
                },
            forall|a: u32, b: u32| mix.requires((a, b)),
        decreases m - i,
    {
        if i < n {
            let v = mix(acc[i], block[i]);
            acc.set(i, v);
        } else {
            acc.push(block[i]);
        }
        i = i + 1;
    }
}

/// What the mixing loop does after one clip's decode.
#[derive(Debug, Clone, Copy, PartialEq, Eq, Structural)]
pub enum MixFlow {
    /// Go on with the next clip.
    Next,
    /// The stream asked for a reset: stop and keep the partial mix.
    Stop,
    /// The decoder failed for good.
    Fail,
}

/// The step the mixing loop takes after `outcome`.
pub open spec fn flow_after(outcome: Result<Vec<u32>, DecoderError>) -> MixFlow {
    match outcome {
        Ok(_) => MixFlow::Next,
        Err(e) => match e.kind {
            DecodeErrorKind::ResetRequired => MixFlow::Stop,
            DecodeErrorKind::EndOfStream => MixFlow::Next,
            DecodeErrorKind::Fatal => MixFlow::Fail,
        },
    }
}

/// Folds one clip's decode outcome into the running mix: a block is mixed
/// in, an error leaves the mix as it is; the returned step says whether to
/// go on (block or exhausted clip), stop (reset) or fail (fatal).
pub fn mix_decoded<F: Fn(u32, u32) -> u32>(acc: &mut Vec<u32>, outcome: Result<Vec<u32>, DecoderError>, mix: &F) -> (flow: MixFlow)
    requires
        forall|a: u32, b: u32| mix.requires((a, b)),
    ensures
        flow == flow_after(outcome),
        outcome is Ok ==> mixed_with(*mix, old(acc)@, outcome->Ok_0@, final(acc)@),
        outcome is Err ==> final(acc)@ == old(acc)@,
{
    match outcome {
        Ok(block) => {
            mix_block(acc, block.as_slice(), mix);
            MixFlow::Next
        },
        Err(e) => match e.kind {
            DecodeErrorKind::ResetRequired => MixFlow::Stop,
            DecodeErrorKind::EndOfStream => MixFlow::Next,
            DecodeErrorKind::Fatal => MixFlow::Fail,
        },
    }
}

/// `out` is a mix of the blocks among `outcomes`, folded in order from an
/// empty mix with [`mixed_with`]; errors contribute nothing.
pub open spec fn mixes_over<F: Fn(u32, u32) -> u32>(
    mix: F,
    outcomes: Seq<Result<Vec<u32>, DecoderError>>,
    out: Seq<u32>,
) -> bool
    decreases outcomes.len(),
{
    if outcomes.len() == 0 {
        out.len() == 0
    } else {
        match outcomes.last() {
            Ok(block) => exists|prev: Seq<u32>|
                #![trigger mixed_with(mix, prev, block@, out)]
                mixes_over(mix, outcomes.drop_last(), prev) && mixed_with(mix, prev, block@, out),
            Err(_) => mixes_over(mix, outcomes.drop_last(), out),
        }
    }
}

/// The length of the mix of `outcomes`: that of their longest block.
pub open spec fn mixed_len(outcomes: Seq<Result<Vec<u32>, DecoderError>>) -> nat
    decreases outcomes.len(),
{
    if outcomes.len() == 0 {
        0
    } else {
        match outcomes.last() {
            Ok(block) => max(mixed_len(outcomes.drop_last()) as int, block@.len() as int) as nat,
            Err(_) => mixed_len(outcomes.drop_last()),
        }
    }
}

/// `outcomes` are those one mixing pass over `available` clips sees: every
/// outcome but the last lets the pass go on, and the pass ends early only
/// on a reset or a fatal error.
pub open spec fn is_pass(outcomes: Seq<Result<Vec<u32>, DecoderError>>, available: int) -> bool {
    &&& outcomes.len() <= available
    &&& forall|k: int| 0 <= k < outcomes.len() - 1 ==> flow_after(#[trigger] outcomes[k]) == MixFlow::Next
    &&& outcomes.len() < available ==> outcomes.len() > 0 && flow_after(outcomes.last()) != MixFlow::Next
}

/// What a pass that saw `outcomes` returns: a fatal error is returned; a
/// reset before anything was mixed is returned, so that the caller retries
/// later; otherwise the mix of the blocks seen (partial after a reset).
pub open spec fn pass_result<F: Fn(u32, u32) -> u32>(
    mix: F,
    outcomes: Seq<Result<Vec<u32>, DecoderError>>,
    r: Result<Vec<u32>, DecoderError>,
) -> bool {
    if outcomes.len() > 0 && flow_after(outcomes.last()) == MixFlow::Fail {
        r == Err::<Vec<u32>, DecoderError>(outcomes.last()->Err_0)
    } else if outcomes.len() > 0 && flow_after(outcomes.last()) == MixFlow::Stop && mixed_len(outcomes) == 0 {
        r == Err::<Vec<u32>, DecoderError>(outcomes.last()->Err_0)
    } else {
        r is Ok && mixes_over(mix, outcomes, r->Ok_0@)
    }
}

proof fn lemma_mix_extends<F: Fn(u32, u32) -> u32>(
    mix: F,
    seen: Seq<Result<Vec<u32>, DecoderError>>,
    outcome: Result<Vec<u32>, DecoderError>,
    before: Seq<u32>,
    after: Seq<u32>,
)
    requires
        mixes_over(mix, seen, before),
        outcome is Ok ==> mixed_with(mix, before, outcome->Ok_0@, after),
        outcome is Err ==> after == before,
    ensures
        mixes_over(mix, seen.push(outcome), after),
{
    let all = seen.push(outcome);
    assert(all.drop_last() =~= seen);
    assert(all.last() == outcome);
    if outcome is Ok {
        assert(mixed_with(mix, before, outcome->Ok_0@, after));
    }
}

proof fn lemma_mix_len<F: Fn(u32, u32) -> u32>(mix: F, outcomes: Seq<Result<Vec<u32>, DecoderError>>, out: Seq<u32>)
    requires
        mixes_over(mix, outcomes, out),
    ensures
        out.len() == mixed_len(outcomes),
    decreases outcomes.len(),
{
    if outcomes.len() > 0 {
        match outcomes.last() {
            Ok(block) => {
                let prev = choose|prev: Seq<u32>|
                    #![trigger mixed_with(mix, prev, block@, out)]
                    mixes_over(mix, outcomes.drop_last(), prev) && mixed_with(mix, prev, block@, out);
                lemma_mix_len(mix, outcomes.drop_last(), prev);
            },
            Err(_) => {
                lemma_mix_len(mix, outcomes.drop_last(), out);
            },
        }
    }
}

proof fn lemma_pass_extends(seen: Seq<Result<Vec<u32>, DecoderError>>, outcome: Result<Vec<u32>, DecoderError>)
    requires
        forall|k: int| 0 <= k < seen.len() ==> flow_after(#[trigger] seen[k]) == MixFlow::Next,
    ensures
        forall|k: int|
            0 <= k < seen.push(outcome).len() - 1 ==> flow_after(#[trigger] seen.push(outcome)[k]) == MixFlow::Next,
{
    assert forall|k: int| 0 <= k < seen.push(outcome).len() - 1 implies flow_after(
        #[trigger] seen.push(outcome)[k],
    ) == MixFlow::Next by {
        assert(seen.push(outcome)[k] == seen[k]);
    }
}

/// Runs one mixing pass over outcomes already at hand, as
/// [`AudioProducer::decode_and_mix`] does over its clips: outcomes after
/// the one that ends the pass are not looked at.
pub fn mix_outcomes<F: Fn(u32, u32) -> u32>(outcomes: Vec<Result<Vec<u32>, DecoderError>>, mix: &F) -> (r: Result<
    Vec<u32>,
    DecoderError,
>)
    requires
        forall|a: u32, b: u32| mix.requires((a, b)),
    ensures
        exists|p: int|
            0 <= p <= outcomes@.len() && is_pass(#[trigger] outcomes@.take(p), outcomes@.len() as int)
                && pass_result(*mix, outcomes@.take(p), r),
{
    let ghost all = outcomes@;
    let mut rest = outcomes;
    let mut mixed: Vec<u32> = Vec::new();
    let n = rest.len();
    let mut i: usize = 0;
    while i < n
        invariant
            n == all.len(),
            i <= n,
            all == outcomes@,
            rest@ == all.skip(i as int),
            forall|k: int| 0 <= k < i ==> flow_after(#[trigger] all.take(i as int)[k]) == MixFlow::Next,
            mixes_over(*mix, all.take(i as int), mixed@),
            forall|a: u32, b: u32| mix.requires((a, b)),
        decreases n - i,
    {
        let ghost seen = all.take(i as int);
        let ghost before = mixed@;
        let outcome = rest.remove(0);
        let ghost o = outcome;
        assert(o == all[i as int]);
        assert(all.take(i as int + 1) =~= seen.push(o));
        let failure = match &outcome {
            Err(e) => *e,
            Ok(_) => DecoderError { kind: DecodeErrorKind::Fatal },
        };
        let flow = mix_decoded(&mut mixed, outcome, mix);
        proof {
            lemma_mix_extends(*mix, seen, o, before, mixed@);
            lemma_pass_extends(seen, o);
        }
        match flow {
            MixFlow::Next => {},
            MixFlow::Stop => {
                proof {
                    lemma_mix_len(*mix, seen.push(o), mixed@);
                }
                let ghost ended = all.take(i as int + 1);
                assert(is_pass(ended, n as int));
                assert(ended.last() == o);
                let r = if mixed.len() == 0 {
                    Err(failure)
                } else {
                    Ok(mixed)
                };
                assert(pass_result(*mix, ended, r));
                assert(is_pass(all.take(i as int + 1), n as int) && pass_result(*mix, all.take(i as int + 1), r));
                return r;
            },
            MixFlow::Fail => {
                assert(is_pass(all.take(i as int + 1), n as int));
                return Err(failure);
            },
        }
        i = i + 1;
    }
    assert(all.take(n as int) =~= all);
    assert(is_pass(all.take(n as int), n as int));
    Ok(mixed)
}

/// What the refill phase does after a block was handed to the ring.
#[derive(Debug, Clone, Copy, PartialEq, Eq, Structural)]
pub enum RefillNext {
    /// Check the level and decode another block.
    KeepFilling,
    /// Leave the refill phase and wait for the next request.
    AwaitRequest,
    /// Every clip is exhausted and the ring has drained: raise the
    /// end-of-stream flag and stop.
    Finish,
}

/// The status to report when the ring holds `stored` samples and the
/// high-water mark is `threshold`: the buffer is full above the mark.
pub open spec fn room_status(stored: int, threshold: int) -> Option<ProducerStatus> {
    if stored > threshold {
        Some(ProducerStatus::BufferFull)
    } else {
        None
    }
}

/// Hands a mixed block to the ring. A non-empty block is pushed (as much
/// of it as fits) and recharges the buffer; an empty block means decoding
/// is done, which ends the stream once the ring is empty. The ring never
/// loses samples here.
pub fn commit_block(ring: &mut SampleRing, block: &[u32]) -> (r: (ProducerStatus, RefillNext))
    requires
        old(ring).wf(),
    ensures
        final(ring).wf(),
        final(ring).spec_capacity() == old(ring).spec_capacity(),
        final(ring)@.len() >= old(ring)@.len(),
        block@.len() > 0 ==> r == (ProducerStatus::BufferRecharge, RefillNext::KeepFilling)
            && final(ring)@ == old(ring)@ + block@.take(
            min(block@.len() as int, old(ring).spec_capacity() - old(ring)@.len()),
        ),
        block@.len() == 0 ==> final(ring)@ == old(ring)@ && r == (
            ProducerStatus::DecodingDone,
            if old(ring)@.len() == 0 {
                RefillNext::Finish
            } else {
                RefillNext::AwaitRequest
            },
        ),
{
    if block.len() > 0 {
        let _written = ring.push_slice(block);
        (ProducerStatus::BufferRecharge, RefillNext::KeepFilling)
    } else if ring.is_empty() {
        (ProducerStatus::DecodingDone, RefillNext::Finish)
    } else {
        (ProducerStatus::DecodingDone, RefillNext::AwaitRequest)
    }
}

/// Settles one refill step on what decoding gave: a mixed block goes to
/// [`commit_block`] and its status is reported; a reset reports nothing
/// and waits for the next request, so that decoding resumes then; any
/// other error reports `DecodingDone` and ends the stream. The ring is
/// left as it is on an error.
pub fn commit_mixed(ring: &mut SampleRing, mixed: Result<Vec<u32>, DecoderError>) -> (r: (
    Option<ProducerStatus>,
    RefillNext,
))
    requires
        old(ring).wf(),
    ensures
        final(ring).wf(),
        final(ring).spec_capacity() == old(ring).spec_capacity(),
        final(ring)@.len() >= old(ring)@.len(),
        mixed is Err ==> final(ring)@ == old(ring)@,
        mixed is Err && mixed->Err_0.kind == DecodeErrorKind::ResetRequired ==> r == (
            None::<ProducerStatus>,
            RefillNext::AwaitRequest,
        ),
        mixed is Err && mixed->Err_0.kind != DecodeErrorKind::ResetRequired ==> r == (
            Some(ProducerStatus::DecodingDone),
            RefillNext::Finish,
        ),
        mixed is Ok && mixed->Ok_0@.len() > 0 ==> r == (Some(ProducerStatus::BufferRecharge), RefillNext::KeepFilling)
            && final(ring)@ == old(ring)@ + mixed->Ok_0@.take(
            min(mixed->Ok_0@.len() as int, old(ring).spec_capacity() - old(ring)@.len()),
        ),
        mixed is Ok && mixed->Ok_0@.len() == 0 ==> final(ring)@ == old(ring)@ && r == (
            Some(ProducerStatus::DecodingDone),
            if old(ring)@.len() == 0 {
                RefillNext::Finish
            } else {
                RefillNext::AwaitRequest
            },
        ),
{
    match mixed {
        Ok(block) => {
            let (status, next) = commit_block(ring, block.as_slice());
            (Some(status), next)
        },
        Err(e) => match e.kind {
            DecodeErrorKind::ResetRequired => (None, RefillNext::AwaitRequest),
            _ => (Some(ProducerStatus::DecodingDone), RefillNext::Finish),
        },
    }
}

/// One clip alone reaches the mix unchanged: a pass that saw a single
/// block yields that block.
pub proof fn lemma_single_block_unchanged<F: Fn(u32, u32) -> u32>(mix: F, block: Vec<u32>, out: Seq<u32>)
    requires
        mixes_over(mix, seq![Ok::<Vec<u32>, DecoderError>(block)], out),
    ensures
        out == block@,
{
    let outcomes = seq![Ok::<Vec<u32>, DecoderError>(block)];
    assert(outcomes.drop_last() =~= Seq::<Result<Vec<u32>, DecoderError>>::empty());
    let prev = choose|prev: Seq<u32>|
        #![trigger mixed_with(mix, prev, block@, out)]
        mixes_over(mix, outcomes.drop_last(), prev) && mixed_with(mix, prev, block@, out);
    assert(prev.len() == 0);
    assert(out =~= block@);
}

/// Exhausted clips add nothing: when no outcome of a pass is a block, the
/// mix is empty.
pub proof fn lemma_no_block_empty_mix<F: Fn(u32, u32) -> u32>(
    mix: F,
    outcomes: Seq<Result<Vec<u32>, DecoderError>>,
    out: Seq<u32>,
)
    requires
        mixes_over(mix, outcomes, out),
        forall|k: int| 0 <= k < outcomes.len() ==> (#[trigger] outcomes[k]) is Err,
    ensures
        out.len() == 0,
    decreases outcomes.len(),
{
    if outcomes.len() > 0 {
        assert(outcomes.last() is Err);
        let earlier = outcomes.drop_last();
        assert forall|k: int| 0 <= k < earlier.len() implies (#[trigger] earlier[k]) is Err by {
            assert(earlier[k] == outcomes[k]);
        }
        lemma_no_block_empty_mix(mix, earlier, out);
    }
}

/// The decode-and-mix worker: owns the clips and the ring's thresholds.
pub struct AudioProducer<T: Decoder> {
    clips: Vec<AudioClip<T>>,
    config: AudioBufferConfig,
}

impl<T: Decoder> AudioProducer<T> {
    /// The number of clips.
    pub closed spec fn spec_clip_count(&self) -> nat {
        self.clips@.len()
    }

    /// The ring sizing in use.
    pub closed spec fn spec_config(&self) -> AudioBufferConfig {
        self.config
    }

    /// A worker over `clips`, in mixing order.
    pub fn new(clips: Vec<AudioClip<T>>, config: AudioBufferConfig) -> (r: Self)
        ensures
            r.spec_clip_count() == clips@.len(),
            r.spec_config() == config,
    {
        AudioProducer { clips, config }
    }

    /// `BufferFull` when the ring holds more than the high-water mark, in
    /// which case the refill phase ends; `None` when there is room.
    pub fn check_room(&self, ring: &SampleRing) -> (r: Option<ProducerStatus>)
        ensures
            r == room_status(ring@.len() as int, self.spec_config().threshold as int),
    {
        if ring.occupied_len() > self.config.threshold {
            Some(ProducerStatus::BufferFull)
        } else {
            None
        }
    }

    /// Decodes one block from each clip in order and mixes them (see
    /// [`mix_decoded`]): a reset stops the pass with the partial mix, an
    /// exhausted clip contributes nothing, a fatal error is returned. An
    /// empty block means no clip had anything left.
    pub fn decode_and_mix<F: Fn(u32, u32) -> u32>(&mut self, mix: &F) -> (r: Result<Vec<u32>, DecoderError>)
        requires
            forall|a: u32, b: u32| mix.requires((a, b)),
        ensures
            final(self).spec_clip_count() == old(self).spec_clip_count(),
            final(self).spec_config() == old(self).spec_config(),
            exists|outcomes: Seq<Result<Vec<u32>, DecoderError>>|
                is_pass(outcomes, old(self).spec_clip_count() as int) && #[trigger] pass_result(
                    *mix,
                    outcomes,
                    r,
                ),
    {
        let mut mixed: Vec<u32> = Vec::new();
        let n = self.clips.len();
        let mut i: usize = 0;
        let ghost mut seen: Seq<Result<Vec<u32>, DecoderError>> = Seq::empty();
        while i < n
            invariant
                n == self.clips@.len(),
                n == old(self).clips@.len(),
                self.config == old(self).config,
                i <= n,
                seen.len() == i,
                forall|k: int| 0 <= k < i ==> flow_after(#[trigger] seen[k]) == MixFlow::Next,
                mixes_over(*mix, seen, mixed@),
                forall|a: u32, b: u32| mix.requires((a, b)),
            decreases n - i,
        {
            let ghost before = mixed@;
            let outcome = self.clips[i].decode();
            let ghost o = outcome;
            let failure = match &outcome {
                Err(e) => *e,
                Ok(_) => DecoderError { kind: DecodeErrorKind::Fatal },
            };
            let flow = mix_decoded(&mut mixed, outcome, mix);
            proof {
                lemma_mix_extends(*mix, seen, o, before, mixed@);
                lemma_pass_extends(seen, o);
                seen = seen.push(o);
            }
            match flow {
                MixFlow::Next => {},
                MixFlow::Stop => {
                    proof {
                        lemma_mix_len(*mix, seen, mixed@);
                    }
                    assert(is_pass(seen, n as int));
                    assert(seen.last() == o);
                    if mixed.len() == 0 {
                        assert(pass_result(*mix, seen, Err::<Vec<u32>, DecoderError>(failure)));
                        return Err(failure);
                    }
                    assert(pass_result(*mix, seen, Ok::<Vec<u32>, DecoderError>(mixed)));
                    return Ok(mixed);
                },
                MixFlow::Fail => {
                    assert(is_pass(seen, n as int));
                    assert(seen.last() == o);
                    assert(pass_result(*mix, seen, Err::<Vec<u32>, DecoderError>(failure)));
                    return Err(failure);
                },
            }
            i = i + 1;
        }
        assert(is_pass(seen, n as int));
        assert(pass_result(*mix, seen, Ok::<Vec<u32>, DecoderError>(mixed)));
        Ok(mixed)
    }
}

} // verus!
